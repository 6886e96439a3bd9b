//! Driver core for a two-phase external assembly toolchain: resolves query
//! paths into a concrete list of input files, plans an idempotent output
//! directory layout, and sequences the stages of a pipeline so that each
//! stage's output feeds the next stage's input.
//!
//! All filesystem and process work is left to the caller: the functions here
//! take plain descriptions of what the filesystem holds and return plain
//! decisions, so every rule in this crate is verified.
use vstd::prelude::*;
use vstd::string::StringExecFns;

pub mod layout;
pub mod pipeline;
pub mod resolver;

verus! {

/// The failure kinds of the driver core.
///
/// `NotFound`: a query path does not exist. `NoInputFiles`: resolution
/// produced an empty file list. `IOError`: a directory could not be inspected
/// or created. `StageFailed`: an external stage reported failure.
#[derive(Debug)]
pub enum Error {
    NotFound,
    NoInputFiles,
    IOError { message: String },
    StageFailed { stage: String, cause: String },
}

impl Error {
    /// A one-line description of the failure.
    pub fn describe(&self) -> (r: String)
        ensures
            (match self {
                Error::NotFound => r@ == "query path not found"@,
                Error::NoInputFiles => r@ == "no input files"@,
                Error::IOError { message } => r@ == "I/O error: "@ + message@,
                Error::StageFailed { stage, cause } => r@ == "stage "@ + stage@ + " failed: "@
                    + cause@,
            }),
    {
        match self {
            Error::NotFound => "query path not found".to_owned(),
            Error::NoInputFiles => "no input files".to_owned(),
            Error::IOError { message } => "I/O error: ".to_owned().concat(message.as_str()),
            Error::StageFailed { stage, cause } => "stage ".to_owned().concat(
                stage.as_str(),
            ).concat(" failed: ").concat(cause.as_str()),
        }
    }
}

/// A run's configuration: the query paths naming input files or directories,
/// and the base output directory.
#[derive(Debug)]
pub struct Config {
    pub query: Vec<String>,
    pub out_dir: String,
}

/// Plans the output directory of the velveth (hashing) stage, the first
/// stage of the toolchain: `out_dir/velveth`. The resolved input files must
/// be non-empty, as the stage would otherwise have nothing to hash.
pub fn run_velveth(config: &Config, files: &Vec<String>) -> (r: Result<String, Error>)
    ensures
        files@.len() > 0 ==> (r matches Ok(dir) && dir@ == crate::layout::stage_dir_spec(
            config.out_dir@,
            "velveth"@,
        )),
        files@.len() == 0 ==> (r matches Err(e) && e is NoInputFiles),
{
    if files.len() == 0 {
        return Err(Error::NoInputFiles);
    }
    Ok(crate::layout::stage_dir_path(config.out_dir.as_str(), "velveth"))
}

} // verus!
