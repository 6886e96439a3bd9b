//! Stage directory planning: computing each stage's subdirectory of the base
//! output directory and deciding, from what the filesystem reports about
//! that path, whether it still has to be created.
//!
//! The decision is idempotent: a path that is already a directory is reused
//! unchanged, so re-running a pipeline never fails merely because an earlier
//! run left its directories in place.
use vstd::prelude::*;
use vstd::string::StringExecFns;

use crate::Error;

verus! {

/// What the filesystem reports about a path that is about to be used as a
/// directory.
pub enum PathState {
    Missing,
    IsDirectory,
    NotADirectory,
}

/// What remains to be done for a stage directory: nothing, or a recursive
/// create-if-missing.
pub enum DirAction {
    AlreadyExists,
    Create,
}

/// The subdirectory dedicated to one stage: `base/stage_name`.
pub open spec fn stage_dir_spec(base: Seq<char>, stage_name: Seq<char>) -> Seq<char> {
    base + "/"@ + stage_name
}

/// Whether ensuring a directory can succeed for a path in this state: only a
/// path that exists as something other than a directory is refused.
pub open spec fn ensure_ok(state: PathState) -> bool {
    !(state is NotADirectory)
}

/// The creation step a successful ensure asks for: create only what is
/// missing, leave an existing directory alone.
pub open spec fn ensure_action(state: PathState) -> DirAction {
    if state is Missing {
        DirAction::Create
    } else {
        DirAction::AlreadyExists
    }
}

/// Computes `base/stage_name`.
pub fn stage_dir_path(base: &str, stage_name: &str) -> (r: String)
    ensures
        r@ == stage_dir_spec(base@, stage_name@),
{
    let joined = base.to_owned().concat("/");
    joined.concat(stage_name)
}

/// Plans the stage subdirectory `base/stage_name`, given what the filesystem
/// reports about that path: the path together with the creation step still
/// needed, or `IOError` when the path exists but is not a directory.
pub fn ensure_stage_dir(base: &str, stage_name: &str, state: PathState) -> (r: Result<
    (String, DirAction),
    Error,
>)
    ensures
        ensure_ok(state) ==> (r matches Ok((p, act)) && p@ == stage_dir_spec(base@, stage_name@)
            && act == ensure_action(state)),
        !ensure_ok(state) ==> (r matches Err(e) && e is IOError),
{
    match state {
        PathState::Missing => Ok((stage_dir_path(base, stage_name), DirAction::Create)),
        PathState::IsDirectory => Ok((stage_dir_path(base, stage_name), DirAction::AlreadyExists)),
        PathState::NotADirectory => Err(
            Error::IOError { message: String::from_str("path exists but is not a directory") },
        ),
    }
}

/// Law: ensuring a stage directory is idempotent. Whatever state a first
/// successful call saw, a second call with the same arguments — which now
/// finds the directory in place — also succeeds, returns the very same path,
/// and asks for no new creation.
pub proof fn lemma_ensure_stage_dir_idempotent(
    base: &str,
    stage_name: &str,
    first: PathState,
    r1: Result<(String, DirAction), Error>,
    r2: Result<(String, DirAction), Error>,
)
    requires
        ensure_ok(first),
        call_ensures(ensure_stage_dir, (base, stage_name, first), r1),
        call_ensures(ensure_stage_dir, (base, stage_name, PathState::IsDirectory), r2),
    ensures
        r1 is Ok,
        r2 is Ok,
        r2->Ok_0.0@ == r1->Ok_0.0@,
        r2->Ok_0.1 == DirAction::AlreadyExists,
{
}

} // verus!
