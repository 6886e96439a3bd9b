use run_velvet::layout::ensure_stage_dir;
use run_velvet::layout::stage_dir_path;
use run_velvet::layout::DirAction;
use run_velvet::layout::PathState;
use run_velvet::pipeline::Action;
use run_velvet::pipeline::Event;
use run_velvet::pipeline::Pipeline;
use run_velvet::pipeline::RunResult;
use run_velvet::pipeline::StageInput;
use run_velvet::pipeline::State;
use run_velvet::resolver::resolve;
use run_velvet::resolver::FsEntry;
use run_velvet::resolver::QueryInfo;
use run_velvet::run_velveth;
use run_velvet::Config;
use run_velvet::Error;

fn s(text: &str) -> String {
    String::from(text)
}

fn file_entry(path: &str) -> FsEntry {
    FsEntry { path: s(path), is_file: true }
}

fn dir_entry(path: &str) -> FsEntry {
    FsEntry { path: s(path), is_file: false }
}

#[test]
fn resolve_keeps_regular_files_in_order() {
    let queries = vec![s("a.fastq"), s("b.fastq"), s("c.fastq")];
    let infos = vec![QueryInfo::File, QueryInfo::File, QueryInfo::File];
    let files = resolve(&queries, &infos).unwrap();
    assert_eq!(files, vec![s("a.fastq"), s("b.fastq"), s("c.fastq")]);
}

#[test]
fn resolve_keeps_duplicate_queries() {
    let queries = vec![s("a.fastq"), s("a.fastq")];
    let infos = vec![QueryInfo::File, QueryInfo::File];
    let files = resolve(&queries, &infos).unwrap();
    assert_eq!(files, vec![s("a.fastq"), s("a.fastq")]);
}

#[test]
fn resolve_expands_directory_and_ignores_subdirectories() {
    let queries = vec![s("samples/")];
    let infos = vec![QueryInfo::Directory {
        entries: vec![
            file_entry("samples/r1.fastq"),
            file_entry("samples/r2.fastq"),
            dir_entry("samples/tmp"),
        ],
    }];
    let files = resolve(&queries, &infos).unwrap();
    assert_eq!(files, vec![s("samples/r1.fastq"), s("samples/r2.fastq")]);
}

#[test]
fn resolve_mixes_files_and_directories_in_query_order() {
    let queries = vec![s("solo.fastq"), s("samples/")];
    let infos = vec![
        QueryInfo::File,
        QueryInfo::Directory {
            entries: vec![dir_entry("samples/nested"), file_entry("samples/r1.fastq")],
        },
    ];
    let files = resolve(&queries, &infos).unwrap();
    assert_eq!(files, vec![s("solo.fastq"), s("samples/r1.fastq")]);
}

#[test]
fn resolve_empty_directory_is_no_input_files() {
    let queries = vec![s("empty/")];
    let infos = vec![QueryInfo::Directory { entries: vec![] }];
    let r = resolve(&queries, &infos);
    assert!(matches!(r, Err(Error::NoInputFiles)));
}

#[test]
fn resolve_directories_without_files_is_no_input_files() {
    let queries = vec![s("a/"), s("b/")];
    let infos = vec![
        QueryInfo::Directory { entries: vec![dir_entry("a/sub")] },
        QueryInfo::Directory { entries: vec![] },
    ];
    let r = resolve(&queries, &infos);
    assert!(matches!(r, Err(Error::NoInputFiles)));
}

#[test]
fn resolve_empty_query_list_is_no_input_files() {
    let queries: Vec<String> = vec![];
    let infos: Vec<QueryInfo> = vec![];
    let r = resolve(&queries, &infos);
    assert!(matches!(r, Err(Error::NoInputFiles)));
}

#[test]
fn resolve_missing_path_is_not_found() {
    let queries = vec![s("gone.fastq")];
    let infos = vec![QueryInfo::Missing];
    let r = resolve(&queries, &infos);
    assert!(matches!(r, Err(Error::NotFound)));
}

#[test]
fn resolve_missing_path_wins_over_other_queries() {
    let queries = vec![s("a.fastq"), s("gone.fastq")];
    let infos = vec![QueryInfo::File, QueryInfo::Missing];
    let r = resolve(&queries, &infos);
    assert!(matches!(r, Err(Error::NotFound)));
}

#[test]
fn stage_dir_path_joins_base_and_stage() {
    assert_eq!(stage_dir_path("out", "velveth"), s("out/velveth"));
}

#[test]
fn ensure_stage_dir_creates_missing_directory() {
    let r = ensure_stage_dir("out", "index", PathState::Missing).unwrap();
    assert_eq!(r.0, s("out/index"));
    assert!(matches!(r.1, DirAction::Create));
}

#[test]
fn ensure_stage_dir_is_idempotent() {
    let first = ensure_stage_dir("out", "index", PathState::Missing).unwrap();
    let second = ensure_stage_dir("out", "index", PathState::IsDirectory).unwrap();
    assert_eq!(first.0, second.0);
    assert!(matches!(second.1, DirAction::AlreadyExists));
}

#[test]
fn ensure_stage_dir_rejects_non_directory() {
    let r = ensure_stage_dir("out", "index", PathState::NotADirectory);
    assert!(matches!(r, Err(Error::IOError { .. })));
}

#[test]
fn run_velveth_plans_the_hashing_directory() {
    let config = Config { query: vec![s("samples/")], out_dir: s("out") };
    let files = vec![s("samples/r1.fastq")];
    assert_eq!(run_velveth(&config, &files).unwrap(), s("out/velveth"));
}

#[test]
fn run_velveth_refuses_empty_input() {
    let config = Config { query: vec![s("samples/")], out_dir: s("out") };
    let files: Vec<String> = vec![];
    assert!(matches!(run_velveth(&config, &files), Err(Error::NoInputFiles)));
}

fn samples_infos() -> Vec<QueryInfo> {
    vec![QueryInfo::Directory {
        entries: vec![
            file_entry("samples/r1.fastq"),
            file_entry("samples/r2.fastq"),
            dir_entry("samples/tmp"),
        ],
    }]
}

#[test]
fn pipeline_runs_two_stages_to_completion() {
    let config = Config { query: vec![s("samples/")], out_dir: s("out") };
    let mut p = Pipeline::new(config, vec![s("index"), s("graph")]);

    match p.next_action() {
        Action::InspectQueries { queries } => assert_eq!(queries, vec![s("samples/")]),
        _ => panic!("expected query inspection"),
    }
    p.on_event(Event::Inspected { infos: samples_infos() });
    assert_eq!(p.inputs, vec![s("samples/r1.fastq"), s("samples/r2.fastq")]);

    match p.next_action() {
        Action::EnsureDir { path } => assert_eq!(path, s("out")),
        _ => panic!("expected the base directory"),
    }
    p.on_event(Event::DirEnsured { outcome: Ok(()) });

    match p.next_action() {
        Action::EnsureDir { path } => assert_eq!(path, s("out/index")),
        _ => panic!("expected the first stage directory"),
    }
    p.on_event(Event::DirEnsured { outcome: Ok(()) });

    match p.next_action() {
        Action::RunStage { stage, input, dir } => {
            assert_eq!(stage, s("index"));
            assert_eq!(dir, s("out/index"));
            match input {
                StageInput::Files { files } => {
                    assert_eq!(files, vec![s("samples/r1.fastq"), s("samples/r2.fastq")])
                }
                _ => panic!("the first stage reads the resolved files"),
            }
        }
        _ => panic!("expected the first stage run"),
    }
    p.on_event(Event::StageDone { outcome: Ok(()) });

    match p.next_action() {
        Action::EnsureDir { path } => assert_eq!(path, s("out/graph")),
        _ => panic!("expected the second stage directory"),
    }
    p.on_event(Event::DirEnsured { outcome: Ok(()) });

    match p.next_action() {
        Action::RunStage { stage, input, dir } => {
            assert_eq!(stage, s("graph"));
            assert_eq!(dir, s("out/graph"));
            match input {
                StageInput::FromDir { dir } => assert_eq!(dir, s("out/index")),
                _ => panic!("a later stage reads the previous stage's directory"),
            }
        }
        _ => panic!("expected the second stage run"),
    }
    p.on_event(Event::StageDone { outcome: Ok(()) });

    assert!(p.state == State::Completed);
    assert!(p.error.is_none());
    assert_eq!(p.results.len(), 2);
    match &p.results[0] {
        RunResult::Success { stage, out_dir } => {
            assert_eq!(stage, "index");
            assert_eq!(out_dir, "out/index");
        }
        _ => panic!("the first stage succeeded"),
    }
    match &p.results[1] {
        RunResult::Success { stage, out_dir } => {
            assert_eq!(stage, "graph");
            assert_eq!(out_dir, "out/graph");
        }
        _ => panic!("the second stage succeeded"),
    }
    assert!(matches!(p.next_action(), Action::Report));
}

#[test]
fn pipeline_keeps_first_success_and_records_second_failure() {
    let config = Config { query: vec![s("samples/")], out_dir: s("out") };
    let mut p = Pipeline::new(config, vec![s("A"), s("B")]);

    p.on_event(Event::Inspected { infos: samples_infos() });
    p.on_event(Event::DirEnsured { outcome: Ok(()) });
    p.on_event(Event::DirEnsured { outcome: Ok(()) });
    p.on_event(Event::StageDone { outcome: Ok(()) });
    p.on_event(Event::DirEnsured { outcome: Ok(()) });
    p.on_event(Event::StageDone { outcome: Err(s("exit code 1")) });

    assert!(p.state == State::Failed);
    assert_eq!(p.results.len(), 2);
    match &p.results[0] {
        RunResult::Success { stage, out_dir } => {
            assert_eq!(stage, "A");
            assert_eq!(out_dir, "out/A");
        }
        _ => panic!("stage A succeeded"),
    }
    match &p.results[1] {
        RunResult::Failure { stage, cause } => {
            assert_eq!(stage, "B");
            assert_eq!(cause, "exit code 1");
        }
        _ => panic!("stage B failed"),
    }
    match &p.error {
        Some(Error::StageFailed { stage, cause }) => {
            assert_eq!(stage, "B");
            assert_eq!(cause, "exit code 1");
        }
        _ => panic!("the run reports the failed stage"),
    }
    assert!(matches!(p.next_action(), Action::Report));
}

#[test]
fn pipeline_propagates_resolution_failure_unchanged() {
    let config = Config { query: vec![s("gone/")], out_dir: s("out") };
    let mut p = Pipeline::new(config, vec![s("index")]);
    p.on_event(Event::Inspected { infos: vec![QueryInfo::Missing] });
    assert!(p.state == State::Failed);
    assert!(p.results.is_empty());
    assert!(matches!(p.error, Some(Error::NotFound)));
}

#[test]
fn pipeline_fails_when_no_query_yields_files() {
    let config = Config { query: vec![s("empty/")], out_dir: s("out") };
    let mut p = Pipeline::new(config, vec![s("index")]);
    p.on_event(Event::Inspected { infos: vec![QueryInfo::Directory { entries: vec![] }] });
    assert!(p.state == State::Failed);
    assert!(matches!(p.error, Some(Error::NoInputFiles)));
}

#[test]
fn pipeline_fails_when_base_directory_cannot_be_made() {
    let config = Config { query: vec![s("samples/")], out_dir: s("out") };
    let mut p = Pipeline::new(config, vec![s("index")]);
    p.on_event(Event::Inspected { infos: samples_infos() });
    p.on_event(Event::DirEnsured { outcome: Err(s("permission denied")) });
    assert!(p.state == State::Failed);
    assert!(p.results.is_empty());
    match &p.error {
        Some(Error::IOError { message }) => assert_eq!(message, "permission denied"),
        _ => panic!("a directory failure is an IOError"),
    }
}

#[test]
fn pipeline_fails_when_stage_directory_cannot_be_made() {
    let config = Config { query: vec![s("samples/")], out_dir: s("out") };
    let mut p = Pipeline::new(config, vec![s("index")]);
    p.on_event(Event::Inspected { infos: samples_infos() });
    p.on_event(Event::DirEnsured { outcome: Ok(()) });
    p.on_event(Event::DirEnsured { outcome: Err(s("disk full")) });
    assert!(p.state == State::Failed);
    assert!(p.results.is_empty());
    match &p.error {
        Some(Error::IOError { message }) => assert_eq!(message, "disk full"),
        _ => panic!("a directory failure is an IOError"),
    }
}

#[test]
fn describe_names_the_failed_stage() {
    let e = Error::StageFailed { stage: s("velvetg"), cause: s("exit code 1") };
    assert_eq!(e.describe(), s("stage velvetg failed: exit code 1"));
}

#[test]
fn describe_keeps_the_io_message() {
    let e = Error::IOError { message: s("permission denied") };
    assert_eq!(e.describe(), s("I/O error: permission denied"));
}

#[test]
fn describe_names_the_resolution_failures() {
    assert_eq!(Error::NotFound.describe(), s("query path not found"));
    assert_eq!(Error::NoInputFiles.describe(), s("no input files"));
}

#[test]
fn pipeline_with_no_stages_completes_after_base_directory() {
    let config = Config { query: vec![s("a.fastq")], out_dir: s("out") };
    let mut p = Pipeline::new(config, vec![]);
    p.on_event(Event::Inspected { infos: vec![QueryInfo::File] });
    p.on_event(Event::DirEnsured { outcome: Ok(()) });
    assert!(p.state == State::Completed);
    assert!(p.results.is_empty());
}
