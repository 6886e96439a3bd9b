//! The pipeline orchestrator: a state machine that sequences input
//! resolution, output layout and the external stages.
//!
//! The orchestrator itself performs no filesystem or process work. It tells
//! its caller which outside step to perform next (`next_action`) and decides
//! from the observed outcome what follows (`on_event`): resolution first,
//! then the base output directory, then each stage in declared order — the
//! resolved input files feed the first stage, every later stage reads the
//! previous stage's output directory. Any failure is terminal: no later
//! stage is attempted, and directories of completed stages are never touched
//! again.
use vstd::prelude::*;

use crate::Config;
use crate::Error;
use crate::layout::stage_dir_path;
use crate::layout::stage_dir_spec;
use crate::resolver::QueryInfo;
use crate::resolver::resolve;
use crate::resolver::resolve_spec;

verus! {

/// Outcome recorded for one stage: where its output went on success, or why
/// it failed.
pub enum RunResult {
    Success { stage: String, out_dir: String },
    Failure { stage: String, cause: String },
}

/// Where a run stands. A stage index names the stage whose directory is
/// being prepared or whose external process is running; `Completed` and
/// `Failed` are terminal.
#[derive(Clone, Copy, PartialEq, Eq, Structural)]
pub enum State {
    ResolvingInputs,
    PreparingOutput,
    PreparingStageDir(usize),
    RunningStage(usize),
    Completed,
    Failed,
}

/// The input handed to a stage: the resolved input files for the first
/// stage, the previous stage's output directory for every later one.
pub enum StageInput {
    Files { files: Vec<String> },
    FromDir { dir: String },
}

/// The one outside step the caller must perform next: inspect the query
/// paths, ensure a directory exists (recursive create-if-missing), run an
/// external stage, or — in a terminal state — nothing but reading the
/// results.
pub enum Action {
    InspectQueries { queries: Vec<String> },
    EnsureDir { path: String },
    RunStage { stage: String, input: StageInput, dir: String },
    Report,
}

/// What the caller observed when performing the requested step: the
/// filesystem report for each query path, or the outcome of a directory
/// ensure or of a stage run, with the failure message on error.
pub enum Event {
    Inspected { infos: Vec<QueryInfo> },
    DirEnsured { outcome: Result<(), String> },
    StageDone { outcome: Result<(), String> },
}

/// An element-for-element copy, for handing values out in an `Action`.
fn clone_strings(v: &Vec<String>) -> (r: Vec<String>)
    ensures
        r@ == v@,
{
    let mut r: Vec<String> = Vec::new();
    proof {
        assert(r@ =~= v@.take(0));
    }
    let mut i: usize = 0;
    while i < v.len()
        invariant
            i <= v@.len(),
            r@ == v@.take(i as int),
        decreases v@.len() - i,
    {
        r.push(v[i].clone());
        proof {
            assert(r@ =~= v@.take(i as int + 1));
        }
        i = i + 1;
    }
    proof {
        assert(v@.take(v@.len() as int) =~= v@);
    }
    r
}

/// One pipeline run: its configuration, the resolved inputs once known, the
/// per-stage results in order, and the error of a failed run.
pub struct Pipeline {
    pub queries: Vec<String>,
    pub out_dir: String,
    pub stages: Vec<String>,
    pub state: State,
    pub inputs: Vec<String>,
    pub results: Vec<RunResult>,
    pub error: Option<Error>,
}

impl Pipeline {
    /// The result of rank `k` belongs to the stage of the same rank, and a
    /// success names that stage's directory.
    pub open spec fn result_wf(self, k: int) -> bool {
        match self.results@[k] {
            RunResult::Success { stage, out_dir } => stage@ == self.stages@[k]@ && out_dir@
                == stage_dir_spec(self.out_dir@, self.stages@[k]@),
            RunResult::Failure { stage, .. } => stage@ == self.stages@[k]@,
        }
    }

    /// The recorded results follow the declared stage order; every result
    /// before the last is a success, and only a failed run can end on a
    /// failure — a failed stage stops the run, so no stage after it ever
    /// gets a result.
    pub open spec fn results_wf(self) -> bool {
        &&& self.results@.len() <= self.stages@.len()
        &&& (forall|k: int| 0 <= k < self.results@.len() ==> self.result_wf(k))
        &&& (forall|k: int| 0 <= k < self.results@.len() - 1 ==> self.results@[k] is Success)
        &&& (!(self.state is Failed) ==> (forall|k: int|
            0 <= k < self.results@.len() ==> self.results@[k] is Success))
    }

    /// The bookkeeping each state maintains: inputs are known from
    /// resolution on, results count exactly the finished stages, and only a
    /// failed run carries an error.
    pub open spec fn wf(self) -> bool {
        &&& self.results_wf()
        &&& match self.state {
            State::ResolvingInputs => self.inputs@.len() == 0 && self.results@.len() == 0
                && self.error is None,
            State::PreparingOutput => self.inputs@.len() > 0 && self.results@.len() == 0
                && self.error is None,
            State::PreparingStageDir(i) => self.inputs@.len() > 0 && (i as int)
                < self.stages@.len() && self.results@.len() == i as int && self.error is None,
            State::RunningStage(i) => self.inputs@.len() > 0 && (i as int) < self.stages@.len()
                && self.results@.len() == i as int && self.error is None,
            State::Completed => self.results@.len() == self.stages@.len() && self.error is None,
            State::Failed => self.error is Some,
        }
    }

    /// Starts a run: nothing resolved, no results, ready to inspect the
    /// query paths.
    pub fn new(config: Config, stages: Vec<String>) -> (p: Pipeline)
        ensures
            p.wf(),
            p.state == State::ResolvingInputs,
            p.queries == config.query,
            p.out_dir == config.out_dir,
            p.stages == stages,
            p.results@.len() == 0,
            p.error is None,
    {
        Pipeline {
            queries: config.query,
            out_dir: config.out_dir,
            stages,
            state: State::ResolvingInputs,
            inputs: Vec::new(),
            results: Vec::new(),
            error: None,
        }
    }

    /// The outside step to perform next, determined by the state alone.
    pub fn next_action(&self) -> (a: Action)
        requires
            self.wf(),
        ensures
            (match self.state {
                State::ResolvingInputs => a matches Action::InspectQueries { queries }
                    && queries@ == self.queries@,
                State::PreparingOutput => a matches Action::EnsureDir { path } && path@
                    == self.out_dir@,
                State::PreparingStageDir(i) => a matches Action::EnsureDir { path } && path@
                    == stage_dir_spec(self.out_dir@, self.stages@[i as int]@),
                State::RunningStage(i) => a matches Action::RunStage { stage, input, dir }
                    && stage@ == self.stages@[i as int]@ && dir@ == stage_dir_spec(
                    self.out_dir@,
                    self.stages@[i as int]@,
                ) && (if i == 0 {
                    input matches StageInput::Files { files } && files@ == self.inputs@
                } else {
                    input matches StageInput::FromDir { dir: prev } && prev@ == stage_dir_spec(
                        self.out_dir@,
                        self.stages@[i as int - 1]@,
                    )
                }),
                State::Completed => a is Report,
                State::Failed => a is Report,
            }),
    {
        match self.state {
            State::ResolvingInputs => Action::InspectQueries {
                queries: clone_strings(&self.queries),
            },
            State::PreparingOutput => Action::EnsureDir { path: self.out_dir.clone() },
            State::PreparingStageDir(i) => Action::EnsureDir {
                path: stage_dir_path(self.out_dir.as_str(), self.stages[i].as_str()),
            },
            State::RunningStage(i) => {
                let input = if i == 0 {
                    StageInput::Files { files: clone_strings(&self.inputs) }
                } else {
                    StageInput::FromDir {
                        dir: stage_dir_path(self.out_dir.as_str(), self.stages[i - 1].as_str()),
                    }
                };
                Action::RunStage {
                    stage: self.stages[i].clone(),
                    input,
                    dir: stage_dir_path(self.out_dir.as_str(), self.stages[i].as_str()),
                }
            },
            State::Completed => Action::Report,
            State::Failed => Action::Report,
        }
    }

    /// Advances the run by the outcome of the requested step.
    ///
    /// Resolution failures are kept unchanged; a directory failure becomes
    /// `IOError`; a failed stage records its failure as the last result and
    /// ends the run, so no later stage is ever attempted. A successful stage
    /// records where its output went and hands control to the next stage, or
    /// completes the run after the last one.
    pub fn on_event(&mut self, e: Event)
        requires
            old(self).wf(),
            !(old(self).state is Completed),
            !(old(self).state is Failed),
            (old(self).state is ResolvingInputs ==> (e matches Event::Inspected { infos }
                && infos@.len() == old(self).queries@.len())),
            ((old(self).state is PreparingOutput || old(self).state is PreparingStageDir)
                ==> e is DirEnsured),
            (old(self).state is RunningStage ==> e is StageDone),
        ensures
            final(self).wf(),
            final(self).queries == old(self).queries,
            final(self).out_dir == old(self).out_dir,
            final(self).stages == old(self).stages,
            (match old(self).state {
                State::ResolvingInputs => (e matches Event::Inspected { infos } && (match
                    resolve_spec(old(self).queries.deep_view(), infos@) {
                    Ok(files) => {
                        &&& final(self).state == State::PreparingOutput
                        &&& final(self).inputs.deep_view() == files
                        &&& final(self).results == old(self).results
                        &&& final(self).error is None
                    },
                    Err(err) => {
                        &&& final(self).state == State::Failed
                        &&& final(self).error == Some(err)
                        &&& final(self).results == old(self).results
                        &&& final(self).inputs == old(self).inputs
                    },
                })),
                State::PreparingOutput => (e matches Event::DirEnsured { outcome } && (match
                    outcome {
                    Ok(_) => {
                        &&& (if old(self).stages@.len() == 0 {
                            final(self).state == State::Completed
                        } else {
                            final(self).state == State::PreparingStageDir(0)
                        })
                        &&& final(self).inputs == old(self).inputs
                        &&& final(self).results == old(self).results
                        &&& final(self).error is None
                    },
                    Err(m) => {
                        &&& final(self).state == State::Failed
                        &&& (final(self).error matches Some(err)
                            && err matches Error::IOError { message } && message@ == m@)
                        &&& final(self).inputs == old(self).inputs
                        &&& final(self).results == old(self).results
                    },
                })),
                State::PreparingStageDir(i) => (e matches Event::DirEnsured { outcome } && (match
                    outcome {
                    Ok(_) => {
                        &&& final(self).state == State::RunningStage(i)
                        &&& final(self).inputs == old(self).inputs
                        &&& final(self).results == old(self).results
                        &&& final(self).error is None
                    },
                    Err(m) => {
                        &&& final(self).state == State::Failed
                        &&& (final(self).error matches Some(err)
                            && err matches Error::IOError { message } && message@ == m@)
                        &&& final(self).inputs == old(self).inputs
                        &&& final(self).results == old(self).results
                    },
                })),
                State::RunningStage(i) => (e matches Event::StageDone { outcome } && (match outcome {
                    Ok(_) => {
                        &&& (if i as int + 1 < old(self).stages@.len() {
                            final(self).state == State::PreparingStageDir((i + 1) as usize)
                        } else {
                            final(self).state == State::Completed
                        })
                        &&& final(self).results@.len() == old(self).results@.len() + 1
                        &&& (forall|k: int|
                            0 <= k < old(self).results@.len()
                                ==> final(self).results@[k] == old(self).results@[k])
                        &&& (final(self).results@.last() matches RunResult::Success {
                            stage,
                            out_dir,
                        } && stage@ == old(self).stages@[i as int]@ && out_dir@ == stage_dir_spec(
                            old(self).out_dir@,
                            old(self).stages@[i as int]@,
                        ))
                        &&& final(self).inputs == old(self).inputs
                        &&& final(self).error is None
                    },
                    Err(cause) => {
                        &&& final(self).state == State::Failed
                        &&& final(self).results@.len() == old(self).results@.len() + 1
                        &&& (forall|k: int|
                            0 <= k < old(self).results@.len()
                                ==> final(self).results@[k] == old(self).results@[k])
                        &&& (final(self).results@.last() matches RunResult::Failure {
                            stage,
                            cause: c,
                        } && stage@ == old(self).stages@[i as int]@ && c@ == cause@)
                        &&& (final(self).error matches Some(err) && err matches Error::StageFailed {
                            stage,
                            cause: c,
                        } && stage@ == old(self).stages@[i as int]@ && c@ == cause@)
                        &&& final(self).inputs == old(self).inputs
                    },
                })),
                State::Completed => true,
                State::Failed => true,
            }),
    {
        match self.state {
            State::ResolvingInputs => {
                match e {
                    Event::Inspected { infos } => {
                        match resolve(&self.queries, &infos) {
                            Ok(files) => {
                                self.inputs = files;
                                self.state = State::PreparingOutput;
                            },
                            Err(err) => {
                                self.error = Some(err);
                                self.state = State::Failed;
                            },
                        }
                    },
                    _ => {
                        proof {
                            assert(false);
                        }
                    },
                }
            },
            State::PreparingOutput => {
                match e {
                    Event::DirEnsured { outcome } => {
                        match outcome {
                            Ok(_) => {
                                if self.stages.len() == 0 {
                                    self.state = State::Completed;
                                } else {
                                    self.state = State::PreparingStageDir(0);
                                }
                            },
                            Err(m) => {
                                self.error = Some(Error::IOError { message: m });
                                self.state = State::Failed;
                            },
                        }
                    },
                    _ => {
                        proof {
                            assert(false);
                        }
                    },
                }
            },
            State::PreparingStageDir(i) => {
                match e {
                    Event::DirEnsured { outcome } => {
                        match outcome {
                            Ok(_) => {
                                self.state = State::RunningStage(i);
                            },
                            Err(m) => {
                                self.error = Some(Error::IOError { message: m });
                                self.state = State::Failed;
                            },
                        }
                        proof {
                            assert forall|k: int|
                                0 <= k < self.results@.len() implies self.result_wf(k) by {
                                assert(old(self).result_wf(k));
                            }
                        }
                    },
                    _ => {
                        proof {
                            assert(false);
                        }
                    },
                }
            },
            State::RunningStage(i) => {
                match e {
                    Event::StageDone { outcome } => {
                        match outcome {
                            Ok(_) => {
                                let n = self.stages.len();
                                proof {
                                    assert(i < n);
                                }
                                let stage_name = self.stages[i].clone();
                                let dir = stage_dir_path(
                                    self.out_dir.as_str(),
                                    self.stages[i].as_str(),
                                );
                                self.results.push(
                                    RunResult::Success { stage: stage_name, out_dir: dir },
                                );
                                if i + 1 < n {
                                    self.state = State::PreparingStageDir(i + 1);
                                } else {
                                    self.state = State::Completed;
                                }
                                proof {
                                    assert forall|k: int|
                                        0 <= k < self.results@.len() implies self.result_wf(k) by {
                                        if k < old(self).results@.len() {
                                            assert(old(self).result_wf(k));
                                        }
                                    }
                                    assert forall|k: int|
                                        0 <= k < self.results@.len() implies self.results@[k]
                                        is Success by {
                                        if k < old(self).results@.len() {
                                            assert(old(self).results@[k] is Success);
                                        }
                                    }
                                }
                            },
                            Err(cause) => {
                                self.error = Some(
                                    Error::StageFailed {
                                        stage: self.stages[i].clone(),
                                        cause: cause.clone(),
                                    },
                                );
                                let stage_name = self.stages[i].clone();
                                self.results.push(
                                    RunResult::Failure { stage: stage_name, cause },
                                );
                                self.state = State::Failed;
                                proof {
                                    assert forall|k: int|
                                        0 <= k < self.results@.len() implies self.result_wf(k) by {
                                        if k < old(self).results@.len() {
                                            assert(old(self).result_wf(k));
                                        }
                                    }
                                    assert forall|k: int|
                                        0 <= k < self.results@.len() - 1 implies self.results@[k]
                                        is Success by {
                                        assert(old(self).results@[k] is Success);
                                    }
                                }
                            },
                        }
                    },
                    _ => {
                        proof {
                            assert(false);
                        }
                    },
                }
            },
            State::Completed => {
                proof {
                    assert(false);
                }
            },
            State::Failed => {
                proof {
                    assert(false);
                }
            },
        }
    }
}

} // verus!
