//! What the program decides around the jobs: whether to start at all, which id each
//! job gets, and how the run ends once every job has ended.

use crate::Args;
use vstd::prelude::*;

verus! {

/// How many jobs may run at once.
pub const MAX_ACTIVE_JOBS: usize = 1;

/// How many events may wait for the aggregator, and how many samples for a relay.
pub const QUEUE_CAPACITY: usize = 100;

/// How long the aggregator has to end after it was told to: one second.
pub const SHUTDOWN_GRACE_NANOS: u64 = 1_000_000_000;

/// An input that was found, with the output that would be written for it.
#[derive(Debug)]
pub struct Candidate {
    pub input: String,
    pub output: String,
    /// Whether something stands at the output's place already.
    pub output_exists: bool,
}

/// A job that is to be run.
#[derive(Debug)]
pub struct JobSpec {
    /// The position of the job among all jobs of the run, counted from zero.
    pub id: usize,
    pub input: String,
    pub output: String,
}

/// Why the run does not start.
#[derive(Debug)]
pub enum StartError {
    /// There is no input.
    NoInputs,
    /// An output exists, and overwriting was not asked for.
    OutputExists { output: String },
}

/// The jobs of a run, or why there is no run.
pub type Plan = Result<Vec<JobSpec>, StartError>;

/// The candidate stands in the way: its output exists and may not be overwritten.
pub open spec fn blocked(overwrite: bool, candidate: Candidate) -> bool {
    !overwrite && candidate.output_exists
}

/// No candidate before the position `end` stands in the way.
pub open spec fn clear_before(overwrite: bool, candidates: Seq<Candidate>, end: int) -> bool {
    forall|j: int| 0 <= j < end ==> !blocked(overwrite, #[trigger] candidates[j])
}

/// The jobs are the candidates in their order, each with its position as its id.
pub open spec fn numbered(jobs: Seq<JobSpec>, candidates: Seq<Candidate>) -> bool {
    &&& jobs.len() == candidates.len()
    &&& forall|k: int|
        0 <= k < jobs.len() ==> {
            &&& (#[trigger] jobs[k]).id == k
            &&& jobs[k].input@ == candidates[k].input@
            &&& jobs[k].output@ == candidates[k].output@
        }
}

/// What is decided of the candidates: no start without any, no start where one stands
/// in the way, in which case the output of the first such is named, and otherwise one
/// job for each.
pub open spec fn planned(overwrite: bool, candidates: Seq<Candidate>, plan: Plan) -> bool {
    match plan {
        Ok(jobs) => {
            &&& candidates.len() > 0
            &&& clear_before(overwrite, candidates, candidates.len() as int)
            &&& numbered(jobs@, candidates)
        },
        Err(StartError::NoInputs) => candidates.len() == 0,
        Err(StartError::OutputExists { output }) => exists|k: int|
            {
                &&& 0 <= k < candidates.len()
                &&& blocked(overwrite, #[trigger] candidates[k])
                &&& clear_before(overwrite, candidates, k)
                &&& output@ == candidates[k].output@
            },
    }
}

/// Decides whether the run starts, and numbers its jobs.
pub fn plan_jobs(args: &Args, candidates: &Vec<Candidate>) -> (plan: Plan)
    ensures
        planned(args.overwrite_output, candidates@, plan),
{
    if candidates.len() == 0 {
        return Err(StartError::NoInputs);
    }
    let mut jobs: Vec<JobSpec> = Vec::new();
    let mut id: usize = 0;
    while id < candidates.len()
        invariant
            id <= candidates@.len(),
            candidates@.len() > 0,
            clear_before(args.overwrite_output, candidates@, id as int),
            numbered(jobs@, candidates@.take(id as int)),
        decreases candidates.len() - id,
    {
        let candidate = &candidates[id];
        if !args.overwrite_output && candidate.output_exists {
            return Err(StartError::OutputExists { output: candidate.output.clone() });
        }
        jobs.push(
            JobSpec { id, input: candidate.input.clone(), output: candidate.output.clone() },
        );
        id += 1;
    }
    assert(candidates@.take(id as int) =~= candidates@);
    Ok(jobs)
}

/// How the aggregator ended.
#[derive(Debug, Clone, Copy, PartialEq, Eq, Structural)]
pub enum UiEnd {
    /// It returned without an error.
    Clean,
    /// It returned an error.
    Failed,
    /// It broke off.
    Panicked,
}

/// Why a run that started did not end well.
#[derive(Debug, Clone, Copy, PartialEq, Eq, Structural)]
pub enum RunError {
    /// The aggregator did not end within the grace period.
    ShutdownTimeout,
    /// The aggregator broke off.
    UiPanicked,
    /// The aggregator ended with an error.
    UiFailed,
}

/// How far the run has come.
#[derive(Debug, Clone, Copy, PartialEq, Eq, Structural)]
pub enum RunPhase {
    /// Jobs are still running.
    Running,
    /// Every job has ended and the aggregator was told to end.
    Draining,
    /// The run is over.
    Over,
}

/// What happened in the run.
#[derive(Debug, Clone, Copy, PartialEq, Eq, Structural)]
pub enum RunEvent {
    /// A job ended.
    JobEnded,
    /// The aggregator ended.
    UiEnded { end: UiEnd },
    /// The grace period ran out.
    GraceExpired,
}

/// What the program is to do next.
#[derive(Debug, Clone, Copy, PartialEq, Eq)]
pub enum RunAction {
    /// Go on waiting.
    Wait,
    /// Tell the aggregator to end, and wait for it no longer than the grace period.
    CancelUi { grace_nanos: u64 },
    /// End the run with this result.
    Exit { result: Result<(), RunError> },
}

/// The result of a run whose aggregator ended as given.
pub open spec fn verdict_of(end: UiEnd) -> Result<(), RunError> {
    match end {
        UiEnd::Clean => Ok(()),
        UiEnd::Failed => Err(RunError::UiFailed),
        UiEnd::Panicked => Err(RunError::UiPanicked),
    }
}

/// The run as the program sees it: how many jobs still run, whether and how the
/// aggregator has ended, and how far the run has come.
#[derive(Debug, Clone, Copy, PartialEq, Eq, Structural)]
pub struct Supervisor {
    pub pending: usize,
    pub ui_end: Option<UiEnd>,
    pub phase: RunPhase,
}

/// The run after an event, and what is to be done.
///
/// While jobs run, the end of the aggregator is only noted. When the last job ends,
/// the aggregator is told to end, or, where it has ended already, the run ends with
/// its verdict. After that the run ends with whatever comes first: the aggregator's
/// end, with its verdict, or the end of the grace period, as a failure.
pub open spec fn next_of(run: Supervisor, event: RunEvent) -> (Supervisor, RunAction) {
    match (run.phase, event) {
        (RunPhase::Running, RunEvent::UiEnded { end }) => (
            Supervisor { ui_end: Some(end), ..run },
            RunAction::Wait,
        ),
        (RunPhase::Running, RunEvent::JobEnded) => if run.pending > 1 {
            (Supervisor { pending: (run.pending - 1) as usize, ..run }, RunAction::Wait)
        } else {
            match run.ui_end {
                Some(end) => (
                    Supervisor { pending: 0, phase: RunPhase::Over, ..run },
                    RunAction::Exit { result: verdict_of(end) },
                ),
                None => (
                    Supervisor { pending: 0, phase: RunPhase::Draining, ..run },
                    RunAction::CancelUi { grace_nanos: SHUTDOWN_GRACE_NANOS },
                ),
            }
        },
        (RunPhase::Draining, RunEvent::UiEnded { end }) => (
            Supervisor { ui_end: Some(end), phase: RunPhase::Over, ..run },
            RunAction::Exit { result: verdict_of(end) },
        ),
        (RunPhase::Draining, RunEvent::GraceExpired) => (
            Supervisor { phase: RunPhase::Over, ..run },
            RunAction::Exit { result: Err(RunError::ShutdownTimeout) },
        ),
        _ => (run, RunAction::Wait),
    }
}

impl Supervisor {
    /// A run of `jobs` jobs, all of them still to end.
    pub fn new(jobs: usize) -> (run: Self)
        ensures
            run == (Supervisor { pending: jobs, ui_end: None, phase: RunPhase::Running }),
    {
        Supervisor { pending: jobs, ui_end: None, phase: RunPhase::Running }
    }

    /// The result of a run whose aggregator ended as given.
    pub fn verdict(end: UiEnd) -> (result: Result<(), RunError>)
        ensures
            result == verdict_of(end),
    {
        match end {
            UiEnd::Clean => Ok(()),
            UiEnd::Failed => Err(RunError::UiFailed),
            UiEnd::Panicked => Err(RunError::UiPanicked),
        }
    }

    /// Takes the run one step on.
    pub fn step(&mut self, event: RunEvent) -> (action: RunAction)
        ensures
            (*final(self), action) == next_of(*old(self), event),
    {
        match (self.phase, event) {
            (RunPhase::Running, RunEvent::UiEnded { end }) => {
                self.ui_end = Some(end);
                RunAction::Wait
            },
            (RunPhase::Running, RunEvent::JobEnded) => {
                if self.pending > 1 {
                    self.pending = self.pending - 1;
                    RunAction::Wait
                } else {
                    self.pending = 0;
                    match self.ui_end {
                        Some(end) => {
                            self.phase = RunPhase::Over;
                            RunAction::Exit { result: Supervisor::verdict(end) }
                        },
                        None => {
                            self.phase = RunPhase::Draining;
                            RunAction::CancelUi { grace_nanos: SHUTDOWN_GRACE_NANOS }
                        },
                    }
                }
            },
            (RunPhase::Draining, RunEvent::UiEnded { end }) => {
                self.ui_end = Some(end);
                self.phase = RunPhase::Over;
                RunAction::Exit { result: Supervisor::verdict(end) }
            },
            (RunPhase::Draining, RunEvent::GraceExpired) => {
                self.phase = RunPhase::Over;
                RunAction::Exit { result: Err(RunError::ShutdownTimeout) }
            },
            _ => RunAction::Wait,
        }
    }
}

/// Once every job has ended, the run is over with the next thing that happens to the
/// aggregator: its end, or the end of the grace period. The end of the grace period
/// is reported as a failure.
pub proof fn lemma_shutdown_ends(run: Supervisor, event: RunEvent)
    requires
        run.phase == RunPhase::Draining,
        event != RunEvent::JobEnded,
    ensures
        next_of(run, event).0.phase == RunPhase::Over,
        next_of(run, event).1 is Exit,
        event == RunEvent::GraceExpired ==> next_of(run, event).1 == (RunAction::Exit {
            result: Err(RunError::ShutdownTimeout),
        }),
{
}

/// When the last job ends while the aggregator still runs, the aggregator is told to
/// end and given the grace period.
pub proof fn lemma_last_job_starts_shutdown(run: Supervisor)
    requires
        run.phase == RunPhase::Running,
        run.pending <= 1,
        run.ui_end is None,
    ensures
        next_of(run, RunEvent::JobEnded).0.phase == RunPhase::Draining,
        next_of(run, RunEvent::JobEnded).1 == (RunAction::CancelUi {
            grace_nanos: SHUTDOWN_GRACE_NANOS,
        }),
{
}

} // verus!
