//! The runner of one job: from its announcement, through the wait for admission and
//! the transcoder run, to its one final report.
//!
//! The runner decides; it does not wait. It is given what happened as an event and
//! answers with what is to be done next.

use crate::order::{complete, in_order, is_final};
use crate::texts;
use crate::ui::{CommandExit, PayloadModel, UiMessage, UiMessagePayload};
use crate::Args;
use vstd::prelude::*;
use vstd::string::*;

verus! {

/// Where a job stands.
#[derive(Debug, Clone, Copy, PartialEq, Eq, Structural)]
pub enum Phase {
    /// Made, and not yet announced.
    Created,
    /// Announced, waiting to be admitted.
    Queued,
    /// Admitted; the transcoder runs.
    Active,
    /// Ended, and the transcoder judged its run a success.
    Succeeded,
    /// Ended otherwise.
    Failed,
    /// Given up before admission, because no admission will ever come.
    Abandoned,
}

/// What happened to a job.
#[derive(Debug)]
pub enum TaskEvent {
    /// The runner was set going.
    Begin,
    /// The job was let in.
    Admitted,
    /// Nobody will be let in any more.
    Shut,
    /// The transcoder reported how much media it has done.
    Sample { current: u64 },
    /// The transcoder ran to its end.
    Exited { exit: CommandExit },
    /// The transcoder could not be run, or its run broke off.
    Crashed { error: String },
}

/// The mathematical content of a [`TaskEvent`].
pub enum EventModel {
    Begin,
    Admitted,
    Shut,
    Sample { current: u64 },
    Exited { exit: CommandExit },
    Crashed { error: Seq<char> },
}

impl View for TaskEvent {
    type V = EventModel;

    open spec fn view(&self) -> EventModel {
        match *self {
            TaskEvent::Begin => EventModel::Begin,
            TaskEvent::Admitted => EventModel::Admitted,
            TaskEvent::Shut => EventModel::Shut,
            TaskEvent::Sample { current } => EventModel::Sample { current },
            TaskEvent::Exited { exit } => EventModel::Exited { exit },
            TaskEvent::Crashed { error } => EventModel::Crashed { error: error@ },
        }
    }
}

/// What is to be done for a job. Every report goes to the aggregator, and a report
/// that cannot be delivered is dropped.
#[derive(Debug)]
pub enum TaskAction {
    /// Nothing: the event does not belong to the phase the job is in.
    Ignore,
    /// Send the report, then wait to be let in.
    Enqueue { report: UiMessage },
    /// Send the report, run the transcoder with these arguments and pass on what it
    /// reports of its progress.
    Launch { report: UiMessage, command: Vec<String> },
    /// Send the report.
    Relay { report: UiMessage },
    /// Stop passing on progress, send the report and make room for the next job.
    Conclude { report: UiMessage },
    /// Stop without a report.
    Abandon,
}

/// The mathematical content of a [`TaskAction`].
pub enum ActionModel {
    Ignore,
    Enqueue { report: PayloadModel },
    Launch { report: PayloadModel, command: Seq<Seq<char>> },
    Relay { report: PayloadModel },
    Conclude { report: PayloadModel },
    Abandon,
}

impl TaskAction {
    /// The job that the action's report is about, where it has a report.
    pub open spec fn reported_id(self) -> Option<usize> {
        match self {
            TaskAction::Enqueue { report } => Some(report.task_id),
            TaskAction::Launch { report, .. } => Some(report.task_id),
            TaskAction::Relay { report } => Some(report.task_id),
            TaskAction::Conclude { report } => Some(report.task_id),
            _ => None,
        }
    }
}

impl View for TaskAction {
    type V = ActionModel;

    open spec fn view(&self) -> ActionModel {
        match *self {
            TaskAction::Ignore => ActionModel::Ignore,
            TaskAction::Enqueue { report } => ActionModel::Enqueue { report: report.payload@ },
            TaskAction::Launch { report, command } => ActionModel::Launch {
                report: report.payload@,
                command: texts(command@),
            },
            TaskAction::Relay { report } => ActionModel::Relay { report: report.payload@ },
            TaskAction::Conclude { report } => ActionModel::Conclude { report: report.payload@ },
            TaskAction::Abandon => ActionModel::Abandon,
        }
    }
}

/// What the runner reads of a job.
pub struct JobModel {
    pub id: usize,
    pub input: Seq<char>,
    pub output: Seq<char>,
    pub no_audio: bool,
    pub no_video: bool,
    pub extra: Seq<Seq<char>>,
    pub total: u64,
    pub phase: Phase,
}

/// The transcoder's arguments for a job: overwrite, the input, the audio and video
/// handling, the container, then the extra arguments as they are, then the output.
pub open spec fn command_of(job: JobModel) -> Seq<Seq<char>> {
    seq!["-y"@, "-i"@, job.input] + (if job.no_audio {
        seq!["-an"@]
    } else {
        seq!["-c:a"@, "copy"@]
    }) + (if job.no_video {
        seq!["-vn"@]
    } else {
        seq!["-c:v"@, "libx264"@, "-crf"@, "18"@, "-preset"@, "ultrafast"@]
    }) + seq!["-movflags"@, "+frag_keyframe+empty_moov"@, "-f"@, "mp4"@] + job.extra + seq![
        job.output,
    ]
}

/// The phase after an event.
pub open spec fn next_phase(phase: Phase, event: EventModel) -> Phase {
    match (phase, event) {
        (Phase::Created, EventModel::Begin) => Phase::Queued,
        (Phase::Queued, EventModel::Admitted) => Phase::Active,
        (Phase::Queued, EventModel::Shut) => Phase::Abandoned,
        (Phase::Active, EventModel::Exited { exit }) => if exit.succeeded_spec() {
            Phase::Succeeded
        } else {
            Phase::Failed
        },
        (Phase::Active, EventModel::Crashed { .. }) => Phase::Failed,
        _ => phase,
    }
}

/// What is to be done on an event.
pub open spec fn action_of(job: JobModel, event: EventModel) -> ActionModel {
    match (job.phase, event) {
        (Phase::Created, EventModel::Begin) => ActionModel::Enqueue {
            report: PayloadModel::Created {
                input: job.input,
                output: job.output,
                total: job.total,
            },
        },
        (Phase::Queued, EventModel::Admitted) => ActionModel::Launch {
            report: PayloadModel::Started,
            command: command_of(job),
        },
        (Phase::Queued, EventModel::Shut) => ActionModel::Abandon,
        (Phase::Active, EventModel::Sample { current }) => ActionModel::Relay {
            report: PayloadModel::Progress { total: job.total, current },
        },
        (Phase::Active, EventModel::Exited { exit }) => ActionModel::Conclude {
            report: PayloadModel::Finished { exit },
        },
        (Phase::Active, EventModel::Crashed { error }) => ActionModel::Conclude {
            report: PayloadModel::Failed { error },
        },
        _ => ActionModel::Ignore,
    }
}

/// One job and where it stands.
#[derive(Debug)]
pub struct Task {
    id: usize,
    input: String,
    output: String,
    args: Args,
    total_duration: u64,
    phase: Phase,
}

impl View for Task {
    type V = JobModel;

    closed spec fn view(&self) -> JobModel {
        JobModel {
            id: self.id,
            input: self.input@,
            output: self.output@,
            no_audio: self.args.no_audio,
            no_video: self.args.no_video,
            extra: texts(self.args.ffmpeg_args@),
            total: self.total_duration,
            phase: self.phase,
        }
    }
}

fn push_text(list: &mut Vec<String>, text: &str)
    ensures
        texts(final(list)@) == texts(old(list)@).push(text@),
{
    list.push(String::from_str(text));
    assert(texts(list@) =~= texts(old(list)@).push(text@));
}

impl Task {
    /// A job that is not yet announced. `total_duration` is the length of its input,
    /// asked of the transcoder beforehand.
    pub fn new(id: usize, input: String, output: String, args: Args, total_duration: u64) -> (task:
        Self)
        ensures
            task@ == (JobModel {
                id,
                input: input@,
                output: output@,
                no_audio: args.no_audio,
                no_video: args.no_video,
                extra: texts(args.ffmpeg_args@),
                total: total_duration,
                phase: Phase::Created,
            }),
    {
        Self { id, input, output, args, total_duration, phase: Phase::Created }
    }

    pub fn id(&self) -> (id: usize)
        ensures
            id == self@.id,
    {
        self.id
    }

    pub fn phase(&self) -> (phase: Phase)
        ensures
            phase == self@.phase,
    {
        self.phase
    }

    /// The arguments with which the transcoder is run for this job.
    pub fn command(&self) -> (command: Vec<String>)
        ensures
            texts(command@) == command_of(self@),
    {
        let mut command: Vec<String> = Vec::new();
        assert(texts(command@) =~= Seq::<Seq<char>>::empty());
        push_text(&mut command, "-y");
        push_text(&mut command, "-i");
        push_text(&mut command, self.input.as_str());
        if self.args.no_audio {
            push_text(&mut command, "-an");
        } else {
            push_text(&mut command, "-c:a");
            push_text(&mut command, "copy");
        }
        if self.args.no_video {
            push_text(&mut command, "-vn");
        } else {
            push_text(&mut command, "-c:v");
            push_text(&mut command, "libx264");
            push_text(&mut command, "-crf");
            push_text(&mut command, "18");
            push_text(&mut command, "-preset");
            push_text(&mut command, "ultrafast");
        }
        push_text(&mut command, "-movflags");
        push_text(&mut command, "+frag_keyframe+empty_moov");
        push_text(&mut command, "-f");
        push_text(&mut command, "mp4");
        let ghost head = texts(command@);
        let mut i: usize = 0;
        while i < self.args.ffmpeg_args.len()
            invariant
                i <= self.args.ffmpeg_args@.len(),
                texts(command@) == head + texts(self.args.ffmpeg_args@).take(i as int),
            decreases self.args.ffmpeg_args.len() - i,
        {
            push_text(&mut command, self.args.ffmpeg_args[i].as_str());
            assert(texts(command@) =~= head + texts(self.args.ffmpeg_args@).take(i + 1));
            i += 1;
        }
        assert(texts(self.args.ffmpeg_args@).take(i as int) =~= texts(self.args.ffmpeg_args@));
        push_text(&mut command, self.output.as_str());
        assert(texts(command@) =~= command_of(self@));
        command
    }

    /// Takes the job one step on: records what the event does to its phase and says
    /// what is to be done.
    pub fn step(&mut self, event: TaskEvent) -> (action: TaskAction)
        ensures
            final(self)@ == (JobModel { phase: next_phase(old(self)@.phase, event@), ..old(self)@ }),
            action@ == action_of(old(self)@, event@),
            action.reported_id() matches Some(id) ==> id == old(self)@.id,
    {
        match (self.phase, event) {
            (Phase::Created, TaskEvent::Begin) => {
                self.phase = Phase::Queued;
                TaskAction::Enqueue {
                    report: UiMessage::new(
                        self.id,
                        UiMessagePayload::Created {
                            input: self.input.clone(),
                            output: self.output.clone(),
                            total: self.total_duration,
                        },
                    ),
                }
            },
            (Phase::Queued, TaskEvent::Admitted) => {
                self.phase = Phase::Active;
                TaskAction::Launch {
                    report: UiMessage::new(self.id, UiMessagePayload::Started),
                    command: self.command(),
                }
            },
            (Phase::Queued, TaskEvent::Shut) => {
                self.phase = Phase::Abandoned;
                TaskAction::Abandon
            },
            (Phase::Active, TaskEvent::Sample { current }) => TaskAction::Relay {
                report: UiMessage::new(
                    self.id,
                    UiMessagePayload::Progress { total: self.total_duration, current },
                ),
            },
            (Phase::Active, TaskEvent::Exited { exit }) => {
                self.phase = if exit.succeeded() {
                    Phase::Succeeded
                } else {
                    Phase::Failed
                };
                TaskAction::Conclude {
                    report: UiMessage::new(self.id, UiMessagePayload::Finished { exit }),
                }
            },
            (Phase::Active, TaskEvent::Crashed { error }) => {
                self.phase = Phase::Failed;
                TaskAction::Conclude {
                    report: UiMessage::new(self.id, UiMessagePayload::Failed { error }),
                }
            },
            _ => TaskAction::Ignore,
        }
    }
}

/// The report that an action sends, where it sends one.
pub open spec fn report_of(action: ActionModel) -> Option<PayloadModel> {
    match action {
        ActionModel::Enqueue { report } => Some(report),
        ActionModel::Launch { report, .. } => Some(report),
        ActionModel::Relay { report } => Some(report),
        ActionModel::Conclude { report } => Some(report),
        _ => None,
    }
}

/// The job after a run of events.
pub open spec fn job_after(job: JobModel, events: Seq<EventModel>) -> JobModel
    decreases events.len(),
{
    if events.len() == 0 {
        job
    } else {
        let before = job_after(job, events.drop_last());
        JobModel { phase: next_phase(before.phase, events.last()), ..before }
    }
}

/// All that a job reports over a run of events, in the order in which it is sent.
pub open spec fn reports_of(job: JobModel, events: Seq<EventModel>) -> Seq<PayloadModel>
    decreases events.len(),
{
    if events.len() == 0 {
        Seq::empty()
    } else {
        let before = job_after(job, events.drop_last());
        let sent = reports_of(job, events.drop_last());
        match report_of(action_of(before, events.last())) {
            Some(report) => sent.push(report),
            None => sent,
        }
    }
}

/// How many of the reports are final.
pub open spec fn finals_in(reports: Seq<PayloadModel>) -> nat
    decreases reports.len(),
{
    if reports.len() == 0 {
        0
    } else {
        finals_in(reports.drop_last()) + if is_final(reports.last()) {
            1nat
        } else {
            0nat
        }
    }
}

/// The report says that the transcoder ended and judged its run a success.
pub open spec fn reported_success(report: PayloadModel) -> bool {
    match report {
        PayloadModel::Finished { exit } => exit.succeeded_spec(),
        _ => false,
    }
}

/// What has been reported of a job that stands in a given phase.
pub open spec fn fits(phase: Phase, reports: Seq<PayloadModel>) -> bool {
    match phase {
        Phase::Created => reports.len() == 0,
        Phase::Queued | Phase::Abandoned => reports.len() == 1 && reports[0] is Created,
        Phase::Active => {
            &&& reports.len() >= 2
            &&& in_order(reports)
            &&& reports.len() >= 3 ==> reports.last() is Progress
        },
        Phase::Succeeded => complete(reports) && reported_success(reports.last()),
        Phase::Failed => complete(reports) && !reported_success(reports.last()),
    }
}

/// Whatever happens to a job, and in whatever order, what it reports is the beginning
/// of one life: `Created`, `Started`, `Progress` any number of times, then `Finished`
/// or `Failed`. `Created` is always first, no report follows a final one, and so no
/// job reports two final ones. A job that has ended has reported its whole life.
pub proof fn lemma_reports_in_order(job: JobModel, events: Seq<EventModel>)
    requires
        job.phase == Phase::Created,
    ensures
        fits(job_after(job, events).phase, reports_of(job, events)),
        in_order(reports_of(job, events)),
        finals_in(reports_of(job, events)) <= 1,
        finals_in(reports_of(job, events)) == 1 <==> job_after(job, events).phase
            == Phase::Succeeded || job_after(job, events).phase == Phase::Failed,
    decreases events.len(),
{
    if events.len() > 0 {
        let earlier = events.drop_last();
        lemma_reports_in_order(job, earlier);
        let sent = reports_of(job, earlier);
        let all = reports_of(job, events);
        if all.len() > sent.len() {
            assert(all.drop_last() =~= sent);
            assert(forall|i: int| 0 <= i < sent.len() ==> all[i] == sent[i]);
        }
    }
}

} // verus!
