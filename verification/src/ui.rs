//! The aggregator: lifecycle events of all jobs are folded, one at a time, into a table
//! of job states, from which snapshots are drawn.

use crate::clock::{instant_now, read_clock};
use crate::human::{line_of, rendering_of};
use crate::snapshot::{
    gap, info_models, infos_of, lemma_counts_add_up, snapshot_of, Row, RowModel, TaskInfo,
};
use crate::OutputFormat;
use std::time::Instant;
use vstd::prelude::*;

verus! {

/// How the transcoder process ended, as far as it is known.
#[derive(Debug, Clone, Copy, PartialEq, Eq)]
pub struct ExitCode {
    /// The backend's own judgement of its exit code.
    pub success: bool,
}

/// What a finished backend run reports. The exit code is missing when the process was
/// ended from outside.
#[derive(Debug, Clone, Copy, PartialEq, Eq)]
pub struct CommandExit {
    pub exit_code: Option<ExitCode>,
}

impl CommandExit {
    /// A run counts as a success only with an exit code that the backend judges one.
    pub open spec fn succeeded_spec(self) -> bool {
        match self.exit_code {
            Some(code) => code.success,
            None => false,
        }
    }

    #[verifier::when_used_as_spec(succeeded_spec)]
    pub fn succeeded(self) -> (ok: bool)
        ensures
            ok == self.succeeded_spec(),
    {
        match self.exit_code {
            Some(code) => code.success,
            None => false,
        }
    }
}

/// One step in the life of a job. Times are nanoseconds of media.
#[derive(Debug, Clone)]
pub enum UiMessagePayload {
    Created { input: String, output: String, total: u64 },
    Started,
    Finished { exit: CommandExit },
    Failed { error: String },
    Progress { total: u64, current: u64 },
}

/// The mathematical content of a [`UiMessagePayload`].
pub enum PayloadModel {
    Created { input: Seq<char>, output: Seq<char>, total: u64 },
    Started,
    Finished { exit: CommandExit },
    Failed { error: Seq<char> },
    Progress { total: u64, current: u64 },
}

impl View for UiMessagePayload {
    type V = PayloadModel;

    open spec fn view(&self) -> PayloadModel {
        match *self {
            UiMessagePayload::Created { input, output, total } => PayloadModel::Created {
                input: input@,
                output: output@,
                total,
            },
            UiMessagePayload::Started => PayloadModel::Started,
            UiMessagePayload::Finished { exit } => PayloadModel::Finished { exit },
            UiMessagePayload::Failed { error } => PayloadModel::Failed { error: error@ },
            UiMessagePayload::Progress { total, current } => PayloadModel::Progress {
                total,
                current,
            },
        }
    }
}

/// A lifecycle event together with the job it is about.
#[derive(Debug, Clone)]
pub struct UiMessage {
    /// Assigned when the job is enqueued, before its `Created` event; never reused.
    pub task_id: usize,
    pub payload: UiMessagePayload,
}

impl UiMessage {
    pub fn new(task_id: usize, payload: UiMessagePayload) -> (message: Self)
        ensures
            message.task_id == task_id,
            message.payload == payload,
    {
        Self { task_id, payload }
    }
}

/// The mathematical content of a [`UiTask`].
pub struct TaskModel {
    pub id: usize,
    pub input: Seq<char>,
    pub output: Seq<char>,
    pub active: bool,
    pub started_at: Option<u64>,
    pub exited_at: Option<u64>,
    pub success: Option<bool>,
    pub error_description: Option<Seq<char>>,
    pub total: u64,
    pub current: u64,
}

/// The view of an optional text.
pub open spec fn text_of(text: Option<String>) -> Option<Seq<char>> {
    match text {
        Some(s) => Some(s@),
        None => None,
    }
}

/// What the aggregator knows of one job. Points in time are nanoseconds on the
/// aggregator's clock.
#[derive(Debug)]
pub struct UiTask {
    pub id: usize,
    pub input: String,
    pub output: String,
    pub active: bool,
    pub started_at: Option<u64>,
    pub exited_at: Option<u64>,
    pub success: Option<bool>,
    pub error_description: Option<String>,
    pub total: u64,
    pub current: u64,
}

impl View for UiTask {
    type V = TaskModel;

    open spec fn view(&self) -> TaskModel {
        TaskModel {
            id: self.id,
            input: self.input@,
            output: self.output@,
            active: self.active,
            started_at: self.started_at,
            exited_at: self.exited_at,
            success: self.success,
            error_description: text_of(self.error_description),
            total: self.total,
            current: self.current,
        }
    }
}

/// The state of a job that was announced and has not started.
pub open spec fn fresh_task(id: usize, input: Seq<char>, output: Seq<char>, total: u64) -> TaskModel {
    TaskModel {
        id,
        input,
        output,
        active: false,
        started_at: None,
        exited_at: None,
        success: None,
        error_description: None,
        total,
        current: 0,
    }
}

impl UiTask {
    pub fn new(id: usize, input: String, output: String, total: u64) -> (task: Self)
        ensures
            task@ == fresh_task(id, input@, output@, total),
    {
        Self {
            id,
            input,
            output,
            active: false,
            started_at: None,
            exited_at: None,
            success: None,
            error_description: None,
            total,
            current: 0,
        }
    }
}

/// What one event does to the state of a job that is already known.
pub open spec fn reduce_task(task: TaskModel, payload: PayloadModel, now: u64) -> TaskModel {
    match payload {
        PayloadModel::Created { .. } => task,
        PayloadModel::Started => TaskModel { active: true, started_at: Some(now), ..task },
        PayloadModel::Finished { exit } => TaskModel {
            active: false,
            exited_at: Some(now),
            success: Some(exit.succeeded_spec()),
            ..task
        },
        PayloadModel::Failed { error } => TaskModel {
            active: false,
            exited_at: Some(now),
            success: Some(false),
            error_description: Some(error),
            ..task
        },
        PayloadModel::Progress { total, current } => TaskModel { total, current, ..task },
    }
}

/// The table with empty slots added at its end until `id` is an index of it.
pub open spec fn padded(table: Seq<Option<TaskModel>>, id: usize) -> Seq<Option<TaskModel>> {
    if id < table.len() {
        table
    } else {
        table + Seq::new((id + 1 - table.len()) as nat, |i: int| None::<TaskModel>)
    }
}

/// Whether the table holds a job with this id.
pub open spec fn knows(table: Seq<Option<TaskModel>>, id: usize) -> bool {
    id < table.len() && table[id as int] is Some
}

/// An event breaks the protocol when it is about a job that was never announced and
/// does not announce it.
pub open spec fn breaks_protocol(
    table: Seq<Option<TaskModel>>,
    id: usize,
    payload: PayloadModel,
) -> bool {
    !knows(table, id) && !(payload is Created)
}

/// The table after one event. An event that breaks the protocol leaves no job changed.
pub open spec fn reduce(
    table: Seq<Option<TaskModel>>,
    id: usize,
    payload: PayloadModel,
    now: u64,
) -> Seq<Option<TaskModel>> {
    let wide = padded(table, id);
    match wide[id as int] {
        Some(task) => wide.update(id as int, Some(reduce_task(task, payload, now))),
        None => match payload {
            PayloadModel::Created { input, output, total } => wide.update(
                id as int,
                Some(fresh_task(id, input, output, total)),
            ),
            _ => wide,
        },
    }
}

/// Every job stands in the slot of its id.
pub open spec fn indexed(table: Seq<Option<TaskModel>>) -> bool {
    forall|i: int|
        0 <= i < table.len() ==> (#[trigger] table[i] matches Some(task) ==> task.id == i)
}

/// Of every job the outcome is known exactly when the job has ended.
pub open spec fn settled(table: Seq<Option<TaskModel>>) -> bool {
    forall|i: int|
        0 <= i < table.len() ==> (#[trigger] table[i] matches Some(task) ==> (task.exited_at is Some
            <==> task.success is Some))
}

/// No job is active and ended at once.
pub open spec fn unmixed(table: Seq<Option<TaskModel>>) -> bool {
    forall|i: int|
        0 <= i < table.len() ==> (#[trigger] table[i] matches Some(task) ==> !(task.active
            && task.exited_at is Some))
}

/// The event starts a job that has already ended.
pub open spec fn restarts(table: Seq<Option<TaskModel>>, id: usize, payload: PayloadModel) -> bool {
    payload is Started && knows(table, id) && table[id as int]->0.exited_at is Some
}

/// An event keeps every job in its slot, and keeps outcomes known exactly of the jobs
/// that have ended. Unless it starts a job that has ended, it also keeps every job
/// from being active and ended at once.
pub proof fn lemma_reduce_keeps_order(
    table: Seq<Option<TaskModel>>,
    id: usize,
    payload: PayloadModel,
    now: u64,
)
    ensures
        indexed(table) ==> indexed(reduce(table, id, payload, now)),
        settled(table) ==> settled(reduce(table, id, payload, now)),
        unmixed(table) && !restarts(table, id, payload) ==> unmixed(
            reduce(table, id, payload, now),
        ),
{
    let wide = padded(table, id);
    let after = reduce(table, id, payload, now);
    assert(forall|i: int| 0 <= i < table.len() ==> wide[i] == table[i]);
    assert(forall|i: int| table.len() <= i < wide.len() ==> wide[i] is None);
    assert(forall|i: int| 0 <= i < after.len() && i != id ==> after[i] == wide[i]);
    if indexed(table) {
        assert forall|i: int| 0 <= i < after.len() implies (#[trigger] after[i] matches Some(task)
            ==> task.id == i) by {
            if i != id && i < table.len() {
                assert(table[i] == after[i]);
            }
        }
    }
    if settled(table) {
        assert forall|i: int| 0 <= i < after.len() implies (#[trigger] after[i] matches Some(task)
            ==> (task.exited_at is Some <==> task.success is Some)) by {
            if i < table.len() {
                assert(table[i] == wide[i]);
            }
        }
    }
    if unmixed(table) && !restarts(table, id, payload) {
        assert forall|i: int| 0 <= i < after.len() implies (#[trigger] after[i] matches Some(task)
            ==> !(task.active && task.exited_at is Some)) by {
            if i < table.len() {
                assert(table[i] == wide[i]);
            }
        }
    }
}

/// Why the aggregator gave up.
#[derive(Debug)]
pub enum UiError {
    /// An event other than `Created` named a job that the aggregator has never seen.
    UnknownTask { task_id: usize, payload: UiMessagePayload },
}

/// The view of one slot of the table.
pub open spec fn slot_model(slot: Option<UiTask>) -> Option<TaskModel> {
    match slot {
        Some(task) => Some(task@),
        None => None,
    }
}

/// The table of all jobs, indexed by job id, and the clock by which events are timed.
pub struct UiState {
    tasks: Vec<Option<UiTask>>,
    origin: Instant,
}

impl View for UiState {
    type V = Seq<Option<TaskModel>>;

    closed spec fn view(&self) -> Seq<Option<TaskModel>> {
        Seq::new(self.tasks@.len(), |i: int| slot_model(self.tasks@[i]))
    }
}

impl UiState {
    pub fn new() -> (state: Self)
        ensures
            state@ == Seq::<Option<TaskModel>>::empty(),
            indexed(state@) && settled(state@) && unmixed(state@),
    {
        let state = Self { tasks: Vec::with_capacity(256), origin: instant_now() };
        assert(state@ =~= Seq::<Option<TaskModel>>::empty());
        state
    }

    /// The slot of a job, after the table has grown to hold it.
    fn get(&mut self, task_id: usize) -> (slot: &mut Option<UiTask>)
        requires
            task_id < usize::MAX,
        ensures
            slot_model(*slot) == padded(old(self)@, task_id)[task_id as int],
            final(self)@ == padded(old(self)@, task_id).update(
                task_id as int,
                slot_model(*final(slot)),
            ),
    {
        while self.tasks.len() < task_id + 1
            invariant
                task_id < usize::MAX,
                self.tasks@.len() >= old(self).tasks@.len(),
                self.tasks@.len() == old(self).tasks@.len() || self.tasks@.len() <= task_id + 1,
                forall|i: int| 0 <= i < old(self).tasks@.len() ==> self.tasks@[i] == old(self).tasks@[i],
                forall|i: int| old(self).tasks@.len() <= i < self.tasks@.len() ==> self.tasks@[i] is None,
            decreases task_id + 1 - self.tasks.len(),
        {
            self.tasks.push(None);
        }
        assert(self@ =~= padded(old(self)@, task_id));
        &mut self.tasks[task_id]
    }

    /// Folds one event into the table, with `now` as the time at which it is seen.
    ///
    /// An event for a job that was never announced is refused, unless it announces the
    /// job. Announcing a job again changes nothing.
    pub fn apply(&mut self, delivery: UiMessage, now: u64) -> (outcome: Result<(), UiError>)
        requires
            delivery.task_id < usize::MAX,
        ensures
            final(self)@ == reduce(old(self)@, delivery.task_id, delivery.payload@, now),
            outcome is Err <==> breaks_protocol(old(self)@, delivery.task_id, delivery.payload@),
            outcome matches Err(UiError::UnknownTask { task_id, payload }) ==> task_id
                == delivery.task_id && payload == delivery.payload,
            indexed(old(self)@) ==> indexed(final(self)@),
            settled(old(self)@) ==> settled(final(self)@),
            unmixed(old(self)@) && !restarts(old(self)@, delivery.task_id, delivery.payload@)
                ==> unmixed(final(self)@),
    {
        proof {
            lemma_reduce_keeps_order(self@, delivery.task_id, delivery.payload@, now);
        }
        let UiMessage { task_id, payload } = delivery;
        let slot = self.get(task_id);
        match slot {
            None => match payload {
                UiMessagePayload::Created { input, output, total } => {
                    *slot = Some(UiTask::new(task_id, input, output, total));
                    Ok(())
                },
                other => Err(UiError::UnknownTask { task_id, payload: other }),
            },
            Some(task) => {
                match payload {
                    UiMessagePayload::Created { .. } => {},
                    UiMessagePayload::Started => {
                        task.active = true;
                        task.started_at = Some(now);
                    },
                    UiMessagePayload::Finished { exit } => {
                        task.active = false;
                        task.exited_at = Some(now);
                        task.success = Some(exit.succeeded());
                    },
                    UiMessagePayload::Failed { error } => {
                        task.active = false;
                        task.exited_at = Some(now);
                        task.success = Some(false);
                        task.error_description = Some(error);
                    },
                    UiMessagePayload::Progress { total, current } => {
                        task.current = current;
                        task.total = total;
                    },
                }
                Ok(())
            },
        }
    }

    /// The snapshot of all jobs at the time `now`.
    ///
    /// Where the outcome is known exactly of the jobs that have ended, as it is of
    /// every table that events alone have filled, the completed jobs are the successful
    /// and the failed ones together. Where no job is active and ended at once, the
    /// active and the completed jobs are together no more than all jobs.
    pub fn snapshot(&self, now: u64) -> (row: Row)
        ensures
            row@ == snapshot_of(self@, now),
            settled(self@) ==> row.completed_tasks == row.successful_tasks + row.failed_tasks,
            unmixed(self@) ==> row.active_tasks + row.completed_tasks <= row.total_tasks,
    {
        proof {
            lemma_counts_add_up(self@, now);
        }
        let mut infos: Vec<TaskInfo> = Vec::new();
        let mut i: usize = 0;
        while i < self.tasks.len()
            invariant
                i <= self.tasks.len(),
                info_models(infos@) == infos_of(self@.take(i as int), now),
            decreases self.tasks.len() - i,
        {
            proof {
                assert(self@.take(i + 1).drop_last() =~= self@.take(i as int));
                assert(self@.take(i + 1).last() == slot_model(self.tasks@[i as int]));
            }
            match &self.tasks[i] {
                Some(task) => {
                    let info = task.info(now);
                    let ghost before = infos@;
                    infos.push(info);
                    assert(info_models(infos@) =~= info_models(before).push(info@));
                },
                None => {},
            }
            i += 1;
        }
        assert(self@.take(i as int) =~= self@);
        Row::new(infos)
    }
}

/// One rendering of all jobs: the snapshot, and for people the status line made of it.
#[derive(Debug)]
pub struct Frame {
    pub row: Row,
    /// The status line; only the format for people has one.
    pub line: Option<String>,
}

/// Whether a frame shows a given snapshot in a given format.
pub open spec fn frame_of(frame: Frame, row: RowModel, format: OutputFormat) -> bool {
    &&& frame.row@ == row
    &&& frame.line is Some <==> format == OutputFormat::Human
    &&& frame.line matches Some(line) ==> exists|labels: Seq<Seq<char>>|
        rendering_of(line@, #[trigger] line_of(row, labels))
}

impl UiState {
    /// The time on the aggregator's clock, in nanoseconds since the table was made.
    fn now(&self) -> (now: u64) {
        read_clock(&self.origin)
    }

    /// Folds one event into the table, timed by the aggregator's clock.
    ///
    /// The table afterwards is what [`UiState::apply`] makes of the event at the
    /// moment the clock was read.
    pub fn update(&mut self, delivery: UiMessage) -> (outcome: Result<(), UiError>)
        requires
            delivery.task_id < usize::MAX,
        ensures
            exists|now: u64|
                final(self)@ == #[trigger] reduce(
                    old(self)@,
                    delivery.task_id,
                    delivery.payload@,
                    now,
                ),
            outcome is Err <==> breaks_protocol(old(self)@, delivery.task_id, delivery.payload@),
            outcome matches Err(UiError::UnknownTask { task_id, payload }) ==> task_id
                == delivery.task_id && payload == delivery.payload,
            indexed(old(self)@) ==> indexed(final(self)@),
            settled(old(self)@) ==> settled(final(self)@),
            unmixed(old(self)@) && !restarts(old(self)@, delivery.task_id, delivery.payload@)
                ==> unmixed(final(self)@),
    {
        let now = self.now();
        self.apply(delivery, now)
    }

    /// Renders all jobs as they are at the time `now`.
    pub fn draw_at(&self, format: OutputFormat, now: u64) -> (frame: Frame)
        ensures
            frame_of(frame, snapshot_of(self@, now), format),
    {
        let row = self.snapshot(now);
        let line = match format {
            OutputFormat::Human => Some(row.to_string_human()),
            _ => None,
        };
        Frame { row, line }
    }

    /// Renders all jobs as they are now, by the aggregator's clock.
    pub fn draw(&self, format: OutputFormat) -> (frame: Frame)
        ensures
            exists|now: u64| frame_of(frame, #[trigger] snapshot_of(self@, now), format),
    {
        let now = self.now();
        self.draw_at(format, now)
    }
}

/// The shortest time between two drawings of the status line for people.
pub const DRAW_INTERVAL_NANOS: u64 = 100_000_000;

/// How long the aggregator waits for an event before it goes on without one: a
/// twelfth of a second.
pub const RECEIVE_TIMEOUT_NANOS: u64 = 83_333_333;

/// What the aggregator's wait for an event ended with.
#[derive(Debug)]
pub enum UiEvent {
    /// An event of a job arrived.
    Delivery { message: UiMessage },
    /// The wait timed out.
    Quiet,
    /// No job can send any more.
    Closed,
    /// The aggregator was told to end.
    Cancelled,
}

/// What the aggregator is to do after a wait.
#[derive(Debug)]
pub enum UiAction {
    /// End, in good order.
    Stop,
    /// Wait again, without drawing.
    Rest,
    /// Write the frame out, then wait again.
    Draw { frame: Frame },
    /// End with an error.
    Abort { error: UiError },
}

/// Whether it is time to draw: always, but for people only once the shortest time
/// between two drawings has passed.
pub open spec fn due(format: OutputFormat, last_draw: u64, now: u64) -> bool {
    format != OutputFormat::Human || gap(now, last_draw) >= DRAW_INTERVAL_NANOS
}

/// The aggregator between two waits: the table, the format, and when it last drew.
pub struct UiLoop {
    state: UiState,
    format: OutputFormat,
    last_draw: u64,
}

/// The mathematical content of a [`UiLoop`].
pub struct LoopModel {
    pub table: Seq<Option<TaskModel>>,
    pub format: OutputFormat,
    pub last_draw: u64,
}

impl View for UiLoop {
    type V = LoopModel;

    closed spec fn view(&self) -> LoopModel {
        LoopModel { table: self.state@, format: self.format, last_draw: self.last_draw }
    }
}

/// The drawing at the end of a round: a frame of the table at `now` where one is due,
/// and a rest otherwise.
pub open spec fn drawn(before: LoopModel, after: LoopModel, now: u64, action: UiAction) -> bool {
    if due(before.format, before.last_draw, now) {
        &&& action matches UiAction::Draw { frame }
        &&& frame_of(frame, snapshot_of(after.table, now), before.format)
        &&& after.last_draw == now
    } else {
        &&& action is Rest
        &&& after.last_draw == before.last_draw
    }
}

/// One round of the aggregator at the time `now`: a delivered event is folded into
/// the table, and a frame is drawn where one is due. An event that breaks the protocol
/// ends the aggregator with an error; the end of all senders, or the order to end,
/// ends it in good order.
pub open spec fn round(
    before: LoopModel,
    event: UiEvent,
    now: u64,
    action: UiAction,
    after: LoopModel,
) -> bool {
    &&& after.format == before.format
    &&& match event {
        UiEvent::Closed | UiEvent::Cancelled => action is Stop && after == before,
        UiEvent::Quiet => after.table == before.table && drawn(before, after, now, action),
        UiEvent::Delivery { message } => {
            &&& after.table == reduce(before.table, message.task_id, message.payload@, now)
            &&& if breaks_protocol(before.table, message.task_id, message.payload@) {
                &&& action matches UiAction::Abort { error: UiError::UnknownTask { task_id, payload } }
                &&& task_id == message.task_id
                &&& payload == message.payload
                &&& after.last_draw == before.last_draw
            } else {
                drawn(before, after, now, action)
            }
        },
    }
}

/// The status line for people is drawn no sooner than the shortest time after it was
/// last drawn, and every drawing is noted as the last; a round without a drawing
/// leaves the time of the last drawing as it was.
pub proof fn lemma_drawings_are_spaced(
    before: LoopModel,
    after: LoopModel,
    now: u64,
    action: UiAction,
)
    requires
        before.format == OutputFormat::Human,
        drawn(before, after, now, action),
    ensures
        action is Draw ==> gap(now, before.last_draw) >= DRAW_INTERVAL_NANOS && after.last_draw
            == now,
        !(action is Draw) ==> after.last_draw == before.last_draw,
{
}

impl UiLoop {
    /// An aggregator that knows no job and writes in the given format.
    pub fn new(format: OutputFormat) -> (this: Self)
        ensures
            this@.table == Seq::<Option<TaskModel>>::empty(),
            this@.format == format,
    {
        let state = UiState::new();
        let last_draw = state.now();
        Self { state, format, last_draw }
    }

    /// The table of all jobs.
    pub fn state(&self) -> (state: &UiState)
        ensures
            state@ == self@.table,
    {
        &self.state
    }

    fn draw_if_due(&mut self, now: u64) -> (action: UiAction)
        ensures
            final(self)@.table == old(self)@.table,
            final(self)@.format == old(self)@.format,
            drawn(old(self)@, final(self)@, now, action),
    {
        let due = match self.format {
            OutputFormat::Human => {
                let since = if now >= self.last_draw {
                    now - self.last_draw
                } else {
                    0
                };
                since >= DRAW_INTERVAL_NANOS
            },
            _ => true,
        };
        if due {
            let frame = self.state.draw_at(self.format, now);
            self.last_draw = now;
            UiAction::Draw { frame }
        } else {
            UiAction::Rest
        }
    }

    /// Does one round at the time `now`.
    pub fn step_at(&mut self, event: UiEvent, now: u64) -> (action: UiAction)
        requires
            event matches UiEvent::Delivery { message } ==> message.task_id < usize::MAX,
        ensures
            round(old(self)@, event, now, action, final(self)@),
    {
        match event {
            UiEvent::Closed => UiAction::Stop,
            UiEvent::Cancelled => UiAction::Stop,
            UiEvent::Quiet => self.draw_if_due(now),
            UiEvent::Delivery { message } => {
                match self.state.apply(message, now) {
                    Ok(()) => self.draw_if_due(now),
                    Err(error) => UiAction::Abort { error },
                }
            },
        }
    }

    /// Does one round, timed by the aggregator's clock.
    pub fn step(&mut self, event: UiEvent) -> (action: UiAction)
        requires
            event matches UiEvent::Delivery { message } ==> message.task_id < usize::MAX,
        ensures
            exists|now: u64| #[trigger] round(old(self)@, event, now, action, final(self)@),
    {
        let now = self.state.now();
        self.step_at(event, now)
    }
}

} // verus!
