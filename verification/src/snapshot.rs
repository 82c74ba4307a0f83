//! What a rendering shows: every job with its times and its share as text, and how
//! many jobs there are of each kind.

use crate::progress::{
    eta_secs, eta_secs_of, lemma_eta_only_when_reliable, percent_tenths, percent_tenths_of,
    remaining_nanos_of, ETA_LIMIT_NANOS, NANOS_PER_SEC,
};
use crate::text::{
    age_text, format_age, format_min_sec, format_percent, format_seconds, min_sec_text,
    percent_text, seconds_text,
};
use crate::ui::{indexed, settled, text_of, unmixed, TaskModel, UiTask};
use vstd::prelude::*;

verus! {

/// What a rendering shows of one job.
#[derive(Debug)]
pub struct TaskInfo {
    pub id: usize,
    pub input: String,
    pub output: String,
    pub active: bool,
    /// How long ago the job started, once it has.
    pub started_at: Option<String>,
    /// The time since the job started, once it has.
    pub elapsed: Option<String>,
    /// The estimate of the time the job still needs, where one can be given.
    pub eta: Option<String>,
    /// How long ago the job ended, once it has.
    pub exited_at: Option<String>,
    pub success: Option<bool>,
    pub error_description: Option<String>,
    pub total: String,
    pub current: String,
    /// The completed share, as text.
    pub percent: String,
    /// The completed share in tenths of a percent, from 0 to 1000.
    pub percent_tenths: u64,
}

/// The mathematical content of a [`TaskInfo`].
pub struct InfoModel {
    pub id: usize,
    pub input: Seq<char>,
    pub output: Seq<char>,
    pub active: bool,
    pub started_at: Option<Seq<char>>,
    pub elapsed: Option<Seq<char>>,
    pub eta: Option<Seq<char>>,
    pub exited_at: Option<Seq<char>>,
    pub success: Option<bool>,
    pub error_description: Option<Seq<char>>,
    pub total: Seq<char>,
    pub current: Seq<char>,
    pub percent: Seq<char>,
    pub percent_tenths: u64,
}

impl View for TaskInfo {
    type V = InfoModel;

    open spec fn view(&self) -> InfoModel {
        InfoModel {
            id: self.id,
            input: self.input@,
            output: self.output@,
            active: self.active,
            started_at: text_of(self.started_at),
            elapsed: text_of(self.elapsed),
            eta: text_of(self.eta),
            exited_at: text_of(self.exited_at),
            success: self.success,
            error_description: text_of(self.error_description),
            total: self.total@,
            current: self.current@,
            percent: self.percent@,
            percent_tenths: self.percent_tenths,
        }
    }
}

/// The time from `then` to `now`; zero where `then` is the later one.
pub open spec fn gap(now: u64, then: u64) -> nat {
    if now >= then {
        (now - then) as nat
    } else {
        0
    }
}

/// How long ago a point in time was, as text, where there is such a point.
pub open spec fn age_of(now: u64, then: Option<u64>) -> Option<Seq<char>> {
    match then {
        Some(then) => Some(age_text(gap(now, then))),
        None => None,
    }
}

/// The time since the job started, as text, once it has started.
pub open spec fn elapsed_of(task: TaskModel, now: u64) -> Option<Seq<char>> {
    match task.started_at {
        Some(start) => Some(min_sec_text(gap(now, start) / NANOS_PER_SEC as nat)),
        None => None,
    }
}

/// The estimate of remaining time, as text: only for a job that has started, and only
/// where the estimate is to be shown.
pub open spec fn eta_of(task: TaskModel, now: u64) -> Option<Seq<char>> {
    match task.started_at {
        Some(start) => match eta_secs_of(gap(now, start), task.current as nat, task.total as nat) {
            Some(secs) => Some(min_sec_text(secs)),
            None => None,
        },
        None => None,
    }
}

/// What is shown of a job at the time `now`.
pub open spec fn info_of(task: TaskModel, now: u64) -> InfoModel {
    InfoModel {
        id: task.id,
        input: task.input,
        output: task.output,
        active: task.active,
        started_at: age_of(now, task.started_at),
        elapsed: elapsed_of(task, now),
        eta: eta_of(task, now),
        exited_at: age_of(now, task.exited_at),
        success: task.success,
        error_description: task.error_description,
        total: seconds_text(task.total as nat),
        current: seconds_text(task.current as nat),
        percent: percent_text(percent_tenths_of(task.current as nat, task.total as nat)),
        percent_tenths: percent_tenths_of(task.current as nat, task.total as nat) as u64,
    }
}

/// What is shown of the jobs of a table, in the order of their ids.
pub open spec fn infos_of(table: Seq<Option<TaskModel>>, now: u64) -> Seq<InfoModel>
    decreases table.len(),
{
    if table.len() == 0 {
        Seq::empty()
    } else {
        let before = infos_of(table.drop_last(), now);
        match table.last() {
            Some(task) => before.push(info_of(task, now)),
            None => before,
        }
    }
}

/// How many of the jobs shown meet a condition.
pub open spec fn count_infos(infos: Seq<InfoModel>, wanted: spec_fn(InfoModel) -> bool) -> nat
    decreases infos.len(),
{
    if infos.len() == 0 {
        0
    } else {
        count_infos(infos.drop_last(), wanted) + if wanted(infos.last()) {
            1nat
        } else {
            0nat
        }
    }
}

/// The job runs.
pub open spec fn is_active(info: InfoModel) -> bool {
    info.active
}

/// The job has ended.
pub open spec fn is_completed(info: InfoModel) -> bool {
    info.exited_at is Some
}

/// The job has ended well.
pub open spec fn is_successful(info: InfoModel) -> bool {
    match info.success {
        Some(ok) => ok,
        None => false,
    }
}

/// The job has ended badly.
pub open spec fn is_failed(info: InfoModel) -> bool {
    match info.success {
        Some(ok) => !ok,
        None => false,
    }
}

/// The views of a list of job infos.
pub open spec fn info_models(infos: Seq<TaskInfo>) -> Seq<InfoModel> {
    Seq::new(infos.len(), |i: int| infos[i]@)
}

/// All jobs at one moment: how many there are of each kind, and each of them.
#[derive(Debug)]
pub struct Row {
    pub total_tasks: usize,
    pub active_tasks: usize,
    pub completed_tasks: usize,
    pub successful_tasks: usize,
    pub failed_tasks: usize,
    pub tasks: Vec<TaskInfo>,
}

/// The mathematical content of a [`Row`].
pub struct RowModel {
    pub total_tasks: nat,
    pub active_tasks: nat,
    pub completed_tasks: nat,
    pub successful_tasks: nat,
    pub failed_tasks: nat,
    pub tasks: Seq<InfoModel>,
}

impl View for Row {
    type V = RowModel;

    open spec fn view(&self) -> RowModel {
        RowModel {
            total_tasks: self.total_tasks as nat,
            active_tasks: self.active_tasks as nat,
            completed_tasks: self.completed_tasks as nat,
            successful_tasks: self.successful_tasks as nat,
            failed_tasks: self.failed_tasks as nat,
            tasks: info_models(self.tasks@),
        }
    }
}

/// The row that lists the given jobs.
pub open spec fn row_of(infos: Seq<InfoModel>) -> RowModel {
    RowModel {
        total_tasks: infos.len(),
        active_tasks: count_infos(infos, |info: InfoModel| is_active(info)),
        completed_tasks: count_infos(infos, |info: InfoModel| is_completed(info)),
        successful_tasks: count_infos(infos, |info: InfoModel| is_successful(info)),
        failed_tasks: count_infos(infos, |info: InfoModel| is_failed(info)),
        tasks: infos,
    }
}

/// The snapshot of a table at the time `now`.
pub open spec fn snapshot_of(table: Seq<Option<TaskModel>>, now: u64) -> RowModel {
    row_of(infos_of(table, now))
}

fn clone_text(text: &Option<String>) -> (copy: Option<String>)
    ensures
        text_of(copy) == text_of(*text),
{
    match text {
        Some(s) => Some(s.clone()),
        None => None,
    }
}

fn span(now: u64, then: u64) -> (nanos: u64)
    ensures
        nanos == gap(now, then),
{
    if now >= then {
        now - then
    } else {
        0
    }
}

fn format_age_of(now: u64, then: Option<u64>) -> (text: Option<String>)
    ensures
        text_of(text) == age_of(now, then),
{
    match then {
        Some(then) => Some(format_age(span(now, then))),
        None => None,
    }
}

impl UiTask {
    /// What is shown of this job at the time `now`.
    pub fn info(&self, now: u64) -> (info: TaskInfo)
        ensures
            info@ == info_of(self@, now),
    {
        let elapsed = match self.started_at {
            Some(start) => Some(format_min_sec(span(now, start) / NANOS_PER_SEC)),
            None => None,
        };
        let eta = match self.started_at {
            Some(start) => match eta_secs(span(now, start), self.current, self.total) {
                Some(secs) => Some(format_min_sec(secs)),
                None => None,
            },
            None => None,
        };
        let tenths = percent_tenths(self.current, self.total);
        TaskInfo {
            id: self.id,
            input: self.input.clone(),
            output: self.output.clone(),
            active: self.active,
            started_at: format_age_of(now, self.started_at),
            elapsed,
            eta,
            exited_at: format_age_of(now, self.exited_at),
            success: self.success,
            error_description: clone_text(&self.error_description),
            total: format_seconds(self.total),
            current: format_seconds(self.current),
            percent: format_percent(tenths),
            percent_tenths: tenths,
        }
    }
}

impl Row {
    /// Counts the jobs of each kind in a list of job infos.
    pub fn new(tasks: Vec<TaskInfo>) -> (row: Self)
        ensures
            row@ == row_of(info_models(tasks@)),
    {
        let mut active: usize = 0;
        let mut completed: usize = 0;
        let mut successful: usize = 0;
        let mut failed: usize = 0;
        let ghost infos = info_models(tasks@);
        let mut i: usize = 0;
        while i < tasks.len()
            invariant
                i <= tasks.len(),
                infos == info_models(tasks@),
                active <= i,
                completed <= i,
                successful <= i,
                failed <= i,
                active == count_infos(infos.take(i as int), |info: InfoModel| is_active(info)),
                completed == count_infos(infos.take(i as int), |info: InfoModel| is_completed(info)),
                successful == count_infos(
                    infos.take(i as int),
                    |info: InfoModel| is_successful(info),
                ),
                failed == count_infos(infos.take(i as int), |info: InfoModel| is_failed(info)),
            decreases tasks.len() - i,
        {
            proof {
                assert(infos.take(i + 1).drop_last() =~= infos.take(i as int));
                assert(infos.take(i + 1).last() == tasks@[i as int]@);
            }
            let task = &tasks[i];
            if task.active {
                active += 1;
            }
            if task.exited_at.is_some() {
                completed += 1;
            }
            match task.success {
                Some(true) => {
                    successful += 1;
                },
                Some(false) => {
                    failed += 1;
                },
                None => {},
            }
            i += 1;
        }
        assert(infos.take(i as int) =~= infos);
        Row {
            total_tasks: tasks.len(),
            active_tasks: active,
            completed_tasks: completed,
            successful_tasks: successful,
            failed_tasks: failed,
            tasks,
        }
    }
}

/// What is shown of a job never has a share above one hundred percent, and has an
/// estimate only if the job has started, at least one percent of it is done, and the
/// time it still needs, extrapolated from the time since its start, is at most one
/// hour.
pub proof fn lemma_info_is_reliable(task: TaskModel, now: u64)
    ensures
        info_of(task, now).percent_tenths <= 1000,
        info_of(task, now).eta is Some ==> {
            &&& task.started_at matches Some(start)
            &&& 100 * task.current >= task.total
            &&& remaining_nanos_of(gap(now, start), task.current as nat, task.total as nat)
                <= ETA_LIMIT_NANOS
        },
{
    if let Some(start) = task.started_at {
        lemma_eta_only_when_reliable(gap(now, start), task.current as nat, task.total as nat);
    }
}

/// Counting with one more job at the end.
proof fn lemma_count_push(infos: Seq<InfoModel>, info: InfoModel, wanted: spec_fn(InfoModel) -> bool)
    ensures
        count_infos(infos.push(info), wanted) == count_infos(infos, wanted) + if wanted(info) {
            1nat
        } else {
            0nat
        },
{
    assert(infos.push(info).drop_last() =~= infos);
}

/// The counts of a snapshot add up: where outcomes are known exactly of the jobs that
/// have ended, the completed jobs are the successful and the failed ones together;
/// where no job is active and ended at once, the active and the completed jobs are
/// together no more than all jobs.
pub proof fn lemma_counts_add_up(table: Seq<Option<TaskModel>>, now: u64)
    ensures
        snapshot_of(table, now).total_tasks <= table.len(),
        settled(table) ==> snapshot_of(table, now).completed_tasks == snapshot_of(
            table,
            now,
        ).successful_tasks + snapshot_of(table, now).failed_tasks,
        unmixed(table) ==> snapshot_of(table, now).active_tasks + snapshot_of(
            table,
            now,
        ).completed_tasks <= snapshot_of(table, now).total_tasks,
    decreases table.len(),
{
    if table.len() > 0 {
        let shorter = table.drop_last();
        lemma_counts_add_up(shorter, now);
        assert(forall|i: int| 0 <= i < shorter.len() ==> shorter[i] == table[i]);
        if settled(table) {
            assert forall|i: int| 0 <= i < shorter.len() implies (#[trigger] shorter[i] matches Some(
                task,
            ) ==> (task.exited_at is Some <==> task.success is Some)) by {
                assert(table[i] == shorter[i]);
            }
        }
        if unmixed(table) {
            assert forall|i: int| 0 <= i < shorter.len() implies (#[trigger] shorter[i] matches Some(
                task,
            ) ==> !(task.active && task.exited_at is Some)) by {
                assert(table[i] == shorter[i]);
            }
        }
        let before = infos_of(shorter, now);
        match table.last() {
            Some(task) => {
                let info = info_of(task, now);
                assert(table[table.len() - 1] == Some(task));
                lemma_count_push(before, info, |info: InfoModel| is_active(info));
                lemma_count_push(before, info, |info: InfoModel| is_completed(info));
                lemma_count_push(before, info, |info: InfoModel| is_successful(info));
                lemma_count_push(before, info, |info: InfoModel| is_failed(info));
            },
            None => {},
        }
    }
}

/// The jobs of a snapshot stand in the order of their ids, and each id is below the
/// length of the table; so no id occurs twice.
pub proof fn lemma_snapshot_ids_ascend(table: Seq<Option<TaskModel>>, now: u64)
    requires
        indexed(table),
    ensures
        forall|j: int|
            0 <= j < infos_of(table, now).len() ==> (#[trigger] infos_of(table, now)[j]).id
                < table.len(),
        forall|j: int, k: int|
            0 <= j < k < infos_of(table, now).len() ==> (#[trigger] infos_of(table, now)[j]).id < (
            #[trigger] infos_of(table, now)[k]).id,
    decreases table.len(),
{
    if table.len() > 0 {
        let shorter = table.drop_last();
        assert(forall|i: int| 0 <= i < shorter.len() ==> shorter[i] == table[i]);
        lemma_snapshot_ids_ascend(shorter, now);
        assert(table[table.len() - 1] == table.last());
    }
}

} // verus!
