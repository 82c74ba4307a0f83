//! The order in which a job's events come, and what the aggregator owes to it.
//!
//! A job reports `Created`, then `Started`, then `Progress` any number of times, then
//! `Finished` or `Failed`. Events of different jobs come in any order.

use crate::snapshot::{lemma_counts_add_up, snapshot_of};
use crate::ui::{
    breaks_protocol, indexed, knows, lemma_reduce_keeps_order, reduce, restarts, settled,
    unmixed, PayloadModel, TaskModel,
};
use vstd::prelude::*;

verus! {

/// A final report: the job finished or failed.
pub open spec fn is_final(report: PayloadModel) -> bool {
    report is Finished || report is Failed
}

/// The reports are the beginning of one life of a job: `Created` first, `Started`
/// second, after that `Progress`, and a final report, if there is one, last.
pub open spec fn in_order(reports: Seq<PayloadModel>) -> bool {
    &&& reports.len() >= 1 ==> reports[0] is Created
    &&& reports.len() >= 2 ==> reports[1] is Started
    &&& forall|i: int| 2 <= i < reports.len() - 1 ==> #[trigger] reports[i] is Progress
    &&& reports.len() >= 3 ==> reports.last() is Progress || is_final(reports.last())
}

/// The reports are one whole life of a job: `Created`, `Started`, any number of
/// `Progress`, and one final report.
pub open spec fn complete(reports: Seq<PayloadModel>) -> bool {
    &&& in_order(reports)
    &&& reports.len() >= 3
    &&& is_final(reports.last())
}

/// One event as the aggregator sees it: the job, what happened, and when it was seen.
pub struct Seen {
    pub task_id: usize,
    pub payload: PayloadModel,
    pub now: u64,
}

/// The table that a run of events leaves, begun with an empty table.
pub open spec fn replay(events: Seq<Seen>) -> Seq<Option<TaskModel>>
    decreases events.len(),
{
    if events.len() == 0 {
        Seq::empty()
    } else {
        let last = events.last();
        reduce(replay(events.drop_last()), last.task_id, last.payload, last.now)
    }
}

/// One more event changes the table as the aggregator's step does: a table that
/// began empty and has been changed by events alone is the replay of those events.
pub proof fn lemma_replay_step(events: Seq<Seen>, next: Seen)
    ensures
        replay(events.push(next)) == reduce(
            replay(events),
            next.task_id,
            next.payload,
            next.now,
        ),
{
    assert(events.push(next).drop_last() =~= events);
}

/// No event of the run starts a job that has ended before it.
pub open spec fn never_restarts(events: Seq<Seen>) -> bool {
    forall|k: int|
        0 <= k < events.len() ==> !restarts(
            replay(#[trigger] events.take(k)),
            events[k].task_id,
            events[k].payload,
        )
}

/// The table that a run of events leaves has every job in its slot and knows the
/// outcome exactly of the jobs that have ended. Where no event started a job that had
/// ended, no job of it is active and ended at once.
pub proof fn lemma_replay_in_order(events: Seq<Seen>)
    ensures
        indexed(replay(events)),
        settled(replay(events)),
        never_restarts(events) ==> unmixed(replay(events)),
    decreases events.len(),
{
    if events.len() > 0 {
        let earlier = events.drop_last();
        let last = events.last();
        lemma_replay_in_order(earlier);
        lemma_reduce_keeps_order(replay(earlier), last.task_id, last.payload, last.now);
        if never_restarts(events) {
            assert forall|k: int| 0 <= k < earlier.len() implies !restarts(
                replay(#[trigger] earlier.take(k)),
                earlier[k].task_id,
                earlier[k].payload,
            ) by {
                assert(earlier.take(k) =~= events.take(k));
            }
            assert(events.take(events.len() - 1) =~= earlier);
        }
    }
}

/// At every snapshot of a table that a run of events has left, the completed jobs are
/// the successful and the failed ones together. Where no event started a job that had
/// ended, the active and the completed jobs are together no more than all jobs.
pub proof fn lemma_snapshot_counts(events: Seq<Seen>, now: u64)
    ensures
        snapshot_of(replay(events), now).completed_tasks == snapshot_of(
            replay(events),
            now,
        ).successful_tasks + snapshot_of(replay(events), now).failed_tasks,
        never_restarts(events) ==> snapshot_of(replay(events), now).active_tasks + snapshot_of(
            replay(events),
            now,
        ).completed_tasks <= snapshot_of(replay(events), now).total_tasks,
{
    lemma_replay_in_order(events);
    lemma_counts_add_up(replay(events), now);
}

/// What a run of events says of one job, in the order in which it is seen.
pub open spec fn payloads_of(events: Seq<Seen>, id: usize) -> Seq<PayloadModel>
    decreases events.len(),
{
    if events.len() == 0 {
        Seq::empty()
    } else {
        let before = payloads_of(events.drop_last(), id);
        if events.last().task_id == id {
            before.push(events.last().payload)
        } else {
            before
        }
    }
}

/// The events of every job, taken by themselves, are in the order of one life.
pub open spec fn each_in_order(events: Seq<Seen>) -> bool {
    forall|id: usize| in_order(#[trigger] payloads_of(events, id))
}

/// One of the reports is final.
pub open spec fn has_final(reports: Seq<PayloadModel>) -> bool {
    exists|j: int| 0 <= j < reports.len() && is_final(#[trigger] reports[j])
}

/// The table has kept up with what was said of a job: a job of which anything was
/// said is known, and a job that has ended was said to have ended.
pub open spec fn tracks(table: Seq<Option<TaskModel>>, said: Seq<PayloadModel>, id: usize) -> bool {
    &&& said.len() >= 1 ==> knows(table, id)
    &&& knows(table, id) && table[id as int]->0.exited_at is Some ==> has_final(said)
}

/// What is said of a job up to and with the event at `k`.
proof fn lemma_payloads_step(events: Seq<Seen>, k: int, id: usize)
    requires
        0 <= k < events.len(),
    ensures
        payloads_of(events.take(k + 1), id) == if events[k].task_id == id {
            payloads_of(events.take(k), id).push(events[k].payload)
        } else {
            payloads_of(events.take(k), id)
        },
{
    assert(events.take(k + 1).drop_last() =~= events.take(k));
}

/// What is said of a job in the first `k` events begins what is said of it in all.
proof fn lemma_payloads_prefix(events: Seq<Seen>, k: int, id: usize)
    requires
        0 <= k <= events.len(),
    ensures
        payloads_of(events.take(k), id).len() <= payloads_of(events, id).len(),
        payloads_of(events.take(k), id) == payloads_of(events, id).take(
            payloads_of(events.take(k), id).len() as int,
        ),
    decreases events.len() - k,
{
    let part = payloads_of(events.take(k), id);
    let all = payloads_of(events, id);
    if k < events.len() {
        lemma_payloads_step(events, k, id);
        lemma_payloads_prefix(events, k + 1, id);
        let next = payloads_of(events.take(k + 1), id);
        assert(part =~= next.take(part.len() as int));
        assert(part =~= all.take(part.len() as int));
    } else {
        assert(events.take(k) =~= events);
        assert(all.take(all.len() as int) =~= all);
    }
}

/// The beginning of reports that are in order is in order.
proof fn lemma_beginning_in_order(reports: Seq<PayloadModel>, length: int)
    requires
        in_order(reports),
        0 <= length <= reports.len(),
    ensures
        in_order(reports.take(length)),
{
    let part = reports.take(length);
    assert(forall|i: int| 0 <= i < length ==> part[i] == reports[i]);
    if length >= 3 && length < reports.len() {
        assert(reports[length - 1] is Progress);
    }
}

/// What is said of a job in the first `k` events is in order.
proof fn lemma_said_in_order(events: Seq<Seen>, k: int, id: usize)
    requires
        each_in_order(events),
        0 <= k <= events.len(),
    ensures
        in_order(payloads_of(events.take(k), id)),
{
    lemma_payloads_prefix(events, k, id);
    lemma_beginning_in_order(
        payloads_of(events, id),
        payloads_of(events.take(k), id).len() as int,
    );
}

/// An event of a run in which every job keeps its order is not refused, and it does
/// not start a job that has ended.
proof fn lemma_event_accepted(events: Seq<Seen>, k: int)
    requires
        each_in_order(events),
        0 <= k < events.len(),
        tracks(
            replay(events.take(k)),
            payloads_of(events.take(k), events[k].task_id),
            events[k].task_id,
        ),
    ensures
        !breaks_protocol(replay(events.take(k)), events[k].task_id, events[k].payload),
        !restarts(replay(events.take(k)), events[k].task_id, events[k].payload),
{
    let id = events[k].task_id;
    let payload = events[k].payload;
    let said = payloads_of(events.take(k), id);
    let more = payloads_of(events.take(k + 1), id);
    lemma_payloads_step(events, k, id);
    lemma_said_in_order(events, k + 1, id);
    assert(more == said.push(payload));
    assert(more.last() == payload);
    if !(payload is Created) {
        assert(more[0] is Created);
        assert(said.len() >= 1);
    }
    if payload is Started {
        if said.len() >= 2 {
            assert(more.len() >= 3);
            assert(more.last() is Progress || is_final(more.last()));
        }
        assert(said.len() == 1);
        assert(said[0] == more[0]);
        assert(!has_final(said));
    }
}

/// After the first `k` events of a run in which every job keeps its order, the table
/// has kept up with what was said of every job.
proof fn lemma_table_tracks(events: Seq<Seen>, k: int, id: usize)
    requires
        each_in_order(events),
        0 <= k <= events.len(),
    ensures
        tracks(replay(events.take(k)), payloads_of(events.take(k), id), id),
    decreases k,
{
    if k > 0 {
        let j = k - 1;
        let event = events[j];
        let table = replay(events.take(j));
        let said = payloads_of(events.take(j), id);
        lemma_table_tracks(events, j, id);
        lemma_table_tracks(events, j, event.task_id);
        lemma_event_accepted(events, j);
        lemma_payloads_step(events, j, id);
        assert(events.take(k).drop_last() =~= events.take(j));
        assert(events.take(k).last() == event);
        let after = reduce(table, event.task_id, event.payload, event.now);
        assert(replay(events.take(k)) == after);
        let more = payloads_of(events.take(k), id);
        if event.task_id == id {
            assert(more == said.push(event.payload));
            if knows(after, id) && after[id as int]->0.exited_at is Some {
                if is_final(event.payload) {
                    assert(is_final(more[more.len() - 1]));
                } else {
                    assert(knows(table, id) && table[id as int]->0.exited_at is Some);
                    let at = choose|at: int| 0 <= at < said.len() && is_final(#[trigger] said[at]);
                    assert(is_final(more[at]));
                }
            }
        } else {
            assert(more == said);
            if id < table.len() {
                assert(after[id as int] == table[id as int]);
            }
        }
    }
}

/// Where the events of every job, taken by themselves, are in the order of one life,
/// in whatever way the jobs' events are mixed, the aggregator refuses no event and no
/// job is started after it has ended. So no job is ever active and ended at once, and
/// at every snapshot the completed jobs are the successful and the failed ones
/// together, and the active and the completed ones are no more than all jobs.
pub proof fn lemma_ordered_events_are_accepted(events: Seq<Seen>, now: u64)
    requires
        each_in_order(events),
    ensures
        forall|k: int|
            0 <= k < events.len() ==> !breaks_protocol(
                replay(#[trigger] events.take(k)),
                events[k].task_id,
                events[k].payload,
            ),
        never_restarts(events),
        unmixed(replay(events)),
        snapshot_of(replay(events), now).completed_tasks == snapshot_of(
            replay(events),
            now,
        ).successful_tasks + snapshot_of(replay(events), now).failed_tasks,
        snapshot_of(replay(events), now).active_tasks + snapshot_of(
            replay(events),
            now,
        ).completed_tasks <= snapshot_of(replay(events), now).total_tasks,
{
    assert forall|k: int| 0 <= k < events.len() implies !breaks_protocol(
        replay(#[trigger] events.take(k)),
        events[k].task_id,
        events[k].payload,
    ) && !restarts(replay(events.take(k)), events[k].task_id, events[k].payload) by {
        lemma_table_tracks(events, k, events[k].task_id);
        lemma_event_accepted(events, k);
    }
    lemma_replay_in_order(events);
    lemma_snapshot_counts(events, now);
}

} // verus!
