//! What makes a sandbox paused, idle or one that may give way, stated on the events,
//! executions and sessions themselves.
use crate::error::SessionStoreError;
use crate::execution::{
    any_counts, counts_for, latest_at, latest_execution, law_one_execution_is_the_latest,
};
use crate::idle::{
    capacity_read, capacity_row_of, capacity_rows, deadline_elapsed, idle_candidate_read,
    idle_row_of, idle_rows, idle_timeout_of, last_activity, latest_event_at, may_give_way,
    not_later, paused, tells_pause, IdleSandboxCandidate, IdleSandboxCandidateRow, ObservedSession,
    SandboxCapacityCandidate, SandboxCapacityCandidateRow, SandboxEventRow,
};
use crate::json::{json_contents, json_member};
use crate::listing::{gathered, law_gathered_are_exactly_the_values};
use crate::listing_columns::law_gathered_one_by_one;
use crate::model::{ThreadKey, Timestamp};
use crate::ordering::{
    in_order, law_order_is_by_time, law_order_keeps_the_values, law_present_values, present,
};
use crate::rows::{SessionExecutionRow, SessionRow};
use crate::time::Nanoseconds;
use serde_json::Value;
use vstd::prelude::*;

verus! {

// ---------------------------------------------------------------------------
// Pauses
// ---------------------------------------------------------------------------

/// An event of one of the types that tell of a pause names the thread and sandbox.
pub open spec fn is_event_of(
    event: SandboxEventRow,
    thread: Seq<char>,
    sandbox: Seq<char>,
    event_type: Seq<char>,
) -> bool {
    &&& event.thread_key@ == thread
    &&& event.sandbox_id is Some && event.sandbox_id->0@ == sandbox
    &&& event.event_type@ == event_type
}

/// One event comes before another: by its time, of one time by its id, and of one id
/// by its place.
pub open spec fn comes_earlier(events: Seq<SandboxEventRow>, i: int, k: int) -> bool {
    if events[i].created_at != events[k].created_at {
        events[i].created_at < events[k].created_at
    } else if events[i].event_id != events[k].event_id {
        events[i].event_id < events[k].event_id
    } else {
        i < k
    }
}

proof fn lemma_some_event_is_latest(
    events: Seq<SandboxEventRow>,
    thread: Seq<char>,
    sandbox: Seq<char>,
    n: int,
    i: int,
) -> (k: int)
    requires
        0 <= i < n <= events.len(),
        tells_pause(events[i], thread, sandbox),
    ensures
        0 <= k < n,
        tells_pause(events[k], thread, sandbox),
        forall|j: int|
            0 <= j < n && tells_pause(#[trigger] events[j], thread, sandbox) ==> not_later(
                events,
                j,
                k,
            ),
    decreases n,
{
    let last = n - 1;
    if exists|j: int| 0 <= j < last && tells_pause(#[trigger] events[j], thread, sandbox) {
        let j = choose|j: int|
            0 <= j < last && tells_pause(#[trigger] events[j], thread, sandbox);
        let k = lemma_some_event_is_latest(events, thread, sandbox, last, j);
        if tells_pause(events[last], thread, sandbox) && !not_later(events, last, k) {
            last
        } else {
            k
        }
    } else {
        last
    }
}

/// A sandbox is not paused if every pause of it was followed by an event that says
/// that it was resumed or is ready, be it one of these or the other.
pub proof fn law_resumed_sandbox_is_not_paused(
    events: Seq<SandboxEventRow>,
    thread: Seq<char>,
    sandbox: Seq<char>,
    i: int,
)
    requires
        0 <= i < events.len(),
        is_event_of(events[i], thread, sandbox, "session.sandbox_resumed"@) || is_event_of(
            events[i],
            thread,
            sandbox,
            "session.sandbox_ready"@,
        ),
        forall|p: int|
            0 <= p < events.len() && is_event_of(
                #[trigger] events[p],
                thread,
                sandbox,
                "session.sandbox_paused"@,
            ) ==> comes_earlier(events, p, i),
    ensures
        !paused(events, thread, sandbox),
{
    if paused(events, thread, sandbox) {
        let k = choose|k: int| #[trigger]
            latest_event_at(events, thread, sandbox, k) && events[k].event_type@
                == "session.sandbox_paused"@;
        assert(is_event_of(events[k], thread, sandbox, "session.sandbox_paused"@));
        assert(tells_pause(events[i], thread, sandbox));
        assert(not_later(events, i, k));
        assert(comes_earlier(events, k, i));
    }
}

/// A sandbox is paused if there is a pause of it that no later event of it undoes by
/// saying that it was resumed or is ready.
pub proof fn law_paused_sandbox(
    events: Seq<SandboxEventRow>,
    thread: Seq<char>,
    sandbox: Seq<char>,
    p: int,
)
    requires
        0 <= p < events.len(),
        is_event_of(events[p], thread, sandbox, "session.sandbox_paused"@),
        forall|i: int|
            0 <= i < events.len() && (is_event_of(
                #[trigger] events[i],
                thread,
                sandbox,
                "session.sandbox_resumed"@,
            ) || is_event_of(events[i], thread, sandbox, "session.sandbox_ready"@))
                ==> comes_earlier(events, i, p),
    ensures
        paused(events, thread, sandbox),
{
    assert(tells_pause(events[p], thread, sandbox));
    let k = lemma_some_event_is_latest(events, thread, sandbox, events.len() as int, p);
    assert(latest_event_at(events, thread, sandbox, k));
    assert(not_later(events, p, k));
    if events[k].event_type@ != "session.sandbox_paused"@ {
        assert(is_event_of(events[k], thread, sandbox, "session.sandbox_resumed"@)
            || is_event_of(events[k], thread, sandbox, "session.sandbox_ready"@));
        assert(comes_earlier(events, k, p));
    }
}

/// Events of other threads, of other sandboxes and of other types say nothing of a
/// pause: without a pause of its own, a sandbox is not paused.
pub proof fn law_unpaused_sandbox(
    events: Seq<SandboxEventRow>,
    thread: Seq<char>,
    sandbox: Seq<char>,
)
    requires
        forall|p: int|
            0 <= p < events.len() ==> !is_event_of(
                #[trigger] events[p],
                thread,
                sandbox,
                "session.sandbox_paused"@,
            ),
    ensures
        !paused(events, thread, sandbox),
{
    if paused(events, thread, sandbox) {
        let k = choose|k: int| #[trigger]
            latest_event_at(events, thread, sandbox, k) && events[k].event_type@
                == "session.sandbox_paused"@;
        assert(is_event_of(events[k], thread, sandbox, "session.sandbox_paused"@));
    }
}

// ---------------------------------------------------------------------------
// Activity
// ---------------------------------------------------------------------------

/// An execution of the thread is queued or running.
pub open spec fn is_busy(executions: Seq<SessionExecutionRow>, thread: Seq<char>) -> bool {
    exists|i: int|
        0 <= i < executions.len() && (#[trigger] executions[i]).thread_key@ == thread && (
        executions[i].status@ == "queued"@ || executions[i].status@ == "running"@)
}

/// Something is active for a thread exactly if an execution of it is queued or
/// running.
pub proof fn law_busy_threads(executions: Seq<SessionExecutionRow>, thread: Seq<char>)
    ensures
        any_counts(executions, thread, true) <==> is_busy(executions, thread),
        any_counts(executions, thread, false) <==> exists|i: int|
            0 <= i < executions.len() && (#[trigger] executions[i]).thread_key@ == thread,
{
    if any_counts(executions, thread, true) {
        let i = choose|i: int|
            0 <= i < executions.len() && counts_for(#[trigger] executions[i], thread, true);
        assert(executions[i].thread_key@ == thread);
    }
    if is_busy(executions, thread) {
        let i = choose|i: int|
            0 <= i < executions.len() && (#[trigger] executions[i]).thread_key@ == thread && (
            executions[i].status@ == "queued"@ || executions[i].status@ == "running"@);
        assert(counts_for(executions[i], thread, true));
    }
    if any_counts(executions, thread, false) {
        let i = choose|i: int|
            0 <= i < executions.len() && counts_for(#[trigger] executions[i], thread, false);
        assert(executions[i].thread_key@ == thread);
    }
    if exists|i: int|
        0 <= i < executions.len() && (#[trigger] executions[i]).thread_key@ == thread {
        let i = choose|i: int|
            0 <= i < executions.len() && (#[trigger] executions[i]).thread_key@ == thread;
        assert(counts_for(executions[i], thread, false));
    }
}

/// The latest execution of a thread is one of the thread, none of the thread was
/// created later, and of those created at the same time it is the last one given.
pub proof fn law_latest_execution_of_the_thread(
    executions: Seq<SessionExecutionRow>,
    thread: Seq<char>,
)
    ensures
        latest_execution(executions, thread, false) is None <==> forall|i: int|
            0 <= i < executions.len() ==> (#[trigger] executions[i]).thread_key@ != thread,
        latest_execution(executions, thread, false) matches Some(latest) ==> exists|k: int|
            {
                &&& 0 <= k < executions.len()
                &&& latest == #[trigger] executions[k]
                &&& latest.thread_key@ == thread
                &&& forall|i: int|
                    0 <= i < executions.len() && (#[trigger] executions[i]).thread_key@ == thread
                        ==> executions[i].created_at < latest.created_at || (
                    executions[i].created_at == latest.created_at && i <= k)
            },
{
    law_busy_threads(executions, thread);
    law_one_execution_is_the_latest(executions, thread, false);
    if any_counts(executions, thread, false) {
        let k = choose|k: int| latest_at(executions, thread, false, k);
        assert(latest_at(executions, thread, false, k));
        let latest = latest_execution(executions, thread, false)->0;
        assert(latest == executions[k]);
        assert forall|i: int|
            0 <= i < executions.len() && (#[trigger] executions[i]).thread_key@
                == thread implies executions[i].created_at < latest.created_at || (
        executions[i].created_at == latest.created_at && i <= k) by {
            assert(counts_for(executions[i], thread, false));
        }
    }
}

/// A sandbox was last active when its own record says so; without one, when the latest
/// execution ended; and without that, when the session last changed.
pub proof fn law_last_activity_columns(row: SessionRow, latest: Option<SessionExecutionRow>)
    ensures
        row.sandbox.last_active_at is Some ==> last_activity(row, latest)
            == row.sandbox.last_active_at->0,
        row.sandbox.last_active_at is None && latest is Some && latest->0.completed_at is Some
            ==> last_activity(row, latest) == latest->0.completed_at->0,
        row.sandbox.last_active_at is None && (latest is None || latest->0.completed_at is None)
            ==> last_activity(row, latest) == row.updated_at,
{
}

// ---------------------------------------------------------------------------
// Capacity
// ---------------------------------------------------------------------------

/// A session's sandbox may give way exactly if there is one, the session is not the
/// excluded one, the sandbox is not paused, it was last active by the cutoff, and no
/// execution of the session is queued or running.
pub proof fn law_capacity_conditions(
    seen: ObservedSession,
    executions: Seq<SessionExecutionRow>,
    events: Seq<SandboxEventRow>,
    excluded: Option<&str>,
    cutoff: Timestamp,
)
    ensures
        capacity_row_of(seen, executions, events, excluded, cutoff) is Some <==> {
            &&& seen.row.sandbox.sandbox_id is Some
            &&& excluded is Some ==> seen.row.thread_key@ != excluded->0@
            &&& !paused(events, seen.row.thread_key@, seen.row.sandbox.sandbox_id->0@)
            &&& last_activity(
                seen.row,
                latest_execution(executions, seen.row.thread_key@, false),
            ) <= cutoff
            &&& !is_busy(executions, seen.row.thread_key@)
        },
        capacity_row_of(seen, executions, events, excluded, cutoff) matches Some(found) ==> {
            &&& found.1.thread_key == seen.thread_key
            &&& Some(found.1.sandbox_id) == seen.row.sandbox.sandbox_id
            &&& found.1.resource_uid == seen.row.sandbox.resource_uid
            &&& found.1.assignment_epoch == seen.row.sandbox.assignment_epoch
            &&& found.0 == found.1.last_active_at
            &&& found.1.last_active_at <= cutoff
            &&& found.1.latest_execution_id is Some <==> latest_execution(
                executions,
                seen.row.thread_key@,
                false,
            ) is Some
            &&& found.1.latest_execution_id is Some ==> found.1.latest_execution_id
                == Some(latest_execution(executions, seen.row.thread_key@, false)->0.execution_id)
        },
{
    law_busy_threads(executions, seen.row.thread_key@);
}

/// A sandbox that was resumed or became ready after its last pause, was last active by
/// the cutoff and has nothing active is among the candidates, if there is room for all
/// of them.
pub proof fn law_resumed_sandbox_is_a_candidate(
    seen: Seq<ObservedSession>,
    n: int,
    executions: Seq<SessionExecutionRow>,
    events: Seq<SandboxEventRow>,
    i: int,
    excluded: Option<&str>,
    cutoff: Timestamp,
    limit: nat,
    list: Seq<SandboxCapacityCandidate>,
)
    requires
        0 <= n < seen.len() <= limit,
        seen[n].row.sandbox.sandbox_id is Some,
        excluded is Some ==> seen[n].row.thread_key@ != excluded->0@,
        0 <= i < events.len(),
        is_event_of(
            events[i],
            seen[n].row.thread_key@,
            seen[n].row.sandbox.sandbox_id->0@,
            "session.sandbox_resumed"@,
        ) || is_event_of(
            events[i],
            seen[n].row.thread_key@,
            seen[n].row.sandbox.sandbox_id->0@,
            "session.sandbox_ready"@,
        ),
        forall|p: int|
            0 <= p < events.len() && is_event_of(
                #[trigger] events[p],
                seen[n].row.thread_key@,
                seen[n].row.sandbox.sandbox_id->0@,
                "session.sandbox_paused"@,
            ) ==> comes_earlier(events, p, i),
        seen[n].row.sandbox.last_active_at is Some,
        seen[n].row.sandbox.last_active_at->0 <= cutoff,
        forall|e: int|
            0 <= e < executions.len() && (#[trigger] executions[e]).thread_key@
                == seen[n].row.thread_key@ ==> executions[e].status@ != "queued"@
                && executions[e].status@ != "running"@,
        gathered(
            capacity_rows(seen, executions, events, excluded, cutoff, limit).map_values(
                |r: (Timestamp, SandboxCapacityCandidateRow)| capacity_read(r.1),
            ),
        ) == Ok::<Seq<SandboxCapacityCandidate>, SessionStoreError>(list),
    ensures
        exists|k: int|
            0 <= k < list.len() && seen[n].thread_key == Ok::<ThreadKey, String>(
                (#[trigger] list[k]).thread_key,
            ) && seen[n].row.sandbox.sandbox_id == Some(list[k].sandbox_id)
                && list[k].resource_uid == seen[n].row.sandbox.resource_uid
                && list[k].assignment_epoch == seen[n].row.sandbox.assignment_epoch
                && list[k].last_active_at == seen[n].row.sandbox.last_active_at->0,
{
    law_resumed_sandbox_is_not_paused(
        events,
        seen[n].row.thread_key@,
        seen[n].row.sandbox.sandbox_id->0@,
        i,
    );
    law_capacity_conditions(seen[n], executions, events, excluded, cutoff);
    law_every_candidate_is_listed(seen, n, executions, events, excluded, cutoff, limit, list);
}

/// Every session whose sandbox may give way is listed, if there is room for all of
/// them, and in any case every listed one comes from such a session.
pub proof fn law_every_candidate_is_listed(
    seen: Seq<ObservedSession>,
    n: int,
    executions: Seq<SessionExecutionRow>,
    events: Seq<SandboxEventRow>,
    excluded: Option<&str>,
    cutoff: Timestamp,
    limit: nat,
    list: Seq<SandboxCapacityCandidate>,
)
    requires
        0 <= n < seen.len(),
        gathered(
            capacity_rows(seen, executions, events, excluded, cutoff, limit).map_values(
                |r: (Timestamp, SandboxCapacityCandidateRow)| capacity_read(r.1),
            ),
        ) == Ok::<Seq<SandboxCapacityCandidate>, SessionStoreError>(list),
    ensures
        capacity_row_of(seen[n], executions, events, excluded, cutoff) is Some && (list.len()
            < limit || seen.len() <= limit) ==> exists|k: int|
            0 <= k < list.len() && seen[n].thread_key == Ok::<ThreadKey, String>(
                (#[trigger] list[k]).thread_key,
            ) && seen[n].row.sandbox.sandbox_id == Some(list[k].sandbox_id)
                && list[k].resource_uid == seen[n].row.sandbox.resource_uid
                && list[k].assignment_epoch == seen[n].row.sandbox.assignment_epoch
                && list[k].last_active_at == last_activity(
                seen[n].row,
                latest_execution(executions, seen[n].row.thread_key@, false),
            ),
        forall|k: int|
            0 <= k < list.len() ==> (#[trigger] list[k]).last_active_at <= cutoff && exists|m: int|
                0 <= m < seen.len() && seen[m].row.sandbox.sandbox_id == Some(
                    list[k].sandbox_id,
                ) && seen[m].thread_key == Ok::<ThreadKey, String>(list[k].thread_key)
                    && capacity_row_of(
                    #[trigger] seen[m],
                    executions,
                    events,
                    excluded,
                    cutoff,
                ) is Some,
        list.len() <= limit,
{
    let find = |s: ObservedSession| capacity_row_of(s, executions, events, excluded, cutoff);
    let read = |r: (Timestamp, SandboxCapacityCandidateRow)| capacity_read(r.1);
    let found = seen.map_values(find);
    let rows = present(found);
    let sorted = in_order(rows);
    let listed = capacity_rows(seen, executions, events, excluded, cutoff, limit);
    let items = listed.map_values(read);
    law_order_is_by_time(rows, 0);
    law_gathered_one_by_one(items);
    if find(seen[n]) is Some && (list.len() < limit || seen.len() <= limit) {
        let one = find(seen[n])->0;
        assert(found[n] == Some(one));
        law_present_values(found, one);
        law_order_keeps_the_values(rows, one);
        let k = choose|k: int| 0 <= k < sorted.len() && sorted[k] == one;
        assert(listed[k] == one);
        assert(items[k] == read(one));
        let told = list[k];
        assert(items[k] == Ok::<Option<SandboxCapacityCandidate>, SessionStoreError>(Some(told)));
    }
    assert forall|k: int| 0 <= k < list.len() implies (#[trigger] list[k]).last_active_at <= cutoff
        && exists|m: int|
        0 <= m < seen.len() && seen[m].row.sandbox.sandbox_id == Some(list[k].sandbox_id)
            && seen[m].thread_key == Ok::<ThreadKey, String>(list[k].thread_key)
            && capacity_row_of(
            #[trigger] seen[m],
            executions,
            events,
            excluded,
            cutoff,
        ) is Some by {
        assert(items[k] == read(listed[k]));
        assert(listed[k] == sorted[k]);
        assert(sorted.contains(sorted[k]));
        law_order_keeps_the_values(rows, sorted[k]);
        law_present_values(found, sorted[k]);
        let m = choose|m: int| 0 <= m < found.len() && found[m] == Some(sorted[k]);
        assert(find(seen[m]) == Some(sorted[k]));
    }
}

/// A paused sandbox is not listed: no row of the listing is its session's.
pub proof fn law_paused_sandbox_is_no_candidate(
    seen: ObservedSession,
    executions: Seq<SessionExecutionRow>,
    events: Seq<SandboxEventRow>,
    p: int,
    excluded: Option<&str>,
    cutoff: Timestamp,
)
    requires
        seen.row.sandbox.sandbox_id is Some,
        0 <= p < events.len(),
        is_event_of(
            events[p],
            seen.row.thread_key@,
            seen.row.sandbox.sandbox_id->0@,
            "session.sandbox_paused"@,
        ),
        forall|i: int|
            0 <= i < events.len() && (is_event_of(
                #[trigger] events[i],
                seen.row.thread_key@,
                seen.row.sandbox.sandbox_id->0@,
                "session.sandbox_resumed"@,
            ) || is_event_of(
                events[i],
                seen.row.thread_key@,
                seen.row.sandbox.sandbox_id->0@,
                "session.sandbox_ready"@,
            )) ==> comes_earlier(events, i, p),
    ensures
        capacity_row_of(seen, executions, events, excluded, cutoff) is None,
        !may_give_way(seen.row, executions, events, excluded, cutoff),
{
    law_paused_sandbox(events, seen.row.thread_key@, seen.row.sandbox.sandbox_id->0@, p);
}

// ---------------------------------------------------------------------------
// Idle sandboxes
// ---------------------------------------------------------------------------

/// A session is idle exactly if it has a sandbox, its latest execution has completed,
/// failed or been cancelled at a recorded time, and none is queued or running. It is
/// then listed with the sandbox, and with the id and metadata of that execution.
pub proof fn law_idle_conditions(seen: ObservedSession, executions: Seq<SessionExecutionRow>)
    ensures
        ({
            let latest = latest_execution(executions, seen.row.thread_key@, false);
            &&& idle_row_of(seen, executions) is Some <==> {
                &&& seen.row.sandbox.sandbox_id is Some
                &&& latest is Some
                &&& latest->0.status@ == "completed"@ || latest->0.status@ == "failed"@
                    || latest->0.status@ == "cancelled"@
                &&& latest->0.completed_at is Some
                &&& !is_busy(executions, seen.row.thread_key@)
            }
            &&& idle_row_of(seen, executions) matches Some(found) ==> {
                &&& Some(found.0) == latest->0.completed_at
                &&& found.1.completed_at == found.0
                &&& found.1.thread_key == seen.thread_key
                &&& Some(found.1.sandbox_id) == seen.row.sandbox.sandbox_id
                &&& found.1.resource_uid == seen.row.sandbox.resource_uid
                &&& found.1.assignment_epoch == seen.row.sandbox.assignment_epoch
                &&& found.1.execution_id == latest->0.execution_id
                &&& found.1.metadata == latest->0.metadata
            }
        }),
{
    law_busy_threads(executions, seen.row.thread_key@);
}

/// The timeout of an execution is what its metadata asks for in milliseconds, if that
/// is a positive integer; else the backstop, or a millisecond if that is less.
pub proof fn law_idle_timeout_of_metadata(metadata: Value, backstop: Nanoseconds)
    ensures
        ({
            let asked = json_member(metadata, "idle_timeout_ms"@);
            let contents = json_contents(asked->0);
            let positive = asked is Some && contents is Unsigned && contents->Unsigned_0 > 0;
            &&& positive ==> idle_timeout_of(metadata, backstop) == contents->Unsigned_0
                * 1_000_000
            &&& !positive && backstop >= 1_000_000 ==> idle_timeout_of(metadata, backstop)
                == backstop
            &&& !positive && backstop < 1_000_000 ==> idle_timeout_of(metadata, backstop)
                == 1_000_000
        }),
{
}

/// A timeout has run out exactly if the end lies that long back or longer.
pub proof fn law_idle_deadline(completed_at: Timestamp, timeout: Nanoseconds, now: Timestamp)
    ensures
        deadline_elapsed(completed_at, timeout, now) <==> completed_at + timeout <= now,
{
}

/// An idle row is a candidate from the end of its timeout on, with its own columns; a
/// key that cannot be read refuses it only then.
pub proof fn law_idle_candidate_columns(
    row: IdleSandboxCandidateRow,
    backstop: Nanoseconds,
    now: Timestamp,
)
    ensures
        ({
            let read = idle_candidate_read(row, backstop, now);
            let timeout = idle_timeout_of(row.metadata, backstop);
            &&& read == Ok::<Option<IdleSandboxCandidate>, SessionStoreError>(None) <==> now
                < row.completed_at + timeout
            &&& read is Err ==> row.thread_key is Err && read == Err::<
                Option<IdleSandboxCandidate>,
                SessionStoreError,
            >(SessionStoreError::InvalidPersistedValue(row.thread_key->Err_0))
            &&& read matches Ok(Some(candidate)) ==> {
                &&& row.thread_key == Ok::<ThreadKey, String>(candidate.thread_key)
                &&& candidate.sandbox_id == row.sandbox_id
                &&& candidate.resource_uid == row.resource_uid
                &&& candidate.assignment_epoch == row.assignment_epoch
                &&& candidate.execution_id == row.execution_id
                &&& candidate.idle_timeout == timeout
            }
        }),
{
}

/// Every idle session whose timeout has run out is listed.
pub proof fn law_every_idle_session_is_listed(
    seen: Seq<ObservedSession>,
    n: int,
    executions: Seq<SessionExecutionRow>,
    backstop: Nanoseconds,
    now: Timestamp,
    list: Seq<IdleSandboxCandidate>,
)
    requires
        0 <= n < seen.len(),
        gathered(
            idle_rows(seen, executions).map_values(
                |r: (Timestamp, IdleSandboxCandidateRow)|
                    idle_candidate_read(r.1, backstop, now),
            ),
        ) == Ok::<Seq<IdleSandboxCandidate>, SessionStoreError>(list),
        idle_row_of(seen[n], executions) matches Some(found) && found.0 + idle_timeout_of(
            found.1.metadata,
            backstop,
        ) <= now,
    ensures
        exists|k: int|
            0 <= k < list.len() && seen[n].thread_key == Ok::<ThreadKey, String>(
                (#[trigger] list[k]).thread_key,
            ) && seen[n].row.sandbox.sandbox_id == Some(list[k].sandbox_id)
                && list[k].execution_id == latest_execution(
                executions,
                seen[n].row.thread_key@,
                false,
            )->0.execution_id,
{
    let find = |s: ObservedSession| idle_row_of(s, executions);
    let read = |r: (Timestamp, IdleSandboxCandidateRow)| idle_candidate_read(r.1, backstop, now);
    let found = seen.map_values(find);
    let rows = present(found);
    let sorted = idle_rows(seen, executions);
    let items = sorted.map_values(read);
    let one = find(seen[n])->0;
    assert(found[n] == Some(one));
    law_present_values(found, one);
    law_order_keeps_the_values(rows, one);
    let k = choose|k: int| 0 <= k < sorted.len() && sorted[k] == one;
    assert(items[k] == read(one));
    law_gathered_are_exactly_the_values(items, arbitrary());
    assert(items[k] is Ok);
    let told = items[k]->Ok_0->0;
    law_gathered_are_exactly_the_values(items, told);
    assert(list.contains(told));
    let m = choose|m: int| 0 <= m < list.len() && list[m] == told;
    assert(list[m].sandbox_id == told.sandbox_id);
}

/// The idle sessions stand in the order in which their executions ended.
pub proof fn law_longest_idle_first(
    seen: Seq<ObservedSession>,
    executions: Seq<SessionExecutionRow>,
    j: int,
    k: int,
)
    requires
        0 <= j < k < idle_rows(seen, executions).len(),
    ensures
        idle_rows(seen, executions)[j].0 <= idle_rows(seen, executions)[k].0,
        idle_rows(seen, executions).len() <= seen.len(),
{
    let found = seen.map_values(|s: ObservedSession| idle_row_of(s, executions));
    law_order_is_by_time(present(found), 0);
    law_present_values(found, arbitrary());
}

/// What a listed candidate holds is what its row held; only a key that cannot be read
/// refuses it.
pub proof fn law_capacity_candidate_columns(row: SandboxCapacityCandidateRow)
    ensures
        capacity_read(row) is Err <==> row.thread_key is Err,
        row.thread_key matches Err(words) ==> capacity_read(row) == Err::<
            Option<SandboxCapacityCandidate>,
            SessionStoreError,
        >(SessionStoreError::InvalidPersistedValue(words)),
        row.thread_key is Ok ==> {
            &&& capacity_read(row) matches Ok(Some(candidate))
            &&& row.thread_key == Ok::<ThreadKey, String>(candidate.thread_key)
            &&& candidate.sandbox_id == row.sandbox_id
            &&& candidate.resource_uid == row.resource_uid
            &&& candidate.assignment_epoch == row.assignment_epoch
            &&& candidate.latest_execution_id == row.latest_execution_id
            &&& candidate.last_active_at == row.last_active_at
        },
{
}

/// Where there is no room for all, those left out were active no earlier than any that
/// is listed.
pub proof fn law_left_out_candidates_were_active_later(
    seen: Seq<ObservedSession>,
    n: int,
    executions: Seq<SessionExecutionRow>,
    events: Seq<SandboxEventRow>,
    excluded: Option<&str>,
    cutoff: Timestamp,
    limit: nat,
    list: Seq<SandboxCapacityCandidate>,
    k: int,
)
    requires
        0 <= n < seen.len(),
        capacity_row_of(seen[n], executions, events, excluded, cutoff) is Some,
        gathered(
            capacity_rows(seen, executions, events, excluded, cutoff, limit).map_values(
                |r: (Timestamp, SandboxCapacityCandidateRow)| capacity_read(r.1),
            ),
        ) == Ok::<Seq<SandboxCapacityCandidate>, SessionStoreError>(list),
        0 <= k < list.len(),
        forall|m: int|
            0 <= m < list.len() ==> seen[n].row.sandbox.sandbox_id != Some(
                (#[trigger] list[m]).sandbox_id,
            ),
    ensures
        list[k].last_active_at <= last_activity(
            seen[n].row,
            latest_execution(executions, seen[n].row.thread_key@, false),
        ),
{
    let find = |s: ObservedSession| capacity_row_of(s, executions, events, excluded, cutoff);
    let read = |r: (Timestamp, SandboxCapacityCandidateRow)| capacity_read(r.1);
    let found = seen.map_values(find);
    let rows = present(found);
    let sorted = in_order(rows);
    let listed = capacity_rows(seen, executions, events, excluded, cutoff, limit);
    let items = listed.map_values(read);
    law_order_is_by_time(rows, 0);
    law_gathered_one_by_one(items);
    let one = find(seen[n])->0;
    assert(found[n] == Some(one));
    law_present_values(found, one);
    law_order_keeps_the_values(rows, one);
    let p = choose|p: int| 0 <= p < sorted.len() && sorted[p] == one;
    if p < list.len() {
        assert(listed[p] == one);
        assert(items[p] == read(one));
        assert(items[p] == Ok::<Option<SandboxCapacityCandidate>, SessionStoreError>(
            Some(list[p]),
        ));
        assert(seen[n].row.sandbox.sandbox_id == Some(list[p].sandbox_id));
    } else {
        assert(listed[k] == sorted[k]);
        assert(items[k] == read(listed[k]));
        assert(items[k] == Ok::<Option<SandboxCapacityCandidate>, SessionStoreError>(
            Some(list[k]),
        ));
        assert(sorted[k].0 <= sorted[p].0);
        assert(sorted.contains(sorted[k]));
        law_order_keeps_the_values(rows, sorted[k]);
        law_present_values(found, sorted[k]);
        let m = choose|m: int| 0 <= m < found.len() && found[m] == Some(sorted[k]);
        assert(find(seen[m]) == Some(sorted[k]));
    }
}

/// Every session listed as idle has that sandbox, and its latest execution ended at least
/// its timeout ago.
pub proof fn law_listed_sessions_are_idle(
    seen: Seq<ObservedSession>,
    executions: Seq<SessionExecutionRow>,
    backstop: Nanoseconds,
    now: Timestamp,
    list: Seq<IdleSandboxCandidate>,
    k: int,
)
    requires
        gathered(
            idle_rows(seen, executions).map_values(
                |r: (Timestamp, IdleSandboxCandidateRow)|
                    idle_candidate_read(r.1, backstop, now),
            ),
        ) == Ok::<Seq<IdleSandboxCandidate>, SessionStoreError>(list),
        0 <= k < list.len(),
    ensures
        exists|m: int|
            {
                let latest = latest_execution(executions, seen[m].row.thread_key@, false);
                &&& 0 <= m < seen.len()
                &&& (#[trigger] seen[m]).row.sandbox.sandbox_id == Some(list[k].sandbox_id)
                &&& seen[m].thread_key == Ok::<ThreadKey, String>(list[k].thread_key)
                &&& latest is Some
                &&& latest->0.execution_id == list[k].execution_id
                &&& latest->0.completed_at is Some
                &&& latest->0.completed_at->0 + list[k].idle_timeout <= now
                &&& !is_busy(executions, seen[m].row.thread_key@)
            },
{
    let find = |s: ObservedSession| idle_row_of(s, executions);
    let read = |r: (Timestamp, IdleSandboxCandidateRow)| idle_candidate_read(r.1, backstop, now);
    let found = seen.map_values(find);
    let rows = present(found);
    let sorted = idle_rows(seen, executions);
    let items = sorted.map_values(read);
    assert(list.contains(list[k]));
    law_gathered_are_exactly_the_values(items, list[k]);
    let p = choose|p: int|
        0 <= p < items.len() && items[p] == Ok::<Option<IdleSandboxCandidate>, SessionStoreError>(
            Some(list[k]),
        );
    assert(items[p] == read(sorted[p]));
    assert(sorted.contains(sorted[p]));
    law_order_keeps_the_values(rows, sorted[p]);
    law_present_values(found, sorted[p]);
    let m = choose|m: int| 0 <= m < found.len() && found[m] == Some(sorted[p]);
    assert(find(seen[m]) == Some(sorted[p]));
    law_idle_conditions(seen[m], executions);
    assert(seen[m].row.sandbox.sandbox_id == Some(list[k].sandbox_id));
}

} // verus!
