//! What the listings come to: which rows are listed, with which columns and in which
//! order, stated on the listed values themselves.
use crate::delivery::{
    delivery_is, is_refusal, readable, recoverable, unresolved, FoundDelivery,
    SessionInputDelivery,
};
use crate::delivery_columns::law_delivery_states;
use crate::error::SessionStoreError;
use crate::execution::{ownership_read, ActiveExecutionOwnership};
use crate::idle::{workflow_sandbox, WorkflowObservation, WorkflowOwnedSandbox};
use crate::listing::{
    active_read, deliveries_in_order, deliveries_read, event_follows, events_in_order,
    executions_in_order, first_of, gathered, is_of_thread, law_gathered_are_exactly_the_values,
    listed_event, messages_in_order, messages_of, messages_read, principal_sandbox_read,
};
use crate::model::{
    ExecutionStatus, Session, SessionEvent, SessionExecution, SessionMessage, ThreadKey, Timestamp,
};
use crate::ordering::{law_filter_keeps_the_order, law_rows_by_time};
use crate::rows::{
    message_read, SessionEventRow, SessionExecutionRow, SessionExecutionRowParses,
    SessionInputDeliveryRow, SessionMessageRow, SessionMessageRowParses, SessionRow,
    SessionRowParses,
};
use vstd::prelude::*;

verus! {

// ---------------------------------------------------------------------------
// Gathering
// ---------------------------------------------------------------------------

/// Where every item holds a value or a refusal, the gathered values are those of the
/// items, one by one.
pub proof fn law_gathered_one_by_one<T>(items: Seq<Result<Option<T>, SessionStoreError>>)
    requires
        forall|i: int|
            0 <= i < items.len()
                ==> #[trigger] items[i] != Ok::<Option<T>, SessionStoreError>(None),
    ensures
        gathered(items) matches Ok(list) ==> {
            &&& list.len() == items.len()
            &&& forall|i: int|
                0 <= i < list.len() ==> items[i] == Ok::<Option<T>, SessionStoreError>(
                    Some(#[trigger] list[i]),
                )
        },
    decreases items.len(),
{
    if items.len() > 0 {
        let front = items.drop_last();
        assert forall|i: int| 0 <= i < front.len() implies #[trigger] front[i] != Ok::<
            Option<T>,
            SessionStoreError,
        >(None) by {
            assert(front[i] == items[i]);
        }
        law_gathered_one_by_one(front);
        assert(items.last() == items[items.len() - 1]);
        if let Ok(list) = gathered(items) {
            let before = gathered(front)->Ok_0;
            assert forall|i: int| 0 <= i < list.len() implies items[i] == Ok::<
                Option<T>,
                SessionStoreError,
            >(Some(#[trigger] list[i])) by {
                if i < before.len() {
                    assert(list[i] == before[i]);
                    assert(front[i] == items[i]);
                }
            }
        }
    }
}

/// Gathered values stand in the order of their items.
pub proof fn law_gathered_in_order<T>(
    items: Seq<Result<Option<T>, SessionStoreError>>,
    a: int,
    b: int,
)
    requires
        gathered(items) is Ok,
        0 <= a < b < gathered(items)->Ok_0.len(),
    ensures
        exists|i: int, j: int|
            0 <= i < j < items.len() && #[trigger] items[i] == Ok::<Option<T>, SessionStoreError>(
                Some(gathered(items)->Ok_0[a]),
            ) && #[trigger] items[j] == Ok::<Option<T>, SessionStoreError>(
                Some(gathered(items)->Ok_0[b]),
            ),
    decreases items.len(),
{
    if items.len() > 0 {
        let front = items.drop_last();
        let list = gathered(items)->Ok_0;
        let before = gathered(front)->Ok_0;
        if b < before.len() {
            law_gathered_in_order(front, a, b);
            let (i, j) = choose|i: int, j: int|
                0 <= i < j < front.len() && #[trigger] front[i] == Ok::<
                    Option<T>,
                    SessionStoreError,
                >(Some(before[a])) && #[trigger] front[j] == Ok::<Option<T>, SessionStoreError>(
                    Some(before[b]),
                );
            assert(items[i] == front[i] && items[j] == front[j]);
            assert(list[a] == before[a] && list[b] == before[b]);
        } else {
            law_gathered_are_exactly_the_values(front, before[a]);
            assert(before.contains(before[a]));
            let i = choose|i: int|
                0 <= i < front.len() && front[i] == Ok::<Option<T>, SessionStoreError>(
                    Some(before[a]),
                );
            assert(items[i] == front[i]);
            assert(items[items.len() - 1] == items.last());
            assert(list[a] == before[a]);
        }
    }
}

// ---------------------------------------------------------------------------
// Events
// ---------------------------------------------------------------------------

/// An event has the columns of the row.
pub open spec fn tells_event(
    event: SessionEvent,
    row: SessionEventRow,
    parsed: Result<ThreadKey, String>,
) -> bool {
    &&& parsed == Ok::<ThreadKey, String>(event.thread_key)
    &&& event.event_id == row.event_id
    &&& event.execution_id == row.execution_id
    &&& event.event_type == row.event_type
    &&& event.payload == row.payload
    &&& event.created_at == row.created_at
}

/// Every listed event is one of the thread and lies after the given id; if an
/// execution was named, every one of them is of that execution. They stand in the
/// order of their ids, at most as many as were asked for. With room left, every event
/// of the thread after the given id, and of the named execution if one was, is listed;
/// without, those left out come behind the listed ones.
pub proof fn law_listed_events(
    rows: Seq<(SessionEventRow, Result<ThreadKey, String>)>,
    thread_key: Seq<char>,
    after_event_id: i64,
    execution_id: Option<&str>,
    limit: nat,
    list: Seq<SessionEvent>,
)
    requires
        gathered(
            first_of(
                events_in_order(rows).filter(
                    |r: (SessionEventRow, Result<ThreadKey, String>)|
                        event_follows(r.0, thread_key, after_event_id, execution_id),
                ),
                limit,
            ).map_values(
                |r: (SessionEventRow, Result<ThreadKey, String>)| listed_event(r.0, r.1),
            ),
        ) == Ok::<Seq<SessionEvent>, SessionStoreError>(list),
    ensures
        list.len() <= limit,
        forall|j: int|
            0 <= j < list.len() ==> (#[trigger] list[j]).event_id > after_event_id && (
            execution_id matches Some(id) ==> list[j].execution_id is Some
                && list[j].execution_id->0@ == id@) && exists|i: int|
                0 <= i < rows.len() && rows[i].0.thread_key@ == thread_key && tells_event(
                    list[j],
                    (#[trigger] rows[i]).0,
                    rows[i].1,
                ),
        forall|j: int, k: int|
            0 <= j < k < list.len() ==> (#[trigger] list[j]).event_id <= (
            #[trigger] list[k]).event_id,
        forall|i: int|
            0 <= i < rows.len() && (#[trigger] rows[i]).0.thread_key@ == thread_key
                && rows[i].0.event_id > after_event_id && (execution_id matches Some(id) ==> (
            rows[i].0.execution_id is Some && rows[i].0.execution_id->0@ == id@)) ==> {
                ||| exists|j: int|
                    0 <= j < list.len() && tells_event(#[trigger] list[j], rows[i].0, rows[i].1)
                ||| list.len() == limit && forall|j: int|
                    0 <= j < list.len() ==> (#[trigger] list[j]).event_id <= rows[i].0.event_id
            },
{
    let timed = |r: (SessionEventRow, Result<ThreadKey, String>)| (r.0.event_id as i128, r);
    let follows = |r: (SessionEventRow, Result<ThreadKey, String>)|
        event_follows(r.0, thread_key, after_event_id, execution_id);
    let read = |r: (SessionEventRow, Result<ThreadKey, String>)| listed_event(r.0, r.1);
    let sorted = events_in_order(rows);
    let kept = sorted.filter(follows);
    let wanted = first_of(kept, limit);
    let items = wanted.map_values(read);
    law_rows_by_time(rows, timed);
    law_filter_keeps_the_order(sorted, timed, follows);
    law_gathered_one_by_one(items);
    assert forall|j: int| 0 <= j < list.len() implies (#[trigger] list[j]).event_id > after_event_id
        && (execution_id matches Some(id) ==> list[j].execution_id is Some
        && list[j].execution_id->0@ == id@) && (exists|i: int|
        0 <= i < rows.len() && rows[i].0.thread_key@ == thread_key && tells_event(
            list[j],
            (#[trigger] rows[i]).0,
            rows[i].1,
        )) && tells_event(list[j], kept[j].0, kept[j].1) by {
        assert(items[j] == read(wanted[j]));
        assert(wanted[j] == kept[j]);
        sorted.lemma_filter_pred(follows, j);
        assert(kept.contains(kept[j]));
        sorted.lemma_filter_contains_rev(follows, kept[j]);
        let k = choose|k: int| 0 <= k < sorted.len() && sorted[k] == kept[j];
        assert(rows.contains(sorted[k]));
        let i = choose|i: int| 0 <= i < rows.len() && rows[i] == kept[j];
        assert(tells_event(list[j], rows[i].0, rows[i].1));
    }
    assert forall|j: int, k: int| 0 <= j < k < list.len() implies (#[trigger] list[j]).event_id <= (
    #[trigger] list[k]).event_id by {
        assert(timed(kept[j]).0 <= timed(kept[k]).0);
    }
    assert forall|i: int|
        0 <= i < rows.len() && (#[trigger] rows[i]).0.thread_key@ == thread_key
            && rows[i].0.event_id > after_event_id && (execution_id matches Some(id) ==> (
        rows[i].0.execution_id is Some && rows[i].0.execution_id->0@ == id@)) implies {
        ||| exists|j: int|
            0 <= j < list.len() && tells_event(#[trigger] list[j], rows[i].0, rows[i].1)
        ||| list.len() == limit && forall|j: int|
            0 <= j < list.len() ==> (#[trigger] list[j]).event_id <= rows[i].0.event_id
    } by {
        assert(sorted.contains(rows[i]));
        let k = choose|k: int| 0 <= k < sorted.len() && sorted[k] == rows[i];
        assert(follows(sorted[k]));
        sorted.lemma_filter_contains(follows, k);
        let m = choose|m: int| 0 <= m < kept.len() && kept[m] == rows[i];
        if m < list.len() {
            assert(tells_event(list[m], rows[i].0, rows[i].1));
        } else {
            assert forall|j: int| 0 <= j < list.len() implies (#[trigger] list[j]).event_id
                <= rows[i].0.event_id by {
                assert(timed(kept[j]).0 <= timed(kept[m]).0);
            }
        }
    }
}

// ---------------------------------------------------------------------------
// Executions
// ---------------------------------------------------------------------------

/// An execution has the columns of the row, and the key and status that were read.
pub open spec fn tells_execution(
    execution: SessionExecution,
    row: SessionExecutionRow,
    parses: SessionExecutionRowParses,
) -> bool {
    &&& parses.thread_key == Ok::<ThreadKey, String>(execution.thread_key)
    &&& parses.status == Ok::<ExecutionStatus, String>(execution.status)
    &&& execution.execution_id == row.execution_id
    &&& execution.idempotency_key == row.idempotency_key
    &&& execution.metadata == row.metadata
    &&& execution.error == row.error
    &&& execution.created_at == row.created_at
    &&& execution.updated_at == row.updated_at
    &&& execution.started_at == row.started_at
    &&& execution.completed_at == row.completed_at
}

/// The listed executions are those that are queued or running, all of them, the oldest
/// first.
pub proof fn law_listed_active_executions(
    rows: Seq<(SessionExecutionRow, SessionExecutionRowParses)>,
    list: Seq<SessionExecution>,
)
    requires
        gathered(
            executions_in_order(rows).map_values(
                |r: (SessionExecutionRow, SessionExecutionRowParses)| active_read(r.0, r.1),
            ),
        ) == Ok::<Seq<SessionExecution>, SessionStoreError>(list),
    ensures
        forall|e: SessionExecution| #[trigger]
            list.contains(e) ==> exists|i: int|
                0 <= i < rows.len() && ((#[trigger] rows[i]).0.status@ == "queued"@
                    || rows[i].0.status@ == "running"@) && tells_execution(e, rows[i].0, rows[i].1),
        forall|i: int|
            0 <= i < rows.len() && ((#[trigger] rows[i]).0.status@ == "queued"@
                || rows[i].0.status@ == "running"@) ==> exists|e: SessionExecution| #[trigger]
                list.contains(e) && tells_execution(e, rows[i].0, rows[i].1),
        forall|j: int, k: int|
            0 <= j < k < list.len() ==> (#[trigger] list[j]).created_at <= (
            #[trigger] list[k]).created_at,
{
    let timed = |r: (SessionExecutionRow, SessionExecutionRowParses)| (r.0.created_at, r);
    let read = |r: (SessionExecutionRow, SessionExecutionRowParses)| active_read(r.0, r.1);
    let sorted = executions_in_order(rows);
    let items = sorted.map_values(read);
    law_rows_by_time(rows, timed);
    assert forall|e: SessionExecution| #[trigger] list.contains(e) implies exists|i: int|
        0 <= i < rows.len() && ((#[trigger] rows[i]).0.status@ == "queued"@ || rows[i].0.status@
            == "running"@) && tells_execution(e, rows[i].0, rows[i].1) by {
        law_gathered_are_exactly_the_values(items, e);
        let k = choose|k: int|
            0 <= k < items.len() && items[k] == Ok::<Option<SessionExecution>, SessionStoreError>(
                Some(e),
            );
        assert(items[k] == read(sorted[k]));
        assert(rows.contains(sorted[k]));
        let i = choose|i: int| 0 <= i < rows.len() && rows[i] == sorted[k];
        assert(tells_execution(e, rows[i].0, rows[i].1));
    }
    assert forall|i: int|
        0 <= i < rows.len() && ((#[trigger] rows[i]).0.status@ == "queued"@ || rows[i].0.status@
            == "running"@) implies exists|e: SessionExecution| #[trigger]
        list.contains(e) && tells_execution(e, rows[i].0, rows[i].1) by {
        assert(sorted.contains(rows[i]));
        let k = choose|k: int| 0 <= k < sorted.len() && sorted[k] == rows[i];
        assert(items[k] == read(sorted[k]));
        if items[k] is Ok {
            let e = items[k]->Ok_0->0;
            law_gathered_are_exactly_the_values(items, e);
            assert(list.contains(e));
        } else {
            law_gathered_are_exactly_the_values(items, arbitrary());
        }
    }
    assert forall|j: int, k: int| 0 <= j < k < list.len() implies (#[trigger] list[j]).created_at
        <= (#[trigger] list[k]).created_at by {
        law_gathered_in_order(items, j, k);
        let (a, b) = choose|a: int, b: int|
            0 <= a < b < items.len() && #[trigger] items[a] == Ok::<
                Option<SessionExecution>,
                SessionStoreError,
            >(Some(list[j])) && #[trigger] items[b] == Ok::<
                Option<SessionExecution>,
                SessionStoreError,
            >(Some(list[k]));
        assert(items[a] == read(sorted[a]) && items[b] == read(sorted[b]));
        assert(timed(sorted[a]).0 <= timed(sorted[b]).0);
    }
}

/// The listed executions with their owners are those that are queued or running, all
/// of them, the oldest first; each with its recorded owner, and with whether the
/// owner's lease ends later.
pub proof fn law_listed_owned_executions(
    rows: Seq<(SessionExecutionRow, SessionExecutionRowParses)>,
    at: Timestamp,
    list: Seq<ActiveExecutionOwnership>,
)
    requires
        gathered(
            executions_in_order(rows).map_values(
                |r: (SessionExecutionRow, SessionExecutionRowParses)|
                    ownership_read(r.0, r.1, at),
            ),
        ) == Ok::<Seq<ActiveExecutionOwnership>, SessionStoreError>(list),
    ensures
        forall|e: ActiveExecutionOwnership| #[trigger]
            list.contains(e) ==> exists|i: int|
                0 <= i < rows.len() && ((#[trigger] rows[i]).0.status@ == "queued"@
                    || rows[i].0.status@ == "running"@) && tells_execution(
                    e.execution,
                    rows[i].0,
                    rows[i].1,
                ) && e.stdout_owner_id == rows[i].0.stdout_owner_id && (
                e.stdout_owner_lease_active <==> rows[i].0.stdout_owner_lease_expires_at is Some
                    && rows[i].0.stdout_owner_lease_expires_at->0 > at),
        forall|i: int|
            0 <= i < rows.len() && ((#[trigger] rows[i]).0.status@ == "queued"@
                || rows[i].0.status@ == "running"@) ==> exists|
                e: ActiveExecutionOwnership,
            | #[trigger]
                list.contains(e) && tells_execution(e.execution, rows[i].0, rows[i].1),
        forall|j: int, k: int|
            0 <= j < k < list.len() ==> (#[trigger] list[j]).execution.created_at <= (
            #[trigger] list[k]).execution.created_at,
{
    let timed = |r: (SessionExecutionRow, SessionExecutionRowParses)| (r.0.created_at, r);
    let read = |r: (SessionExecutionRow, SessionExecutionRowParses)| ownership_read(r.0, r.1, at);
    let sorted = executions_in_order(rows);
    let items = sorted.map_values(read);
    law_rows_by_time(rows, timed);
    assert forall|e: ActiveExecutionOwnership| #[trigger] list.contains(e) implies exists|i: int|
        0 <= i < rows.len() && ((#[trigger] rows[i]).0.status@ == "queued"@ || rows[i].0.status@
            == "running"@) && tells_execution(e.execution, rows[i].0, rows[i].1)
            && e.stdout_owner_id == rows[i].0.stdout_owner_id && (e.stdout_owner_lease_active
            <==> rows[i].0.stdout_owner_lease_expires_at is Some
            && rows[i].0.stdout_owner_lease_expires_at->0 > at) by {
        law_gathered_are_exactly_the_values(items, e);
        let k = choose|k: int|
            0 <= k < items.len() && items[k] == Ok::<
                Option<ActiveExecutionOwnership>,
                SessionStoreError,
            >(Some(e));
        assert(items[k] == read(sorted[k]));
        assert(rows.contains(sorted[k]));
        let i = choose|i: int| 0 <= i < rows.len() && rows[i] == sorted[k];
        assert(tells_execution(e.execution, rows[i].0, rows[i].1));
    }
    assert forall|i: int|
        0 <= i < rows.len() && ((#[trigger] rows[i]).0.status@ == "queued"@ || rows[i].0.status@
            == "running"@) implies exists|e: ActiveExecutionOwnership| #[trigger]
        list.contains(e) && tells_execution(e.execution, rows[i].0, rows[i].1) by {
        assert(sorted.contains(rows[i]));
        let k = choose|k: int| 0 <= k < sorted.len() && sorted[k] == rows[i];
        assert(items[k] == read(sorted[k]));
        if items[k] is Ok {
            let e = items[k]->Ok_0->0;
            law_gathered_are_exactly_the_values(items, e);
            assert(list.contains(e));
        } else {
            law_gathered_are_exactly_the_values(items, arbitrary());
        }
    }
    assert forall|j: int, k: int| 0 <= j < k < list.len() implies (
    #[trigger] list[j]).execution.created_at <= (#[trigger] list[k]).execution.created_at by {
        law_gathered_in_order(items, j, k);
        let (a, b) = choose|a: int, b: int|
            0 <= a < b < items.len() && #[trigger] items[a] == Ok::<
                Option<ActiveExecutionOwnership>,
                SessionStoreError,
            >(Some(list[j])) && #[trigger] items[b] == Ok::<
                Option<ActiveExecutionOwnership>,
                SessionStoreError,
            >(Some(list[k]));
        assert(items[a] == read(sorted[a]) && items[b] == read(sorted[b]));
        assert(timed(sorted[a]).0 <= timed(sorted[b]).0);
    }
}

// ---------------------------------------------------------------------------
// Sessions and workflows
// ---------------------------------------------------------------------------

/// A session row is listed exactly if it has a sandbox and is bound to a principal or
/// traced; then with its own columns.
pub proof fn law_listed_principal_sandbox(row: SessionRow, parses: SessionRowParses)
    ensures
        principal_sandbox_read(row, parses) == Ok::<Option<Session>, SessionStoreError>(None)
            <==> row.sandbox.sandbox_id is None || (row.iron_control_principal is None
            && row.sandbox.trace.enabled != Some(true)),
        principal_sandbox_read(row, parses) matches Ok(Some(session)) ==> {
            &&& session.sandbox_id == row.sandbox.sandbox_id
            &&& session.iron_control_principal == row.iron_control_principal
            &&& parses.thread_key == Ok::<ThreadKey, String>(session.thread_key)
        },
{
}

/// A sandbox is listed for a workflow run exactly if its session has one, is marked as
/// owned by a workflow with the text `true`, and names that very run.
pub proof fn law_listed_workflow_sandbox(seen: WorkflowObservation, run: Seq<char>)
    ensures
        workflow_sandbox(seen, run) != Ok::<Option<WorkflowOwnedSandbox>, SessionStoreError>(None)
            <==> {
            &&& seen.sandbox_id is Some
            &&& seen.workflow_owned_thread is Some && seen.workflow_owned_thread->0@ == "true"@
            &&& seen.workflow_run_id is Some && seen.workflow_run_id->0@ == run
        },
        workflow_sandbox(seen, run) matches Ok(Some(sandbox)) ==> {
            &&& seen.sandbox_id == Some(sandbox.sandbox_id)
            &&& sandbox.resource_uid == seen.resource_uid
            &&& sandbox.assignment_epoch == seen.assignment_epoch
            &&& seen.thread_key == Ok::<ThreadKey, String>(sandbox.thread_key)
        },
{
}

// ---------------------------------------------------------------------------
// Messages
// ---------------------------------------------------------------------------

/// The messages of a thread are all its rows and no other thread's, the oldest first.
pub proof fn law_listed_messages(
    rows: Seq<(SessionMessageRow, SessionMessageRowParses)>,
    thread: Seq<char>,
    list: Vec<SessionMessage>,
)
    requires
        messages_read(Ok::<Vec<SessionMessage>, SessionStoreError>(list), messages_of(rows, thread)),
    ensures
        forall|j: int|
            0 <= j < list@.len() ==> exists|i: int|
                0 <= i < rows.len() && (#[trigger] rows[i]).0.thread_key@ == thread
                    && rows[i].0.message_id == (#[trigger] list@[j]).message_id,
        forall|i: int|
            0 <= i < rows.len() && (#[trigger] rows[i]).0.thread_key@ == thread ==> exists|j: int|
                0 <= j < list@.len() && (#[trigger] list@[j]).message_id == rows[i].0.message_id
                    && list@[j].client_message_id == rows[i].0.client_message_id
                    && list@[j].metadata == rows[i].0.metadata && list@[j].created_at
                    == rows[i].0.created_at,
        forall|j: int, k: int|
            0 <= j < k < list@.len() ==> (#[trigger] list@[j]).created_at <= (
            #[trigger] list@[k]).created_at,
{
    let timed = |r: (SessionMessageRow, SessionMessageRowParses)| (r.0.created_at, r);
    let of_thread = |r: (SessionMessageRow, SessionMessageRowParses)| is_of_thread(r.0, thread);
    let kept = rows.filter(of_thread);
    let sorted = messages_of(rows, thread);
    assert(sorted == messages_in_order(kept));
    law_rows_by_time(kept, timed);
    assert forall|j: int| 0 <= j < list@.len() implies exists|i: int|
        0 <= i < rows.len() && (#[trigger] rows[i]).0.thread_key@ == thread
            && rows[i].0.message_id == (#[trigger] list@[j]).message_id by {
        let one = list@[j];
        assert(kept.contains(sorted[j]));
        let m = choose|m: int| 0 <= m < kept.len() && kept[m] == sorted[j];
        rows.lemma_filter_pred(of_thread, m);
        rows.lemma_filter_contains_rev(of_thread, sorted[j]);
        let i = choose|i: int| 0 <= i < rows.len() && rows[i] == sorted[j];
        assert(rows[i].0.message_id == one.message_id);
    }
    assert forall|i: int|
        0 <= i < rows.len() && (#[trigger] rows[i]).0.thread_key@ == thread implies exists|j: int|
        0 <= j < list@.len() && (#[trigger] list@[j]).message_id == rows[i].0.message_id
            && list@[j].client_message_id == rows[i].0.client_message_id && list@[j].metadata
            == rows[i].0.metadata && list@[j].created_at == rows[i].0.created_at by {
        assert(of_thread(rows[i]));
        rows.lemma_filter_contains(of_thread, i);
        let m = choose|m: int| 0 <= m < kept.len() && kept[m] == rows[i];
        assert(sorted.contains(kept[m]));
        let j = choose|j: int| 0 <= j < sorted.len() && sorted[j] == rows[i];
        assert(list@[j].message_id == rows[i].0.message_id);
    }
    assert forall|j: int, k: int| 0 <= j < k < list@.len() implies (#[trigger] list@[j]).created_at
        <= (#[trigger] list@[k]).created_at by {
        assert(timed(sorted[j]).0 <= timed(sorted[k]).0);
    }
}

// ---------------------------------------------------------------------------
// Deliveries
// ---------------------------------------------------------------------------

proof fn lemma_listed_deliveries(
    rows: Seq<FoundDelivery>,
    qualifies: spec_fn(FoundDelivery) -> bool,
    list: Vec<SessionInputDelivery>,
)
    requires
        deliveries_read(
            Ok::<Vec<SessionInputDelivery>, SessionStoreError>(list),
            deliveries_in_order(rows).filter(qualifies),
        ),
    ensures
        forall|j: int|
            0 <= j < list@.len() ==> (#[trigger] list@[j]).delivery_id@.len() >= 0 && exists|i: int|
                0 <= i < rows.len() && qualifies(#[trigger] rows[i]) && delivery_is(
                    list@[j],
                    rows[i].row,
                    list@[j].thread_key,
                ),
        forall|i: int|
            0 <= i < rows.len() && qualifies(#[trigger] rows[i]) ==> exists|j: int|
                0 <= j < list@.len() && delivery_is(
                    #[trigger] list@[j],
                    rows[i].row,
                    list@[j].thread_key,
                ),
        forall|j: int, k: int|
            0 <= j < k < list@.len() ==> (#[trigger] list@[j]).created_at <= (
            #[trigger] list@[k]).created_at,
{
    let timed = |r: FoundDelivery| (r.row.created_at, r);
    let sorted = deliveries_in_order(rows);
    let kept = sorted.filter(qualifies);
    law_rows_by_time(rows, timed);
    law_filter_keeps_the_order(sorted, timed, qualifies);
    assert forall|j: int| 0 <= j < list@.len() implies (#[trigger] list@[j]).delivery_id@.len() >= 0
        && exists|i: int|
        0 <= i < rows.len() && qualifies(#[trigger] rows[i]) && delivery_is(
            list@[j],
            rows[i].row,
            list@[j].thread_key,
        ) by {
        sorted.lemma_filter_pred(qualifies, j);
        assert(kept.contains(kept[j]));
        sorted.lemma_filter_contains_rev(qualifies, kept[j]);
        let k = choose|k: int| 0 <= k < sorted.len() && sorted[k] == kept[j];
        assert(rows.contains(sorted[k]));
        let i = choose|i: int| 0 <= i < rows.len() && rows[i] == kept[j];
        assert(readable(kept[j].row, kept[j].thread_key));
        assert(delivery_is(list@[j], rows[i].row, list@[j].thread_key));
    }
    assert forall|i: int| 0 <= i < rows.len()
        && qualifies(#[trigger] rows[i]) implies exists|j: int|
        0 <= j < list@.len() && delivery_is(
            #[trigger] list@[j],
            rows[i].row,
            list@[j].thread_key,
        ) by {
        assert(sorted.contains(rows[i]));
        let k = choose|k: int| 0 <= k < sorted.len() && sorted[k] == rows[i];
        assert(qualifies(sorted[k]));
        sorted.lemma_filter_contains(qualifies, k);
        let m = choose|m: int| 0 <= m < kept.len() && kept[m] == rows[i];
        assert(delivery_is(list@[m], rows[i].row, list@[m].thread_key));
    }
    assert forall|j: int, k: int| 0 <= j < k < list@.len() implies (#[trigger] list@[j]).created_at
        <= (#[trigger] list@[k]).created_at by {
        assert(delivery_is(list@[j], kept[j].row, kept[j].thread_key->Ok_0));
        assert(delivery_is(list@[k], kept[k].row, kept[k].thread_key->Ok_0));
        assert(timed(kept[j]).0 <= timed(kept[k]).0);
    }
}

proof fn lemma_state_of_listed(
    delivery: SessionInputDelivery,
    row: SessionInputDeliveryRow,
    at: Timestamp,
)
    requires
        delivery_is(delivery, row, delivery.thread_key),
    ensures
        unresolved(row.state@) ==> delivery.state is Pending || delivery.state is Claimed
            || delivery.state is Ambiguous,
        recoverable(row, at) ==> delivery.state is Pending || delivery.state is Ambiguous || (
        delivery.state is Claimed && (delivery.owner_lease_expires_at matches Some(until) && until
            <= at)),
        delivery.delivery_id == row.delivery_id,
        delivery.execution_id == row.execution_id,
        delivery.sequence == row.sequence,
        delivery.owner_generation == row.owner_generation,
{
    law_delivery_states(row, at);
}

/// The deliveries listed as owed are those that are pending, claimed or ambiguous, all
/// of them, the oldest first.
pub proof fn law_listed_unresolved_deliveries(
    rows: Seq<FoundDelivery>,
    list: Vec<SessionInputDelivery>,
)
    requires
        deliveries_read(
            Ok::<Vec<SessionInputDelivery>, SessionStoreError>(list),
            deliveries_in_order(rows).filter(|found: FoundDelivery| unresolved(found.row.state@)),
        ),
    ensures
        forall|j: int|
            0 <= j < list@.len() ==> (#[trigger] list@[j]).state is Pending
                || list@[j].state is Claimed || list@[j].state is Ambiguous,
        forall|i: int|
            0 <= i < rows.len() && ((#[trigger] rows[i]).row.state@ == "pending"@
                || rows[i].row.state@ == "claimed"@ || rows[i].row.state@ == "ambiguous"@)
                ==> exists|j: int|
                0 <= j < list@.len() && (#[trigger] list@[j]).delivery_id
                    == rows[i].row.delivery_id && list@[j].execution_id
                    == rows[i].row.execution_id && list@[j].sequence == rows[i].row.sequence
                    && list@[j].owner_generation == rows[i].row.owner_generation,
        forall|j: int, k: int|
            0 <= j < k < list@.len() ==> (#[trigger] list@[j]).created_at <= (
            #[trigger] list@[k]).created_at,
{
    let qualifies = |found: FoundDelivery| unresolved(found.row.state@);
    lemma_listed_deliveries(rows, qualifies, list);
    assert forall|j: int| 0 <= j < list@.len() implies (#[trigger] list@[j]).state is Pending
        || list@[j].state is Claimed || list@[j].state is Ambiguous by {
        assert(list@[j].delivery_id@.len() >= 0);
        let i = choose|i: int|
            0 <= i < rows.len() && qualifies(#[trigger] rows[i]) && delivery_is(
                list@[j],
                rows[i].row,
                list@[j].thread_key,
            );
        lemma_state_of_listed(list@[j], rows[i].row, 0);
    }
    assert forall|i: int|
        0 <= i < rows.len() && ((#[trigger] rows[i]).row.state@ == "pending"@ || rows[i].row.state@
            == "claimed"@ || rows[i].row.state@ == "ambiguous"@) implies exists|j: int|
        0 <= j < list@.len() && (#[trigger] list@[j]).delivery_id == rows[i].row.delivery_id
            && list@[j].execution_id == rows[i].row.execution_id && list@[j].sequence
            == rows[i].row.sequence && list@[j].owner_generation
            == rows[i].row.owner_generation by {
        assert(qualifies(rows[i]));
        let j = choose|j: int|
            0 <= j < list@.len() && delivery_is(
                #[trigger] list@[j],
                rows[i].row,
                list@[j].thread_key,
            );
        lemma_state_of_listed(list@[j], rows[i].row, 0);
    }
}

/// The deliveries listed as recoverable are those that are pending or ambiguous, or
/// claimed under a lease that has run out, all of them, the oldest first.
pub proof fn law_listed_recoverable_deliveries(
    rows: Seq<FoundDelivery>,
    at: Timestamp,
    list: Vec<SessionInputDelivery>,
)
    requires
        deliveries_read(
            Ok::<Vec<SessionInputDelivery>, SessionStoreError>(list),
            deliveries_in_order(rows).filter(|found: FoundDelivery| recoverable(found.row, at)),
        ),
    ensures
        forall|j: int|
            0 <= j < list@.len() ==> (#[trigger] list@[j]).state is Pending
                || list@[j].state is Ambiguous || (list@[j].state is Claimed && (
            list@[j].owner_lease_expires_at matches Some(until) && until <= at)),
        forall|i: int|
            0 <= i < rows.len() && ((#[trigger] rows[i]).row.state@ == "pending"@
                || rows[i].row.state@ == "ambiguous"@ || (rows[i].row.state@ == "claimed"@
                && rows[i].row.owner_lease_expires_at is Some
                && rows[i].row.owner_lease_expires_at->0 <= at)) ==> exists|j: int|
                0 <= j < list@.len() && (#[trigger] list@[j]).delivery_id
                    == rows[i].row.delivery_id && list@[j].execution_id
                    == rows[i].row.execution_id && list@[j].sequence == rows[i].row.sequence
                    && list@[j].owner_generation == rows[i].row.owner_generation,
        forall|j: int, k: int|
            0 <= j < k < list@.len() ==> (#[trigger] list@[j]).created_at <= (
            #[trigger] list@[k]).created_at,
{
    let qualifies = |found: FoundDelivery| recoverable(found.row, at);
    lemma_listed_deliveries(rows, qualifies, list);
    assert forall|j: int| 0 <= j < list@.len() implies (#[trigger] list@[j]).state is Pending
        || list@[j].state is Ambiguous || (list@[j].state is Claimed && (
    list@[j].owner_lease_expires_at matches Some(until) && until <= at)) by {
        assert(list@[j].delivery_id@.len() >= 0);
        let i = choose|i: int|
            0 <= i < rows.len() && qualifies(#[trigger] rows[i]) && delivery_is(
                list@[j],
                rows[i].row,
                list@[j].thread_key,
            );
        lemma_state_of_listed(list@[j], rows[i].row, at);
    }
    assert forall|i: int|
        0 <= i < rows.len() && ((#[trigger] rows[i]).row.state@ == "pending"@ || rows[i].row.state@
            == "ambiguous"@ || (rows[i].row.state@ == "claimed"@
            && rows[i].row.owner_lease_expires_at is Some
            && rows[i].row.owner_lease_expires_at->0 <= at)) implies exists|j: int|
        0 <= j < list@.len() && (#[trigger] list@[j]).delivery_id == rows[i].row.delivery_id
            && list@[j].execution_id == rows[i].row.execution_id && list@[j].sequence
            == rows[i].row.sequence && list@[j].owner_generation
            == rows[i].row.owner_generation by {
        assert(qualifies(rows[i]));
        let j = choose|j: int|
            0 <= j < list@.len() && delivery_is(
                #[trigger] list@[j],
                rows[i].row,
                list@[j].thread_key,
            );
        lemma_state_of_listed(list@[j], rows[i].row, 0);
    }
}

// ---------------------------------------------------------------------------
// Refusals
// ---------------------------------------------------------------------------

/// A listing is refused exactly if an item is, and then with the words of the first that
/// is.
pub proof fn law_first_refusal_is_told<T>(items: Seq<Result<Option<T>, SessionStoreError>>, k: int)
    requires
        0 <= k < items.len(),
        items[k] is Err,
        forall|i: int| 0 <= i < k ==> (#[trigger] items[i]) is Ok,
    ensures
        gathered(items) == Err::<Seq<T>, SessionStoreError>(items[k]->Err_0),
    decreases items.len(),
{
    let front = items.drop_last();
    assert forall|i: int| 0 <= i < front.len() implies #[trigger] front[i] == items[i] by {}
    if k < front.len() {
        law_first_refusal_is_told(front, k);
    } else {
        law_gathered_are_exactly_the_values(front, arbitrary());
        if gathered(front) is Err {
            let i = choose|i: int| 0 <= i < front.len() && (#[trigger] front[i]) is Err;
            assert(items[i] is Err);
        }
    }
}

/// Messages are refused only for one of the thread whose key or role cannot be read, and
/// with its words; every older one of the thread can be read.
pub proof fn law_refused_messages(
    rows: Seq<(SessionMessageRow, SessionMessageRowParses)>,
    thread: Seq<char>,
    error: SessionStoreError,
)
    requires
        messages_read(
            Err::<Vec<SessionMessage>, SessionStoreError>(error),
            messages_of(rows, thread),
        ),
    ensures
        exists|i: int|
            {
                &&& 0 <= i < rows.len()
                &&& (#[trigger] rows[i]).0.thread_key@ == thread
                &&& rows[i].1.thread_key is Err ==> error
                    == SessionStoreError::InvalidPersistedValue(rows[i].1.thread_key->Err_0)
                &&& rows[i].1.thread_key is Ok ==> rows[i].1.role is Err && error
                    == SessionStoreError::InvalidPersistedValue(rows[i].1.role->Err_0)
                &&& forall|j: int|
                    0 <= j < rows.len() && (#[trigger] rows[j]).0.thread_key@ == thread
                        && rows[j].0.created_at < rows[i].0.created_at
                        ==> rows[j].1.thread_key is Ok && rows[j].1.role is Ok
            },
{
    let timed = |r: (SessionMessageRow, SessionMessageRowParses)| (r.0.created_at, r);
    let of_thread = |r: (SessionMessageRow, SessionMessageRowParses)| is_of_thread(r.0, thread);
    let kept = rows.filter(of_thread);
    let sorted = messages_of(rows, thread);
    assert(sorted == messages_in_order(kept));
    law_rows_by_time(kept, timed);
    let k = choose|k: int|
        {
            &&& 0 <= k < sorted.len()
            &&& message_read(
                Err::<SessionMessage, SessionStoreError>(error),
                (#[trigger] sorted[k]).0,
                sorted[k].1,
            )
            &&& forall|i: int|
                0 <= i < k ==> (#[trigger] sorted[i]).1.thread_key is Ok && sorted[i].1.role is Ok
        };
    assert(kept.contains(sorted[k]));
    let m = choose|m: int| 0 <= m < kept.len() && kept[m] == sorted[k];
    rows.lemma_filter_pred(of_thread, m);
    rows.lemma_filter_contains_rev(of_thread, sorted[k]);
    let i = choose|i: int| 0 <= i < rows.len() && rows[i] == sorted[k];
    assert(rows[i].0.thread_key@ == thread);
    assert forall|j: int|
        0 <= j < rows.len() && (#[trigger] rows[j]).0.thread_key@ == thread
            && rows[j].0.created_at < rows[i].0.created_at implies rows[j].1.thread_key is Ok
        && rows[j].1.role is Ok by {
        assert(of_thread(rows[j]));
        rows.lemma_filter_contains(of_thread, j);
        let w = choose|w: int| 0 <= w < kept.len() && kept[w] == rows[j];
        assert(sorted.contains(kept[w]));
        let p = choose|p: int| 0 <= p < sorted.len() && sorted[p] == rows[j];
        if p > k {
            assert(timed(sorted[k]).0 <= timed(sorted[p]).0);
        }
        assert(p < k);
    }
}

/// Deliveries are refused only for one that qualifies and cannot be read, and as that one
/// is refused; every older one that qualifies can be read.
pub proof fn law_refused_deliveries(
    rows: Seq<FoundDelivery>,
    qualifies: spec_fn(FoundDelivery) -> bool,
    error: SessionStoreError,
)
    requires
        deliveries_read(
            Err::<Vec<SessionInputDelivery>, SessionStoreError>(error),
            deliveries_in_order(rows).filter(qualifies),
        ),
    ensures
        exists|i: int|
            {
                &&& 0 <= i < rows.len()
                &&& qualifies(#[trigger] rows[i])
                &&& !readable(rows[i].row, rows[i].thread_key)
                &&& is_refusal(error, rows[i].row, rows[i].thread_key)
                &&& forall|j: int|
                    0 <= j < rows.len() && qualifies(#[trigger] rows[j]) && rows[j].row.created_at
                        < rows[i].row.created_at ==> readable(rows[j].row, rows[j].thread_key)
            },
{
    let timed = |r: FoundDelivery| (r.row.created_at, r);
    let sorted = deliveries_in_order(rows);
    let kept = sorted.filter(qualifies);
    law_rows_by_time(rows, timed);
    law_filter_keeps_the_order(sorted, timed, qualifies);
    let k = choose|k: int|
        {
            &&& 0 <= k < kept.len()
            &&& !readable((#[trigger] kept[k]).row, kept[k].thread_key)
            &&& is_refusal(error, kept[k].row, kept[k].thread_key)
            &&& forall|i: int|
                0 <= i < k ==> readable((#[trigger] kept[i]).row, kept[i].thread_key)
        };
    sorted.lemma_filter_pred(qualifies, k);
    assert(kept.contains(kept[k]));
    sorted.lemma_filter_contains_rev(qualifies, kept[k]);
    let s = choose|s: int| 0 <= s < sorted.len() && sorted[s] == kept[k];
    assert(rows.contains(sorted[s]));
    let i = choose|i: int| 0 <= i < rows.len() && rows[i] == kept[k];
    assert forall|j: int|
        0 <= j < rows.len() && qualifies(#[trigger] rows[j]) && rows[j].row.created_at
            < rows[i].row.created_at implies readable(rows[j].row, rows[j].thread_key) by {
        assert(sorted.contains(rows[j]));
        let p = choose|p: int| 0 <= p < sorted.len() && sorted[p] == rows[j];
        assert(qualifies(sorted[p]));
        sorted.lemma_filter_contains(qualifies, p);
        let m = choose|m: int| 0 <= m < kept.len() && kept[m] == rows[j];
        if m > k {
            assert(timed(kept[k]).0 <= timed(kept[m]).0);
        }
        assert(m < k);
    }
    assert(qualifies(rows[i]));
}

/// Deliveries are listed only if every one that qualifies can be read.
pub proof fn law_listed_deliveries_are_readable(
    rows: Seq<FoundDelivery>,
    qualifies: spec_fn(FoundDelivery) -> bool,
    list: Vec<SessionInputDelivery>,
    i: int,
)
    requires
        deliveries_read(
            Ok::<Vec<SessionInputDelivery>, SessionStoreError>(list),
            deliveries_in_order(rows).filter(qualifies),
        ),
        0 <= i < rows.len(),
        qualifies(rows[i]),
    ensures
        readable(rows[i].row, rows[i].thread_key),
        list@.len() <= rows.len(),
{
    let timed = |r: FoundDelivery| (r.row.created_at, r);
    let sorted = deliveries_in_order(rows);
    let kept = sorted.filter(qualifies);
    law_rows_by_time(rows, timed);
    sorted.lemma_filter_len(qualifies);
    assert(sorted.contains(rows[i]));
    let p = choose|p: int| 0 <= p < sorted.len() && sorted[p] == rows[i];
    assert(qualifies(sorted[p]));
    sorted.lemma_filter_contains(qualifies, p);
    let m = choose|m: int| 0 <= m < kept.len() && kept[m] == rows[i];
    assert(readable(kept[m].row, kept[m].thread_key));
}

} // verus!
