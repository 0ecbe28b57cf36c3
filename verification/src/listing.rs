//! Listings: rows that qualify are put in order and read one by one, and the first
//! that cannot be read refuses the whole listing. Rows of one time stay in the order
//! in which they were given.
use crate::delivery::{
    delivery_from_row, delivery_is, is_recoverable, is_refusal, is_unresolved, readable,
    recoverable, unresolved, FoundDelivery, SessionInputDelivery,
};
use crate::error::SessionStoreError;
use crate::execution::{
    active_execution_ownership, is_active, ownership_read, ActiveExecutionOwnership,
};
use crate::idle::{
    workflow_owned_sandbox, workflow_sandbox, WorkflowObservation, WorkflowOwnedSandbox,
};
use crate::listing_columns::{law_listed_events, tells_event};
use crate::model::{
    Session, SessionEvent, SessionExecution, SessionMessage, ThreadKey, Timestamp,
};
use crate::ordering::{by_time, values_by_time};
use crate::rows::{
    event_from_row, event_read, execution_from_row, execution_read, message_from_row,
    message_read, session_from_row, session_read, SessionEventRow, SessionExecutionRow,
    SessionExecutionRowParses, SessionMessageRow, SessionMessageRowParses, SessionRow,
    SessionRowParses,
};
use crate::session::{has_principal_sandbox, is_principal_sandbox};
use crate::text::{holds, opt_text_is, same_text};
use vstd::prelude::*;

verus! {

// ---------------------------------------------------------------------------
// Gathering
// ---------------------------------------------------------------------------

/// The values that were read, in their order, without those that do not qualify;
/// or the first refusal.
pub open spec fn gathered<T>(items: Seq<Result<Option<T>, SessionStoreError>>) -> Result<
    Seq<T>,
    SessionStoreError,
>
    decreases items.len(),
{
    if items.len() == 0 {
        Ok(Seq::empty())
    } else {
        match (gathered(items.drop_last()), items.last()) {
            (Err(error), _) => Err(error),
            (Ok(_), Err(error)) => Err(error),
            (Ok(list), Ok(None)) => Ok(list),
            (Ok(list), Ok(Some(value))) => Ok(list.push(value)),
        }
    }
}

/// A list read is the one stated.
pub open spec fn is_list<T>(
    read: Result<Vec<T>, SessionStoreError>,
    stated: Result<Seq<T>, SessionStoreError>,
) -> bool {
    match (read, stated) {
        (Ok(list), Ok(values)) => list@ == values,
        (Err(a), Err(b)) => a == b,
        _ => false,
    }
}

proof fn lemma_first_refusal_stays<T>(items: Seq<Result<Option<T>, SessionStoreError>>, n: int)
    requires
        0 <= n <= items.len(),
        gathered(items.take(n)) is Err,
    ensures
        gathered(items) == gathered(items.take(n)),
    decreases items.len() - n,
{
    if n == items.len() {
        assert(items.take(n) =~= items);
    } else {
        assert(items.take(n + 1).drop_last() =~= items.take(n));
        lemma_first_refusal_stays(items, n + 1);
    }
}

/// Gathers what was read.
pub fn gather<T>(items: Vec<Result<Option<T>, SessionStoreError>>) -> (list: Result<
    Vec<T>,
    SessionStoreError,
>)
    ensures
        is_list(list, gathered(items@)),
{
    let ghost all = items@;
    let mut list: Vec<T> = Vec::new();
    assert(all.take(0) =~= Seq::<Result<Option<T>, SessionStoreError>>::empty());
    for one in iter: items
        invariant
            all == items@,
            iter.seq() == all,
            gathered(all.take(iter.index())) == Ok::<Seq<T>, SessionStoreError>(list@),
    {
        proof {
            let n = iter.index();
            assert(one == all[n]);
            assert(all.take(n + 1).drop_last() =~= all.take(n));
            assert(all.take(n + 1).last() == one);
        }
        match one {
            Err(error) => {
                proof {
                    lemma_first_refusal_stays(all, iter.index() + 1);
                }
                return Err(error);
            },
            Ok(None) => {},
            Ok(Some(value)) => list.push(value),
        }
    }
    assert(all.take(all.len() as int) =~= all);
    Ok(list)
}

/// A value is gathered exactly if some item is it, provided no item is refused.
pub proof fn law_gathered_are_exactly_the_values<T>(
    items: Seq<Result<Option<T>, SessionStoreError>>,
    value: T,
)
    ensures
        gathered(items) matches Ok(list) ==> (list.contains(value) <==> items.contains(
            Ok::<Option<T>, SessionStoreError>(Some(value)),
        )),
        gathered(items) is Err <==> exists|i: int| 0 <= i < items.len() && (#[trigger] items[i]) is Err,
    decreases items.len(),
{
    if items.len() > 0 {
        let front = items.drop_last();
        law_gathered_are_exactly_the_values(front, value);
        assert forall|i: int| 0 <= i < front.len() implies #[trigger] front[i] == items[i] by {}
        let wanted = Ok::<Option<T>, SessionStoreError>(Some(value));
        if exists|i: int| 0 <= i < items.len() && (#[trigger] items[i]) is Err {
            let i = choose|i: int| 0 <= i < items.len() && (#[trigger] items[i]) is Err;
            if i < front.len() {
                assert(front[i] is Err);
            }
        }
        if exists|i: int| 0 <= i < front.len() && (#[trigger] front[i]) is Err {
            let i = choose|i: int| 0 <= i < front.len() && (#[trigger] front[i]) is Err;
            assert(items[i] is Err);
        }
        assert(items[items.len() - 1] == items.last());
        if let Ok(list) = gathered(items) {
            let before = gathered(front)->Ok_0;
            if front.contains(wanted) {
                let i = choose|i: int| 0 <= i < front.len() && front[i] == wanted;
                assert(items[i] == wanted);
            }
            if items.contains(wanted) {
                let i = choose|i: int| 0 <= i < items.len() && items[i] == wanted;
                if i < front.len() {
                    assert(front[i] == wanted);
                }
            }
            if before.contains(value) {
                let k = choose|k: int| 0 <= k < before.len() && before[k] == value;
                assert(list[k] == value);
            }
            if list.contains(value) {
                let k = choose|k: int| 0 <= k < list.len() && list[k] == value;
                if k < before.len() {
                    assert(before[k] == value);
                }
            }
            if items.last() == wanted {
                assert(list[list.len() - 1] == value);
            }
        }
    }
}

// ---------------------------------------------------------------------------
// Executions
// ---------------------------------------------------------------------------

/// Executions in the order of their creation.
pub open spec fn executions_in_order(rows: Seq<(SessionExecutionRow, SessionExecutionRowParses)>) -> Seq<(SessionExecutionRow, SessionExecutionRowParses)> {
    by_time(rows.map_values(|r: (SessionExecutionRow, SessionExecutionRowParses)| (r.0.created_at, r)))
}

fn sort_executions(rows: Vec<(SessionExecutionRow, SessionExecutionRowParses)>) -> (ordered: Vec<(SessionExecutionRow, SessionExecutionRowParses)>)
    ensures
        ordered@ == executions_in_order(rows@),
{
    let ghost timed = |r: (SessionExecutionRow, SessionExecutionRowParses)| (r.0.created_at, r);
    let ghost all = rows@;
    let mut items: Vec<(Timestamp, (SessionExecutionRow, SessionExecutionRowParses))> = Vec::new();
    for one in iter: rows
        invariant
            all == rows@,
            iter.seq() == all,
            timed == (|r: (SessionExecutionRow, SessionExecutionRowParses)| (r.0.created_at, r)),
            items@ == all.take(iter.index()).map_values(timed),
    {
        proof {
            let n = iter.index();
            assert(one == all[n]);
            assert(all.take(n + 1) =~= all.take(n).push(one));
        }
        items.push((one.0.created_at, one));
    }
    assert(all.take(all.len() as int) =~= all);
    values_by_time(items)
}

/// The active executions among the rows with who owns them, the oldest first.
pub fn list_active_executions_with_ownership(
    rows: Vec<(SessionExecutionRow, SessionExecutionRowParses)>,
    at: Timestamp,
) -> (list: Result<Vec<ActiveExecutionOwnership>, SessionStoreError>)
    ensures
        is_list(
            list,
            gathered(
                executions_in_order(rows@).map_values(
                    |r: (SessionExecutionRow, SessionExecutionRowParses)|
                        ownership_read(r.0, r.1, at),
                ),
            ),
        ),
{
    let rows = sort_executions(rows);
    let ghost read = |r: (SessionExecutionRow, SessionExecutionRowParses)|
        ownership_read(r.0, r.1, at);
    let ghost all = rows@;
    let mut items: Vec<Result<Option<ActiveExecutionOwnership>, SessionStoreError>> = Vec::new();
    for one in iter: rows
        invariant
            all == rows@,
            iter.seq() == all,
            read == (|r: (SessionExecutionRow, SessionExecutionRowParses)|
                ownership_read(r.0, r.1, at)),
            items@ == all.take(iter.index()).map_values(read),
    {
        proof {
            let n = iter.index();
            assert(one == all[n]);
            assert(all.take(n + 1) =~= all.take(n).push(one));
        }
        let (row, parses) = one;
        items.push(active_execution_ownership(row, parses, at));
    }
    assert(all.take(all.len() as int) =~= all);
    gather(items)
}

/// What an execution row comes to in a listing of the active ones.
pub open spec fn active_read(
    row: SessionExecutionRow,
    parses: SessionExecutionRowParses,
) -> Result<Option<SessionExecution>, SessionStoreError> {
    if !row.is_active() {
        Ok(None)
    } else {
        match execution_read(row, parses) {
            Err(error) => Err(error),
            Ok(execution) => Ok(Some(execution)),
        }
    }
}

/// The active executions among the rows, the oldest first.
pub fn list_active_executions(rows: Vec<(SessionExecutionRow, SessionExecutionRowParses)>) -> (list:
    Result<Vec<SessionExecution>, SessionStoreError>)
    ensures
        is_list(
            list,
            gathered(
                executions_in_order(rows@).map_values(
                    |r: (SessionExecutionRow, SessionExecutionRowParses)| active_read(r.0, r.1),
                ),
            ),
        ),
{
    let rows = sort_executions(rows);
    let ghost read = |r: (SessionExecutionRow, SessionExecutionRowParses)| active_read(r.0, r.1);
    let ghost all = rows@;
    let mut items: Vec<Result<Option<SessionExecution>, SessionStoreError>> = Vec::new();
    for one in iter: rows
        invariant
            all == rows@,
            iter.seq() == all,
            read == (|r: (SessionExecutionRow, SessionExecutionRowParses)| active_read(r.0, r.1)),
            items@ == all.take(iter.index()).map_values(read),
    {
        proof {
            let n = iter.index();
            assert(one == all[n]);
            assert(all.take(n + 1) =~= all.take(n).push(one));
        }
        let (row, parses) = one;
        if is_active(row.status.as_str()) {
            match execution_from_row(row, parses) {
                Err(error) => items.push(Err(error)),
                Ok(execution) => items.push(Ok(Some(execution))),
            }
        } else {
            items.push(Ok(None));
        }
    }
    assert(all.take(all.len() as int) =~= all);
    gather(items)
}

// ---------------------------------------------------------------------------
// Sessions
// ---------------------------------------------------------------------------

/// What a session row comes to in a listing of those with a sandbox that is bound
/// to a principal or traced.
pub open spec fn principal_sandbox_read(row: SessionRow, parses: SessionRowParses) -> Result<
    Option<Session>,
    SessionStoreError,
> {
    if !is_principal_sandbox(row) {
        Ok(None)
    } else {
        match session_read(row, parses) {
            Err(error) => Err(error),
            Ok(session) => Ok(Some(session)),
        }
    }
}

/// The sessions with a sandbox that is bound to a principal or traced.
pub fn list_principal_sandbox_sessions(rows: Vec<(SessionRow, SessionRowParses)>) -> (list: Result<
    Vec<Session>,
    SessionStoreError,
>)
    ensures
        is_list(
            list,
            gathered(
                rows@.map_values(
                    |r: (SessionRow, SessionRowParses)| principal_sandbox_read(r.0, r.1),
                ),
            ),
        ),
{
    let ghost read = |r: (SessionRow, SessionRowParses)| principal_sandbox_read(r.0, r.1);
    let ghost all = rows@;
    let mut items: Vec<Result<Option<Session>, SessionStoreError>> = Vec::new();
    for one in iter: rows
        invariant
            all == rows@,
            iter.seq() == all,
            read == (|r: (SessionRow, SessionRowParses)| principal_sandbox_read(r.0, r.1)),
            items@ == all.take(iter.index()).map_values(read),
    {
        proof {
            let n = iter.index();
            assert(one == all[n]);
            assert(all.take(n + 1) =~= all.take(n).push(one));
        }
        let (row, parses) = one;
        if has_principal_sandbox(&row) {
            match session_from_row(row, parses) {
                Err(error) => items.push(Err(error)),
                Ok(session) => items.push(Ok(Some(session))),
            }
        } else {
            items.push(Ok(None));
        }
    }
    assert(all.take(all.len() as int) =~= all);
    gather(items)
}

/// The sandboxes that a workflow run owns, in the order given.
pub fn list_workflow_owned_sandboxes(
    seen: Vec<WorkflowObservation>,
    workflow_run_id: &str,
) -> (list: Result<Vec<WorkflowOwnedSandbox>, SessionStoreError>)
    ensures
        is_list(
            list,
            gathered(
                seen@.map_values(|s: WorkflowObservation| workflow_sandbox(s, workflow_run_id@)),
            ),
        ),
{
    let ghost read = |s: WorkflowObservation| workflow_sandbox(s, workflow_run_id@);
    let ghost all = seen@;
    let mut items: Vec<Result<Option<WorkflowOwnedSandbox>, SessionStoreError>> = Vec::new();
    for one in iter: seen
        invariant
            all == seen@,
            iter.seq() == all,
            read == (|s: WorkflowObservation| workflow_sandbox(s, workflow_run_id@)),
            items@ == all.take(iter.index()).map_values(read),
    {
        proof {
            let n = iter.index();
            assert(one == all[n]);
            assert(all.take(n + 1) =~= all.take(n).push(one));
        }
        items.push(workflow_owned_sandbox(one, workflow_run_id));
    }
    assert(all.take(all.len() as int) =~= all);
    gather(items)
}

// ---------------------------------------------------------------------------
// Events and messages
// ---------------------------------------------------------------------------

/// An event of the thread lies after the given one, and is of the execution if one
/// is named.
pub open spec fn event_follows(
    row: SessionEventRow,
    thread_key: Seq<char>,
    after_event_id: i64,
    execution_id: Option<&str>,
) -> bool {
    &&& row.thread_key@ == thread_key
    &&& row.event_id > after_event_id
    &&& execution_id matches Some(id) ==> holds(row.execution_id, id@)
}

/// The first values of a list, at most so many.
pub open spec fn first_of<T>(list: Seq<T>, limit: nat) -> Seq<T> {
    if list.len() <= limit {
        list
    } else {
        list.take(limit as int)
    }
}

/// What an event row comes to in a listing.
pub open spec fn listed_event(row: SessionEventRow, parsed: Result<ThreadKey, String>) -> Result<
    Option<SessionEvent>,
    SessionStoreError,
> {
    match event_read(row, parsed) {
        Err(error) => Err(error),
        Ok(event) => Ok(Some(event)),
    }
}

fn is_following(
    row: &SessionEventRow,
    thread_key: &str,
    after_event_id: i64,
    execution_id: Option<&str>,
) -> (is: bool)
    ensures
        is == event_follows(*row, thread_key@, after_event_id, execution_id),
{
    let of_execution = match execution_id {
        Some(id) => opt_text_is(&row.execution_id, id),
        None => true,
    };
    of_execution && row.event_id > after_event_id && same_text(row.thread_key.as_str(), thread_key)
}

fn read_events(rows: Vec<(SessionEventRow, Result<ThreadKey, String>)>) -> (list: Result<
    Vec<SessionEvent>,
    SessionStoreError,
>)
    ensures
        is_list(
            list,
            gathered(
                rows@.map_values(
                    |r: (SessionEventRow, Result<ThreadKey, String>)| listed_event(r.0, r.1),
                ),
            ),
        ),
{
    let ghost read = |r: (SessionEventRow, Result<ThreadKey, String>)| listed_event(r.0, r.1);
    let ghost all = rows@;
    let mut items: Vec<Result<Option<SessionEvent>, SessionStoreError>> = Vec::new();
    for one in iter: rows
        invariant
            all == rows@,
            iter.seq() == all,
            read == (|r: (SessionEventRow, Result<ThreadKey, String>)| listed_event(r.0, r.1)),
            items@ == all.take(iter.index()).map_values(read),
    {
        proof {
            let n = iter.index();
            assert(one == all[n]);
            assert(all.take(n + 1) =~= all.take(n).push(one));
        }
        let (row, parsed) = one;
        match event_from_row(row, parsed) {
            Err(error) => items.push(Err(error)),
            Ok(event) => items.push(Ok(Some(event))),
        }
    }
    assert(all.take(all.len() as int) =~= all);
    gather(items)
}

/// Events in the order of their ids.
pub open spec fn events_in_order(rows: Seq<(SessionEventRow, Result<ThreadKey, String>)>) -> Seq<(SessionEventRow, Result<ThreadKey, String>)> {
    by_time(rows.map_values(|r: (SessionEventRow, Result<ThreadKey, String>)| (r.0.event_id as i128, r)))
}

fn sort_events(rows: Vec<(SessionEventRow, Result<ThreadKey, String>)>) -> (ordered: Vec<(SessionEventRow, Result<ThreadKey, String>)>)
    ensures
        ordered@ == events_in_order(rows@),
{
    let ghost timed = |r: (SessionEventRow, Result<ThreadKey, String>)| (r.0.event_id as i128, r);
    let ghost all = rows@;
    let mut items: Vec<(Timestamp, (SessionEventRow, Result<ThreadKey, String>))> = Vec::new();
    for one in iter: rows
        invariant
            all == rows@,
            iter.seq() == all,
            timed == (|r: (SessionEventRow, Result<ThreadKey, String>)| (r.0.event_id as i128, r)),
            items@ == all.take(iter.index()).map_values(timed),
    {
        proof {
            let n = iter.index();
            assert(one == all[n]);
            assert(all.take(n + 1) =~= all.take(n).push(one));
        }
        items.push((one.0.event_id as i128, one));
    }
    assert(all.take(all.len() as int) =~= all);
    values_by_time(items)
}

/// The first events of the thread after the given one, in the order of their ids and
/// at most so many. Only those are read.
pub fn list_events_after(
    rows: Vec<(SessionEventRow, Result<ThreadKey, String>)>,
    thread_key: &str,
    after_event_id: i64,
    execution_id: Option<&str>,
    limit: usize,
) -> (list: Result<Vec<SessionEvent>, SessionStoreError>)
    ensures
        is_list(
            list,
            gathered(
                first_of(
                    events_in_order(rows@).filter(
                        |r: (SessionEventRow, Result<ThreadKey, String>)|
                            event_follows(r.0, thread_key@, after_event_id, execution_id),
                    ),
                    limit as nat,
                ).map_values(
                    |r: (SessionEventRow, Result<ThreadKey, String>)| listed_event(r.0, r.1),
                ),
            ),
        ),
        list matches Ok(events) ==> {
            &&& events@.len() <= limit
            &&& forall|j: int|
                0 <= j < events@.len() ==> (#[trigger] events@[j]).event_id > after_event_id && (
                execution_id matches Some(id) ==> events@[j].execution_id is Some
                    && events@[j].execution_id->0@ == id@)
            &&& forall|j: int, k: int|
                0 <= j < k < events@.len() ==> (#[trigger] events@[j]).event_id <= (
                #[trigger] events@[k]).event_id
            &&& forall|i: int|
                0 <= i < rows@.len() && (#[trigger] rows@[i]).0.thread_key@ == thread_key@
                    && rows@[i].0.event_id > after_event_id && (execution_id matches Some(id) ==> (
                rows@[i].0.execution_id is Some && rows@[i].0.execution_id->0@ == id@))
                    && events@.len() < limit ==> exists|j: int|
                    0 <= j < events@.len() && tells_event(
                        #[trigger] events@[j],
                        rows@[i].0,
                        rows@[i].1,
                    )
        },
{
    let ghost given = rows@;
    let rows = sort_events(rows);
    let ghost follows = |r: (SessionEventRow, Result<ThreadKey, String>)|
        event_follows(r.0, thread_key@, after_event_id, execution_id);
    let ghost all = rows@;
    let mut wanted: Vec<(SessionEventRow, Result<ThreadKey, String>)> = Vec::new();
    proof {
        reveal(Seq::filter);
        assert(all.take(0).filter(follows) =~= Seq::<
            (SessionEventRow, Result<ThreadKey, String>),
        >::empty());
    }
    for one in iter: rows
        invariant
            all == rows@,
            iter.seq() == all,
            follows == (|r: (SessionEventRow, Result<ThreadKey, String>)|
                event_follows(r.0, thread_key@, after_event_id, execution_id)),
            wanted@ == first_of(all.take(iter.index()).filter(follows), limit as nat),
    {
        proof {
            let n = iter.index();
            assert(one == all[n]);
            reveal(Seq::filter);
            assert(all.take(n + 1).drop_last() =~= all.take(n));
            assert(all.take(n + 1).last() == one);
        }
        if wanted.len() < limit && is_following(
            &one.0,
            thread_key,
            after_event_id,
            execution_id,
        ) {
            wanted.push(one);
        }
        assert(wanted@ =~= first_of(all.take(iter.index() + 1).filter(follows), limit as nat));
    }
    assert(all.take(all.len() as int) =~= all);
    let list = read_events(wanted);
    proof {
        if list is Ok {
            law_listed_events(
                given,
                thread_key@,
                after_event_id,
                execution_id,
                limit as nat,
                list->Ok_0@,
            );
        }
    }
    list
}

/// A list of messages is what the rows read as, in their order; or the refusal of the
/// first row that cannot be read.
pub open spec fn messages_read(
    list: Result<Vec<SessionMessage>, SessionStoreError>,
    rows: Seq<(SessionMessageRow, SessionMessageRowParses)>,
) -> bool {
    match list {
        Ok(messages) => {
            &&& messages@.len() == rows.len()
            &&& forall|i: int|
                0 <= i < rows.len() ==> message_read(
                    Ok::<SessionMessage, SessionStoreError>(#[trigger] messages@[i]),
                    rows[i].0,
                    rows[i].1,
                )
        },
        Err(error) => exists|k: int|
            {
                &&& 0 <= k < rows.len()
                &&& message_read(
                    Err::<SessionMessage, SessionStoreError>(error),
                    (#[trigger] rows[k]).0,
                    rows[k].1,
                )
                &&& forall|i: int|
                    0 <= i < k ==> (#[trigger] rows[i]).1.thread_key is Ok && rows[i].1.role is Ok
            },
    }
}

/// Messages in the order of their creation.
pub open spec fn messages_in_order(rows: Seq<(SessionMessageRow, SessionMessageRowParses)>) -> Seq<(SessionMessageRow, SessionMessageRowParses)> {
    by_time(rows.map_values(|r: (SessionMessageRow, SessionMessageRowParses)| (r.0.created_at, r)))
}

fn sort_messages(rows: Vec<(SessionMessageRow, SessionMessageRowParses)>) -> (ordered: Vec<(SessionMessageRow, SessionMessageRowParses)>)
    ensures
        ordered@ == messages_in_order(rows@),
{
    let ghost timed = |r: (SessionMessageRow, SessionMessageRowParses)| (r.0.created_at, r);
    let ghost all = rows@;
    let mut items: Vec<(Timestamp, (SessionMessageRow, SessionMessageRowParses))> = Vec::new();
    for one in iter: rows
        invariant
            all == rows@,
            iter.seq() == all,
            timed == (|r: (SessionMessageRow, SessionMessageRowParses)| (r.0.created_at, r)),
            items@ == all.take(iter.index()).map_values(timed),
    {
        proof {
            let n = iter.index();
            assert(one == all[n]);
            assert(all.take(n + 1) =~= all.take(n).push(one));
        }
        items.push((one.0.created_at, one));
    }
    assert(all.take(all.len() as int) =~= all);
    values_by_time(items)
}

fn read_messages(rows: Vec<(SessionMessageRow, SessionMessageRowParses)>) -> (list: Result<
    Vec<SessionMessage>,
    SessionStoreError,
>)
    ensures
        messages_read(list, rows@),
{
    let ghost all = rows@;
    let mut messages: Vec<SessionMessage> = Vec::new();
    for one in iter: rows
        invariant
            all == rows@,
            iter.seq() == all,
            messages@.len() == iter.index(),
            forall|i: int|
                0 <= i < iter.index() ==> message_read(
                    Ok::<SessionMessage, SessionStoreError>(#[trigger] messages@[i]),
                    all[i].0,
                    all[i].1,
                ),
            forall|i: int|
                0 <= i < iter.index() ==> (#[trigger] all[i]).1.thread_key is Ok
                    && all[i].1.role is Ok,
    {
        proof {
            assert(one == all[iter.index()]);
        }
        let (row, parses) = one;
        match message_from_row(row, parses) {
            Err(error) => {
                return Err(error);
            },
            Ok(message) => messages.push(message),
        }
    }
    Ok(messages)
}

/// A message is one of the thread.
pub open spec fn is_of_thread(row: SessionMessageRow, thread: Seq<char>) -> bool {
    row.thread_key@ == thread
}

/// The messages of a thread, in the order of their creation.
pub open spec fn messages_of(
    rows: Seq<(SessionMessageRow, SessionMessageRowParses)>,
    thread: Seq<char>,
) -> Seq<(SessionMessageRow, SessionMessageRowParses)> {
    messages_in_order(
        rows.filter(
            |r: (SessionMessageRow, SessionMessageRowParses)| is_of_thread(r.0, thread),
        ),
    )
}

/// Reads the messages of a thread, in the order of their creation.
pub fn list_messages(
    rows: Vec<(SessionMessageRow, SessionMessageRowParses)>,
    thread_key: &str,
) -> (list: Result<Vec<SessionMessage>, SessionStoreError>)
    ensures
        messages_read(list, messages_of(rows@, thread_key@)),
{
    let ghost of_thread = |r: (SessionMessageRow, SessionMessageRowParses)|
        is_of_thread(r.0, thread_key@);
    let ghost given = rows@;
    let mut found: Vec<(SessionMessageRow, SessionMessageRowParses)> = Vec::new();
    proof {
        reveal(Seq::filter);
        assert(given.take(0).filter(of_thread) =~= Seq::<
            (SessionMessageRow, SessionMessageRowParses),
        >::empty());
    }
    for one in iter: rows
        invariant
            given == rows@,
            iter.seq() == given,
            of_thread == (|r: (SessionMessageRow, SessionMessageRowParses)|
                is_of_thread(r.0, thread_key@)),
            found@ == given.take(iter.index()).filter(of_thread),
    {
        proof {
            let n = iter.index();
            assert(one == given[n]);
            reveal(Seq::filter);
            assert(given.take(n + 1).drop_last() =~= given.take(n));
            assert(given.take(n + 1).last() == one);
        }
        if same_text(one.0.thread_key.as_str(), thread_key) {
            found.push(one);
        }
    }
    assert(given.take(given.len() as int) =~= given);
    read_messages(sort_messages(found))
}

// ---------------------------------------------------------------------------
// Deliveries
// ---------------------------------------------------------------------------

/// A list of deliveries is what the rows that qualify read as, in their order; or
/// the refusal of the first of them that cannot be read.
pub open spec fn deliveries_read(
    list: Result<Vec<SessionInputDelivery>, SessionStoreError>,
    wanted: Seq<FoundDelivery>,
) -> bool {
    match list {
        Ok(deliveries) => {
            &&& deliveries@.len() == wanted.len()
            &&& forall|i: int|
                0 <= i < wanted.len() ==> readable((#[trigger] wanted[i]).row, wanted[i].thread_key)
            &&& forall|i: int|
                0 <= i < wanted.len() ==> delivery_is(
                    #[trigger] deliveries@[i],
                    wanted[i].row,
                    wanted[i].thread_key->Ok_0,
                )
        },
        Err(error) => exists|k: int|
            {
                &&& 0 <= k < wanted.len()
                &&& !readable((#[trigger] wanted[k]).row, wanted[k].thread_key)
                &&& is_refusal(error, wanted[k].row, wanted[k].thread_key)
                &&& forall|i: int|
                    0 <= i < k ==> readable((#[trigger] wanted[i]).row, wanted[i].thread_key)
            },
    }
}

fn read_deliveries(wanted: Vec<FoundDelivery>) -> (list: Result<
    Vec<SessionInputDelivery>,
    SessionStoreError,
>)
    ensures
        deliveries_read(list, wanted@),
{
    let ghost all = wanted@;
    let mut deliveries: Vec<SessionInputDelivery> = Vec::new();
    for one in iter: wanted
        invariant
            all == wanted@,
            iter.seq() == all,
            deliveries@.len() == iter.index(),
            forall|i: int|
                0 <= i < iter.index() ==> readable((#[trigger] all[i]).row, all[i].thread_key),
            forall|i: int|
                0 <= i < iter.index() ==> delivery_is(
                    #[trigger] deliveries@[i],
                    all[i].row,
                    all[i].thread_key->Ok_0,
                ),
    {
        proof {
            assert(one == all[iter.index()]);
        }
        match delivery_from_row(one.row, one.thread_key) {
            Err(error) => {
                return Err(error);
            },
            Ok(delivery) => deliveries.push(delivery),
        }
    }
    Ok(deliveries)
}

/// Deliveries in the order of their creation.
pub open spec fn deliveries_in_order(rows: Seq<FoundDelivery>) -> Seq<FoundDelivery> {
    by_time(rows.map_values(|r: FoundDelivery| (r.row.created_at, r)))
}

fn sort_deliveries(rows: Vec<FoundDelivery>) -> (ordered: Vec<FoundDelivery>)
    ensures
        ordered@ == deliveries_in_order(rows@),
{
    let ghost timed = |r: FoundDelivery| (r.row.created_at, r);
    let ghost all = rows@;
    let mut items: Vec<(Timestamp, FoundDelivery)> = Vec::new();
    for one in iter: rows
        invariant
            all == rows@,
            iter.seq() == all,
            timed == (|r: FoundDelivery| (r.row.created_at, r)),
            items@ == all.take(iter.index()).map_values(timed),
    {
        proof {
            let n = iter.index();
            assert(one == all[n]);
            assert(all.take(n + 1) =~= all.take(n).push(one));
        }
        items.push((one.row.created_at, one));
    }
    assert(all.take(all.len() as int) =~= all);
    values_by_time(items)
}

/// The deliveries that are still owed, the oldest first.
pub fn list_unresolved_input_deliveries(rows: Vec<FoundDelivery>) -> (list: Result<
    Vec<SessionInputDelivery>,
    SessionStoreError,
>)
    ensures
        deliveries_read(
            list,
            deliveries_in_order(rows@).filter(
                |found: FoundDelivery| unresolved(found.row.state@),
            ),
        ),
{
    let rows = sort_deliveries(rows);
    let ghost qualifies = |found: FoundDelivery| unresolved(found.row.state@);
    let ghost all = rows@;
    let mut wanted: Vec<FoundDelivery> = Vec::new();
    proof {
        reveal(Seq::filter);
        assert(all.take(0).filter(qualifies) =~= Seq::<FoundDelivery>::empty());
    }
    for one in iter: rows
        invariant
            all == rows@,
            iter.seq() == all,
            qualifies == (|found: FoundDelivery| unresolved(found.row.state@)),
            wanted@ == all.take(iter.index()).filter(qualifies),
    {
        proof {
            let n = iter.index();
            assert(one == all[n]);
            reveal(Seq::filter);
            assert(all.take(n + 1).drop_last() =~= all.take(n));
            assert(all.take(n + 1).last() == one);
        }
        if is_unresolved(one.row.state.as_str()) {
            wanted.push(one);
        }
    }
    assert(all.take(all.len() as int) =~= all);
    read_deliveries(wanted)
}

/// The deliveries that can be claimed, the oldest first.
pub fn list_recoverable_input_deliveries(rows: Vec<FoundDelivery>, at: Timestamp) -> (list: Result<
    Vec<SessionInputDelivery>,
    SessionStoreError,
>)
    ensures
        deliveries_read(
            list,
            deliveries_in_order(rows@).filter(
                |found: FoundDelivery| recoverable(found.row, at),
            ),
        ),
{
    let rows = sort_deliveries(rows);
    let ghost qualifies = |found: FoundDelivery| recoverable(found.row, at);
    let ghost all = rows@;
    let mut wanted: Vec<FoundDelivery> = Vec::new();
    proof {
        reveal(Seq::filter);
        assert(all.take(0).filter(qualifies) =~= Seq::<FoundDelivery>::empty());
    }
    for one in iter: rows
        invariant
            all == rows@,
            iter.seq() == all,
            qualifies == (|found: FoundDelivery| recoverable(found.row, at)),
            wanted@ == all.take(iter.index()).filter(qualifies),
    {
        proof {
            let n = iter.index();
            assert(one == all[n]);
            reveal(Seq::filter);
            assert(all.take(n + 1).drop_last() =~= all.take(n));
            assert(all.take(n + 1).last() == one);
        }
        if is_recoverable(&one.row, at) {
            wanted.push(one);
        }
    }
    assert(all.take(all.len() as int) =~= all);
    read_deliveries(wanted)
}

/// A list is the one stated exactly if both hold the same values in the same order, or
/// both are refused with the same words.
pub proof fn law_lists_as_stated<T>(
    list: Vec<T>,
    values: Seq<T>,
    error: SessionStoreError,
    other: SessionStoreError,
)
    ensures
        is_list(Ok::<Vec<T>, SessionStoreError>(list), Ok::<Seq<T>, SessionStoreError>(values))
            <==> list@ == values,
        is_list(Err::<Vec<T>, SessionStoreError>(error), Err::<Seq<T>, SessionStoreError>(other))
            <==> error == other,
        !is_list(Ok::<Vec<T>, SessionStoreError>(list), Err::<Seq<T>, SessionStoreError>(error)),
        !is_list(Err::<Vec<T>, SessionStoreError>(error), Ok::<Seq<T>, SessionStoreError>(values)),
{
}

/// The first values of a list are the list itself, or as many as were asked for from its
/// front.
pub proof fn law_first_values<T>(list: Seq<T>, limit: nat)
    ensures
        first_of(list, limit).len() <= limit,
        first_of(list, limit).len() <= list.len(),
        first_of(list, limit).len() == limit || first_of(list, limit).len() == list.len(),
        forall|i: int|
            0 <= i < first_of(list, limit).len() ==> #[trigger] first_of(list, limit)[i]
                == list[i],
{
}

} // verus!
