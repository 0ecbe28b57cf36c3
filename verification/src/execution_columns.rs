//! What the rules on executions come to, column by column.
use crate::delivery::unresolved_for;
use crate::delivery_columns::law_owed_deliveries;
use crate::error::SessionStoreError;
use crate::execution::{
    active, finished, latest_at, latest_execution, metadata_merged, ownership_read,
    status_given, with_status, ActiveExecutionOwnership,
};
use crate::idle_columns::{is_busy, law_busy_threads};
use crate::json::{json_array, json_contents, json_items, json_member};
use crate::model::{ExecutionStatus, SessionExecution, SessionStatus, ThreadKey, Timestamp};
use crate::reconciliation::idle_after;
use crate::rows::{
    execution_read, NewSessionEvent, NewSessionExecution, SessionExecutionRow,
    SessionExecutionRowParses, SessionInputDeliveryRow, SessionRow,
};
use crate::terminal::{
    after_shutdown, concluded, ended, may_end, owned_active, owned_count, session_after_end,
    successor_of, tells_of, OwnedTerminalEvent,
};
use serde_json::Value;
use vstd::prelude::*;

verus! {

// ---------------------------------------------------------------------------
// Statuses
// ---------------------------------------------------------------------------

/// Which statuses are which, by their persisted names: queued and running are active;
/// completed, failed and cancelled are over; and no other text is either.
pub proof fn law_status_texts(status: Seq<char>)
    ensures
        active(status) <==> status == "queued"@ || status == "running"@,
        finished(status) <==> status == "completed"@ || status == "failed"@ || status
            == "cancelled"@,
        !(active(status) && finished(status)),
        ExecutionStatus::Queued.name() == "queued"@,
        ExecutionStatus::Running.name() == "running"@,
        ExecutionStatus::Completed.name() == "completed"@,
        ExecutionStatus::Failed.name() == "failed"@,
        ExecutionStatus::Cancelled.name() == "cancelled"@,
        SessionStatus::Idle.name() == "idle"@,
        SessionStatus::Executing.name() == "executing"@,
        SessionStatus::Failed.name() == "failed"@,
{
    reveal_strlit("queued");
    reveal_strlit("running");
    reveal_strlit("completed");
    reveal_strlit("failed");
    reveal_strlit("cancelled");
    assert("queued"@.len() == 6 && "running"@.len() == 7 && "completed"@.len() == 9
        && "failed"@.len() == 6 && "cancelled"@.len() == 9);
    assert("queued"@[0] == 'q' && "failed"@[0] == 'f');
}

// ---------------------------------------------------------------------------
// Stdout ownership
// ---------------------------------------------------------------------------

/// Who may do what with an execution's stdout, by its columns. An owner holds it while
/// the lease ends later. Only an execution that is queued or running can be taken: by
/// a claim if nobody owns it, or if the caller does and its lease ends later; by an
/// adoption if nobody owns it or the lease has run out, whoever asks; for an input if
/// either holds, or if the caller is the recorded owner.
pub proof fn law_ownership_conditions(row: SessionExecutionRow, owner: Seq<char>, at: Timestamp)
    ensures
        ({
            let runs = row.status@ == "queued"@ || row.status@ == "running"@;
            let mine = row.stdout_owner_id is Some && row.stdout_owner_id->0@ == owner;
            let live = row.stdout_owner_lease_expires_at is Some
                && row.stdout_owner_lease_expires_at->0 > at;
            &&& row.is_active() <==> runs
            &&& row.held_by(owner, at) <==> mine && live
            &&& row.claimable(owner, at) <==> runs && (row.stdout_owner_id is None || (mine
                && live))
            &&& row.adoptable(at) <==> runs && (row.stdout_owner_id is None || !live)
            &&& row.open_to(owner, at) <==> runs && (row.stdout_owner_id is None || !live || mine)
            &&& owned_active(row, owner) <==> runs && mine
        }),
{
}

/// What taking, renewing and giving up the ownership write: the owner, the end of the
/// lease and the time of the change, and nothing else.
pub proof fn law_ownership_columns(
    row: SessionExecutionRow,
    owner: String,
    until: Timestamp,
    now: Timestamp,
)
    ensures
        ({
            let after = row.owned(owner, until, now);
            &&& after.stdout_owner_id == Some(owner)
            &&& after.stdout_owner_lease_expires_at == Some(until)
            &&& after.updated_at == now
            &&& row == (SessionExecutionRow {
                stdout_owner_id: row.stdout_owner_id,
                stdout_owner_lease_expires_at: row.stdout_owner_lease_expires_at,
                updated_at: row.updated_at,
                ..after
            })
        }),
        ({
            let after = row.renewed(until, now);
            &&& after.stdout_owner_id == row.stdout_owner_id
            &&& after.stdout_owner_lease_expires_at == Some(until)
            &&& after.updated_at == now
            &&& row == (SessionExecutionRow {
                stdout_owner_lease_expires_at: row.stdout_owner_lease_expires_at,
                updated_at: row.updated_at,
                ..after
            })
        }),
        ({
            let after = row.unowned(now);
            &&& after.stdout_owner_id is None
            &&& after.stdout_owner_lease_expires_at is None
            &&& after.updated_at == now
            &&& row == (SessionExecutionRow {
                stdout_owner_id: row.stdout_owner_id,
                stdout_owner_lease_expires_at: row.stdout_owner_lease_expires_at,
                updated_at: row.updated_at,
                ..after
            })
        }),
{
}

/// A shutdown takes the executions that are queued or running from the owner that goes
/// away, whether or not its lease has run out, and leaves every other as it is.
pub proof fn law_shutdown_columns(row: SessionExecutionRow, owner: Seq<char>, now: Timestamp)
    ensures
        ({
            let after = after_shutdown(row, owner, now);
            let taken = (row.status@ == "queued"@ || row.status@ == "running"@)
                && row.stdout_owner_id is Some && row.stdout_owner_id->0@ == owner;
            &&& taken ==> after.stdout_owner_id is None
                && after.stdout_owner_lease_expires_at is None && after.updated_at == now
                && after.status == row.status && after.error == row.error && after.metadata
                == row.metadata && after.completed_at == row.completed_at
            &&& !taken ==> after == row
        }),
{
}

/// The count of an owner's executions grows by one for each that is queued or running
/// and the owner's, and for no other.
pub proof fn law_owned_count(
    executions: Seq<SessionExecutionRow>,
    row: SessionExecutionRow,
    owner: Seq<char>,
)
    ensures
        owned_count(Seq::empty(), owner) == 0,
        (row.status@ == "queued"@ || row.status@ == "running"@) && row.stdout_owner_id is Some
            && row.stdout_owner_id->0@ == owner ==> owned_count(executions.push(row), owner)
            == owned_count(executions, owner) + 1,
        row.status@ != "queued"@ && row.status@ != "running"@ || row.stdout_owner_id is None
            || row.stdout_owner_id->0@ != owner ==> owned_count(executions.push(row), owner)
            == owned_count(executions, owner),
{
    assert(executions.push(row).drop_last() =~= executions);
}

/// What is told of an active execution's ownership: the recorded owner, and that its
/// lease is active exactly while it ends later. Others are not told of.
pub proof fn law_ownership_told(
    row: SessionExecutionRow,
    parses: SessionExecutionRowParses,
    at: Timestamp,
)
    ensures
        ({
            let told = ownership_read(row, parses, at);
            let runs = row.status@ == "queued"@ || row.status@ == "running"@;
            &&& told == Ok::<Option<ActiveExecutionOwnership>, SessionStoreError>(None) <==> !runs
            &&& told matches Ok(Some(ownership)) ==> {
                &&& ownership.stdout_owner_id == row.stdout_owner_id
                &&& ownership.stdout_owner_lease_active
                    <==> row.stdout_owner_lease_expires_at is Some
                    && row.stdout_owner_lease_expires_at->0 > at
                &&& ownership.execution.execution_id == row.execution_id
            }
        }),
{
}

// ---------------------------------------------------------------------------
// Ends
// ---------------------------------------------------------------------------

/// An execution may end exactly if it is queued or running and none of its own
/// deliveries is pending, claimed or ambiguous.
pub proof fn law_end_conditions(
    execution: SessionExecutionRow,
    deliveries: Seq<SessionInputDeliveryRow>,
)
    ensures
        may_end(execution, deliveries) <==> {
            &&& execution.status@ == "queued"@ || execution.status@ == "running"@
            &&& forall|i: int|
                0 <= i < deliveries.len() && (#[trigger] deliveries[i]).execution_id@
                    == execution.execution_id@ ==> deliveries[i].state@ != "pending"@
                    && deliveries[i].state@ != "claimed"@ && deliveries[i].state@ != "ambiguous"@
        },
        unresolved_for(deliveries, execution.execution_id@) <==> exists|i: int|
            0 <= i < deliveries.len() && (#[trigger] deliveries[i]).execution_id@
                == execution.execution_id@ && (deliveries[i].state@ == "pending"@
                || deliveries[i].state@ == "claimed"@ || deliveries[i].state@ == "ambiguous"@),
{
    law_owed_deliveries(deliveries, execution.execution_id@);
}

/// What an end writes: the status and error of its kind, the first time that an end was
/// recorded, and no owner any more. Nothing else changes.
pub proof fn law_end_columns(
    before: SessionExecutionRow,
    after: SessionExecutionRow,
    terminal: OwnedTerminalEvent,
    now: Timestamp,
)
    requires
        ended(before, after, terminal, now),
    ensures
        terminal is Completed ==> after.status@ == "completed"@ && after.error is None,
        terminal is Failed ==> after.status@ == "failed"@ && after.error == Some(
            terminal->Failed_error,
        ),
        terminal is Cancelled ==> after.status@ == "cancelled"@ && after.error == Some(
            terminal->Cancelled_reason,
        ),
        before.completed_at is Some ==> after.completed_at == before.completed_at,
        before.completed_at is None ==> after.completed_at == Some(now),
        after.stdout_owner_id is None,
        after.stdout_owner_lease_expires_at is None,
        after.updated_at == now,
        after.execution_id == before.execution_id,
        after.idempotency_key == before.idempotency_key,
        after.thread_key == before.thread_key,
        after.metadata == before.metadata,
        after.created_at == before.created_at,
        after.started_at == before.started_at,
{
}

/// The event of an end is of the type of its kind, for the execution that ended, with
/// the payload that was handed in.
pub proof fn law_end_event_columns(
    event: NewSessionEvent,
    execution: SessionExecutionRow,
    terminal: OwnedTerminalEvent,
)
    requires
        tells_of(event, execution, terminal),
    ensures
        event.thread_key == execution.thread_key,
        event.execution_id == Some(execution.execution_id),
        terminal is Completed ==> event.event_type@ == "session.execution_completed"@
            && event.payload == terminal->Completed_payload,
        terminal is Failed ==> event.event_type@ == "session.execution_failed"@ && event.payload
            == terminal->Failed_payload,
        terminal is Cancelled ==> event.event_type@ == "session.execution_cancelled"@
            && event.payload == terminal->Cancelled_payload,
{
}

/// After an end the session of the thread is idle, or failed after a failure, unless
/// another execution of the thread is queued or running: then, as for any other
/// session, nothing changes.
pub proof fn law_session_after_end_columns(
    before: SessionRow,
    after: SessionRow,
    thread: Seq<char>,
    others: Seq<SessionExecutionRow>,
    terminal: OwnedTerminalEvent,
    now: Timestamp,
)
    requires
        session_after_end(before, after, thread, others, terminal, now),
    ensures
        is_busy(others, thread) || before.thread_key@ != thread ==> after == before,
        !is_busy(others, thread) && before.thread_key@ == thread ==> {
            &&& terminal is Completed || terminal is Cancelled ==> after.status@ == "idle"@
            &&& terminal is Failed ==> after.status@ == "failed"@
            &&& after.updated_at == now
            &&& before == (SessionRow {
                status: before.status,
                updated_at: before.updated_at,
                ..after
            })
        },
{
    law_busy_threads(others, thread);
}

/// The successor of a replaced execution is queued, for the same thread, under the id,
/// key and metadata that were handed in.
pub proof fn law_successor_columns(
    successor: NewSessionExecution,
    execution: SessionExecutionRow,
    successor_id: String,
    idempotency_key: String,
    metadata: Value,
)
    requires
        successor_of(successor, execution, successor_id, idempotency_key, metadata),
    ensures
        successor.status@ == "queued"@,
        successor.execution_id == successor_id,
        successor.thread_key == execution.thread_key,
        successor.idempotency_key == Some(idempotency_key),
        successor.metadata == metadata,
{
}

/// What a plain completion or failure writes: status, error and the first recorded end;
/// unlike a published end it leaves the owner.
pub proof fn law_conclusion_columns(
    before: SessionExecutionRow,
    after: SessionExecutionRow,
    status: ExecutionStatus,
    error: Option<String>,
    now: Timestamp,
)
    requires
        concluded(before, after, status, error, now),
    ensures
        status is Completed ==> after.status@ == "completed"@,
        status is Failed ==> after.status@ == "failed"@,
        status is Cancelled ==> after.status@ == "cancelled"@,
        after.error == error,
        before.completed_at is Some ==> after.completed_at == before.completed_at,
        before.completed_at is None ==> after.completed_at == Some(now),
        after.updated_at == now,
        after.stdout_owner_id == before.stdout_owner_id,
        after.stdout_owner_lease_expires_at == before.stdout_owner_lease_expires_at,
        after.execution_id == before.execution_id,
        after.idempotency_key == before.idempotency_key,
        after.thread_key == before.thread_key,
        after.metadata == before.metadata,
        after.created_at == before.created_at,
        after.started_at == before.started_at,
{
}

/// A session takes a status only if it is the thread's, and then changes in nothing
/// else.
pub proof fn law_session_status_columns(
    before: SessionRow,
    after: SessionRow,
    thread: Seq<char>,
    status: SessionStatus,
    now: Timestamp,
)
    requires
        status_given(before, after, thread, status, now),
    ensures
        before.thread_key@ != thread ==> after == before,
        before.thread_key@ == thread ==> {
            &&& with_status(before, after, status, now)
            &&& status is Idle ==> after.status@ == "idle"@
            &&& status is Executing ==> after.status@ == "executing"@
            &&& status is Failed ==> after.status@ == "failed"@
            &&& after.updated_at == now
            &&& after.thread_key == before.thread_key
            &&& after.title == before.title
            &&& after.sandbox == before.sandbox
            &&& after.harness_type == before.harness_type
            &&& after.harness_thread_id == before.harness_thread_id
            &&& after.persona_id == before.persona_id
            &&& after.iron_control_principal == before.iron_control_principal
            &&& after.proxy_labels == before.proxy_labels
            &&& after.created_at == before.created_at
        },
{
}

// ---------------------------------------------------------------------------
// Metadata and the latest execution
// ---------------------------------------------------------------------------

/// Laying metadata over an execution's own changes no other column but the time of the
/// change. Objects are laid one over the other, key by key; anything else is strung
/// together.
pub proof fn law_metadata_columns(
    before: SessionExecutionRow,
    after: SessionExecutionRow,
    metadata: Value,
    now: Timestamp,
    key: Seq<char>,
)
    requires
        metadata_merged(before, after, metadata, now),
    ensures
        after.updated_at == now,
        before == (SessionExecutionRow {
            metadata: before.metadata,
            updated_at: before.updated_at,
            ..after
        }),
        json_contents(before.metadata) is Object && json_contents(metadata) is Object ==> {
            &&& json_contents(after.metadata) is Object
            &&& json_member(metadata, key) is Some ==> json_member(after.metadata, key)
                == json_member(metadata, key)
            &&& json_member(metadata, key) is None ==> json_member(after.metadata, key)
                == json_member(before.metadata, key)
        },
        !(json_contents(before.metadata) is Object && json_contents(metadata) is Object)
            ==> after.metadata == json_array(json_items(before.metadata) + json_items(metadata)),
{
}

/// The latest active execution of a thread is queued or running and of the thread, and
/// none such was created later.
pub proof fn law_latest_active_execution(
    executions: Seq<SessionExecutionRow>,
    thread: Seq<char>,
    k: int,
)
    requires
        latest_at(executions, thread, true, k),
    ensures
        0 <= k < executions.len(),
        executions[k].thread_key@ == thread,
        executions[k].status@ == "queued"@ || executions[k].status@ == "running"@,
        forall|i: int|
            0 <= i < executions.len() && (#[trigger] executions[i]).thread_key@ == thread && (
            executions[i].status@ == "queued"@ || executions[i].status@ == "running"@)
                ==> executions[i].created_at < executions[k].created_at || (
            executions[i].created_at == executions[k].created_at && i <= k),
{
}

/// A thread is idle after an execution exactly if that is its latest one, has
/// completed, failed or been cancelled by the cutoff, and no other is queued or
/// running.
pub proof fn law_idle_after_conditions(
    executions: Seq<SessionExecutionRow>,
    thread: Seq<char>,
    execution_id: Seq<char>,
    cutoff: Timestamp,
)
    ensures
        ({
            let latest = latest_execution(executions, thread, false);
            idle_after(executions, thread, execution_id, cutoff) <==> {
                &&& latest is Some
                &&& latest->0.execution_id@ == execution_id
                &&& latest->0.status@ == "completed"@ || latest->0.status@ == "failed"@
                    || latest->0.status@ == "cancelled"@
                &&& latest->0.completed_at is Some && latest->0.completed_at->0 <= cutoff
                &&& !is_busy(executions, thread)
            }
        }),
{
    law_busy_threads(executions, thread);
}

/// What an execution row reads as: its own columns with the key and status that were
/// read; or the first of the two refusals, the key's before the status's.
pub proof fn law_execution_read_columns(
    row: SessionExecutionRow,
    parses: SessionExecutionRowParses,
)
    ensures
        ({
            let read = execution_read(row, parses);
            &&& read is Ok <==> parses.thread_key is Ok && parses.status is Ok
            &&& parses.thread_key is Err ==> read == Err::<
                SessionExecution,
                SessionStoreError,
            >(SessionStoreError::InvalidPersistedValue(parses.thread_key->Err_0))
            &&& parses.thread_key is Ok && parses.status is Err ==> read == Err::<
                SessionExecution,
                SessionStoreError,
            >(SessionStoreError::InvalidPersistedValue(parses.status->Err_0))
            &&& read matches Ok(execution) ==> {
                &&& parses.thread_key == Ok::<ThreadKey, String>(execution.thread_key)
                &&& parses.status == Ok::<ExecutionStatus, String>(execution.status)
                &&& execution.execution_id == row.execution_id
                &&& execution.idempotency_key == row.idempotency_key
                &&& execution.metadata == row.metadata
                &&& execution.error == row.error
                &&& execution.created_at == row.created_at
                &&& execution.updated_at == row.updated_at
                &&& execution.started_at == row.started_at
                &&& execution.completed_at == row.completed_at
            }
        }),
{
}

} // verus!
