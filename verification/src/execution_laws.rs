//! What holds of executions across leases, ends and replacements.
use crate::claim::execution_taken;
use crate::delivery::{owed_to, unresolved_for};
use crate::execution::{active, counts_for, finished, metadata_merged, status_given};
use crate::json::{json_contents, json_member, law_merge_changes_only_its_keys};
use crate::model::{Clock, ExecutionStatus, SessionStatus, Timestamp};
use crate::rows::{NewSessionExecution, SessionExecutionRow, SessionInputDeliveryRow, SessionRow};
use crate::terminal::{
    after_shutdown, concluded, ended, may_end, owned_active, session_after_end, successor_of,
    OwnedTerminalEvent,
};
use crate::text::holds;
use serde_json::Value;
use vstd::prelude::*;

verus! {

/// No two execution statuses have the same persisted name.
pub proof fn law_execution_status_names_are_distinct(a: ExecutionStatus, b: ExecutionStatus)
    ensures
        a.name() == b.name() <==> a == b,
{
    reveal_strlit("queued");
    reveal_strlit("running");
    reveal_strlit("completed");
    reveal_strlit("failed");
    reveal_strlit("cancelled");
    assert("queued"@.len() == 6 && "failed"@.len() == 6 && "running"@.len() == 7);
    assert("completed"@.len() == 9 && "cancelled"@.len() == 9);
    assert("queued"@[0] == 'q' && "failed"@[0] == 'f');
    assert("completed"@[1] == 'o' && "cancelled"@[1] == 'a');
}

/// No two session statuses have the same persisted name.
pub proof fn law_session_status_names_are_distinct(a: SessionStatus, b: SessionStatus)
    ensures
        a.name() == b.name() <==> a == b,
{
    reveal_strlit("idle");
    reveal_strlit("executing");
    reveal_strlit("failed");
    assert("idle"@.len() == 4 && "executing"@.len() == 9 && "failed"@.len() == 6);
}

/// Each status is either active or finished, and none is both.
pub proof fn law_statuses_are_active_or_finished(status: ExecutionStatus)
    ensures
        active(status.name()) == (status == ExecutionStatus::Queued || status
            == ExecutionStatus::Running),
        finished(status.name()) == !active(status.name()),
{
    law_execution_status_names_are_distinct(status, ExecutionStatus::Queued);
    law_execution_status_names_are_distinct(status, ExecutionStatus::Running);
    law_execution_status_names_are_distinct(status, ExecutionStatus::Completed);
    law_execution_status_names_are_distinct(status, ExecutionStatus::Failed);
    law_execution_status_names_are_distinct(status, ExecutionStatus::Cancelled);
}

/// An execution has one owner at a time: while one holds it, another can neither
/// hold it, claim it, adopt it nor take it with a delivery.
pub proof fn law_live_owner_excludes_others(
    row: SessionExecutionRow,
    owner: Seq<char>,
    other: Seq<char>,
    at: Timestamp,
)
    requires
        row.held_by(owner, at),
        other != owner,
    ensures
        !row.held_by(other, at),
        !row.claimable(other, at),
        !row.adoptable(at),
        !row.open_to(other, at),
{
}

/// An owner whose lease has run out holds nothing any more, at any later time. No
/// one, whether that owner or another, can then take the lease in the ordinary way;
/// anyone can adopt it.
pub proof fn law_expired_owner_is_fenced(
    row: SessionExecutionRow,
    owner: Seq<char>,
    other: Seq<char>,
    at: Timestamp,
    later: Timestamp,
)
    requires
        holds(row.stdout_owner_id, owner),
        row.lease_lapsed(at),
        at <= later,
    ensures
        !row.held_by(owner, later),
        !row.held_by(other, later),
        !row.claimable(other, later),
        row.is_active() ==> row.adoptable(later),
{
}

/// Recording a boundary keeps what came in with the execution: in a metadata object
/// each key that the boundary does not have keeps its value.
pub proof fn law_recorded_boundary_keeps_the_rest(
    before: SessionExecutionRow,
    after: SessionExecutionRow,
    boundary: Value,
    now: Timestamp,
    key: Seq<char>,
)
    requires
        metadata_merged(before, after, boundary, now),
        json_contents(before.metadata) is Object,
        json_contents(boundary) is Object,
    ensures
        json_member(after.metadata, key) == match json_member(boundary, key) {
            Some(value) => Some(value),
            None => json_member(before.metadata, key),
        },
        after.status == before.status,
        after.stdout_owner_id == before.stdout_owner_id,
        after.stdout_owner_lease_expires_at == before.stdout_owner_lease_expires_at,
{
    law_merge_changes_only_its_keys(before.metadata, boundary, after.metadata, key);
}

/// A claim, an adoption or a renewal gives the lease to its owner until the given
/// time, and not beyond.
pub proof fn law_lease_lasts_until_its_time(
    row: SessionExecutionRow,
    owner: String,
    until: Timestamp,
    now: Timestamp,
    at: Timestamp,
)
    ensures
        row.owned(owner, until, now).held_by(owner@, at) == (at < until),
        holds(row.stdout_owner_id, owner@) ==> row.renewed(until, now).held_by(owner@, at) == (at
            < until),
        row.owned(owner, until, now).status == row.status,
        row.renewed(until, now).stdout_owner_id == row.stdout_owner_id,
{
}

/// A lease that was given up can be claimed or adopted by anyone at once.
pub proof fn law_released_lease_can_be_claimed_at_once(
    row: SessionExecutionRow,
    now: Timestamp,
    other: Seq<char>,
    at: Timestamp,
)
    requires
        row.is_active(),
    ensures
        row.unowned(now).claimable(other, at),
        row.unowned(now).adoptable(at),
        row.unowned(now).open_to(other, at),
        !row.unowned(now).held_by(other, at),
{
}

/// A shutdown releases what its owner has and nothing of anyone else's.
pub proof fn law_shutdown_is_scoped_to_its_owner(
    row: SessionExecutionRow,
    owner: Seq<char>,
    now: Timestamp,
    at: Timestamp,
)
    ensures
        !holds(row.stdout_owner_id, owner) ==> after_shutdown(row, owner, now) == row,
        !owned_active(after_shutdown(row, owner, now), owner),
        owned_active(row, owner) ==> after_shutdown(row, owner, now).adoptable(at),
{
}

/// Input that is still owed blocks every end of its execution, whether the
/// delivery is pending, claimed or ambiguous.
pub proof fn law_owed_input_blocks_every_end(
    execution: SessionExecutionRow,
    deliveries: Seq<SessionInputDeliveryRow>,
    i: int,
)
    requires
        0 <= i < deliveries.len(),
        owed_to(deliveries[i], execution.execution_id@),
    ensures
        unresolved_for(deliveries, execution.execution_id@),
        !may_end(execution, deliveries),
{
}

/// An end is final: the execution is not active any more, so that it can neither
/// end again nor be owned, and it keeps the time of its end.
pub proof fn law_end_is_final(
    before: SessionExecutionRow,
    after: SessionExecutionRow,
    terminal: OwnedTerminalEvent,
    now: Timestamp,
    deliveries: Seq<SessionInputDeliveryRow>,
    owner: Seq<char>,
    at: Timestamp,
)
    requires
        ended(before, after, terminal, now),
    ensures
        finished(after.status@),
        !after.is_active(),
        !may_end(after, deliveries),
        !after.claimable(owner, at),
        !after.adoptable(at),
        !after.open_to(owner, at),
        !after.held_by(owner, at),
        after.completed_at is Some,
        before.completed_at is Some ==> after.completed_at == before.completed_at,
        after.execution_id == before.execution_id,
        after.thread_key == before.thread_key,
        after.metadata == before.metadata,
{
    law_statuses_are_active_or_finished(terminal.status());
}

/// The status of an ended execution, the status that its session falls to, the
/// recorded error and the type of the event always belong together.
pub proof fn law_terminal_record_is_consistent(terminal: OwnedTerminalEvent)
    ensures
        terminal.status() == ExecutionStatus::Completed ==> terminal.session_status()
            == SessionStatus::Idle && terminal.recorded_error() is None && terminal.event_type()
            == "session.execution_completed"@,
        terminal.status() == ExecutionStatus::Failed ==> terminal.session_status()
            == SessionStatus::Failed && terminal.recorded_error() is Some && terminal.event_type()
            == "session.execution_failed"@,
        terminal.status() == ExecutionStatus::Cancelled ==> terminal.session_status()
            == SessionStatus::Idle && terminal.recorded_error() is Some && terminal.event_type()
            == "session.execution_cancelled"@,
        finished(terminal.status().name()),
{
    law_statuses_are_active_or_finished(terminal.status());
}

/// The end of an execution does not touch the status of a session in which another
/// execution is active.
pub proof fn law_end_leaves_a_successor_executing(
    before: SessionRow,
    after: SessionRow,
    thread: Seq<char>,
    others: Seq<SessionExecutionRow>,
    i: int,
    terminal: OwnedTerminalEvent,
    now: Timestamp,
)
    requires
        0 <= i < others.len(),
        others[i].is_active(),
        others[i].thread_key@ == thread,
        session_after_end(before, after, thread, others, terminal, now),
    ensures
        after == before,
{
    assert(counts_for(others[i], thread, true));
}

/// A replacement leaves no gap: the execution has ended, its successor of the same
/// thread is active, and the session executes.
pub proof fn law_replacement_leaves_no_gap(
    before: SessionExecutionRow,
    after: SessionExecutionRow,
    session_before: SessionRow,
    session_after: SessionRow,
    successor: NewSessionExecution,
    successor_id: String,
    idempotency_key: String,
    metadata: Value,
    terminal: OwnedTerminalEvent,
    now: Timestamp,
)
    requires
        ended(before, after, terminal, now),
        session_before.thread_key@ == before.thread_key@,
        status_given(
            session_before,
            session_after,
            before.thread_key@,
            SessionStatus::Executing,
            now,
        ),
        successor_of(successor, before, successor_id, idempotency_key, metadata),
    ensures
        !after.is_active(),
        active(successor.status@),
        successor.thread_key == before.thread_key,
        session_after.status@ == SessionStatus::Executing.name(),
{
    law_statuses_are_active_or_finished(terminal.status());
}

/// Taking an execution with a delivery makes its owner hold it, running, and never
/// moves the time at which it was started.
pub proof fn law_taken_execution_runs(
    before: SessionExecutionRow,
    after: SessionExecutionRow,
    owner: String,
    until: Timestamp,
    clock: Clock,
    at: Timestamp,
)
    requires
        execution_taken(before, after, owner, until, clock),
        at < until,
    ensures
        after.is_active(),
        after.held_by(owner@, at),
        before.started_at is Some ==> after.started_at == before.started_at,
        after.started_at is Some,
{
}

/// An execution that was completed or failed without an event is not active any
/// more either.
pub proof fn law_conclusion_is_final(
    before: SessionExecutionRow,
    after: SessionExecutionRow,
    status: ExecutionStatus,
    error: Option<String>,
    now: Timestamp,
)
    requires
        concluded(before, after, status, error, now),
        status == ExecutionStatus::Completed || status == ExecutionStatus::Failed,
    ensures
        finished(after.status@),
        !after.is_active(),
        after.completed_at is Some,
{
    law_statuses_are_active_or_finished(status);
}

} // verus!
