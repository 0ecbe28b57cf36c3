//! The end of an execution.
//!
//! No execution ends while input is still owed to it. The status that an ending
//! execution gets, the status that its session falls to and the event that tells
//! of it all follow from one terminal event, so that no mismatched record can be
//! written.
use crate::delivery::{
    claimed_by, is_claimed_by, is_unresolved_for, mark_released, released, unresolved_for,
};
use crate::delivery_columns::law_owed_deliveries;
use crate::error::{parse_persisted, SessionStoreError};
use crate::execution::{any_counts, is_active, latest_position, set_session_status, status_given};
use crate::model::{Clock, ExecutionStatus, SessionStatus, ThreadKey, Timestamp};
use crate::rows::{
    NewSessionEvent, NewSessionExecution, SessionExecutionRow, SessionInputDeliveryRow, SessionRow,
};
use crate::text::{holds, opt_text_is};
use serde_json::Value;
use vstd::prelude::*;

verus! {

/// The only terminal lifecycle transitions a stdout owner may publish.
///
/// The status, resulting session state, and event type are derived from the
/// variant so callers cannot commit a mismatched terminal record.
#[derive(Clone, Debug)]
pub enum OwnedTerminalEvent {
    Completed { payload: Value },
    Failed { error: String, payload: Value },
    Cancelled { reason: String, payload: Value },
}

impl OwnedTerminalEvent {
    /// The status that the execution ends with.
    pub open spec fn status(self) -> ExecutionStatus {
        match self {
            OwnedTerminalEvent::Completed { .. } => ExecutionStatus::Completed,
            OwnedTerminalEvent::Failed { .. } => ExecutionStatus::Failed,
            OwnedTerminalEvent::Cancelled { .. } => ExecutionStatus::Cancelled,
        }
    }

    /// The status that the session falls to.
    pub open spec fn session_status(self) -> SessionStatus {
        match self {
            OwnedTerminalEvent::Completed { .. } => SessionStatus::Idle,
            OwnedTerminalEvent::Failed { .. } => SessionStatus::Failed,
            OwnedTerminalEvent::Cancelled { .. } => SessionStatus::Idle,
        }
    }

    /// What the execution records as its error.
    pub open spec fn recorded_error(self) -> Option<String> {
        match self {
            OwnedTerminalEvent::Completed { .. } => None,
            OwnedTerminalEvent::Failed { error, .. } => Some(error),
            OwnedTerminalEvent::Cancelled { reason, .. } => Some(reason),
        }
    }

    /// The type of the event that tells of the end.
    pub open spec fn event_type(self) -> Seq<char> {
        match self {
            OwnedTerminalEvent::Completed { .. } => "session.execution_completed"@,
            OwnedTerminalEvent::Failed { .. } => "session.execution_failed"@,
            OwnedTerminalEvent::Cancelled { .. } => "session.execution_cancelled"@,
        }
    }

    /// The payload of that event.
    pub open spec fn event_payload(self) -> Value {
        match self {
            OwnedTerminalEvent::Completed { payload } => payload,
            OwnedTerminalEvent::Failed { payload, .. } => payload,
            OwnedTerminalEvent::Cancelled { payload, .. } => payload,
        }
    }

    /// Takes the terminal event apart: execution status, session status, recorded
    /// error, event type and payload.
    pub fn into_parts(self) -> (parts: (
        ExecutionStatus,
        SessionStatus,
        Option<String>,
        &'static str,
        Value,
    ))
        ensures
            parts.0 == self.status(),
            parts.1 == self.session_status(),
            parts.2 == self.recorded_error(),
            parts.3@ == self.event_type(),
            parts.4 == self.event_payload(),
    {
        match self {
            OwnedTerminalEvent::Completed { payload } => (
                ExecutionStatus::Completed,
                SessionStatus::Idle,
                None,
                "session.execution_completed",
                payload,
            ),
            OwnedTerminalEvent::Failed { error, payload } => (
                ExecutionStatus::Failed,
                SessionStatus::Failed,
                Some(error),
                "session.execution_failed",
                payload,
            ),
            OwnedTerminalEvent::Cancelled { reason, payload } => (
                ExecutionStatus::Cancelled,
                SessionStatus::Idle,
                Some(reason),
                "session.execution_cancelled",
                payload,
            ),
        }
    }
}

/// An active execution whose stdout-owner lease was released when its control
/// plane shut down.
#[derive(Clone, Debug)]
pub struct ReleasedExecution {
    pub execution_id: String,
    pub thread_key: ThreadKey,
}

/// What replaces an ended execution: the queued successor and the event of the
/// end, both to be inserted.
#[derive(Debug)]
pub struct Replacement {
    pub successor: NewSessionExecution,
    pub event: NewSessionEvent,
}

/// The execution may end: it is active and no input is owed to it.
pub open spec fn may_end(
    execution: SessionExecutionRow,
    deliveries: Seq<SessionInputDeliveryRow>,
) -> bool {
    execution.is_active() && !unresolved_for(deliveries, execution.execution_id@)
}

/// The time of the end: the one recorded before, or now.
pub open spec fn completion(before: Option<Timestamp>, now: Timestamp) -> Option<Timestamp> {
    match before {
        Some(at) => Some(at),
        None => Some(now),
    }
}

/// The execution has ended as the terminal event says, in nobody's hands.
pub open spec fn ended(
    before: SessionExecutionRow,
    after: SessionExecutionRow,
    terminal: OwnedTerminalEvent,
    now: Timestamp,
) -> bool {
    &&& after.status@ == terminal.status().name()
    &&& after == (SessionExecutionRow {
        status: after.status,
        error: terminal.recorded_error(),
        completed_at: completion(before.completed_at, now),
        stdout_owner_id: None,
        stdout_owner_lease_expires_at: None,
        updated_at: now,
        ..before
    })
}

/// The event tells of the end of the execution.
pub open spec fn tells_of(
    event: NewSessionEvent,
    execution: SessionExecutionRow,
    terminal: OwnedTerminalEvent,
) -> bool {
    &&& event.thread_key == execution.thread_key
    &&& event.execution_id == Some(execution.execution_id)
    &&& event.event_type@ == terminal.event_type()
    &&& event.payload == terminal.event_payload()
}

/// The session of a thread after the end of one of its executions: at the terminal
/// event's status, unless another execution of the thread is active.
pub open spec fn session_after_end(
    before: SessionRow,
    after: SessionRow,
    thread: Seq<char>,
    others: Seq<SessionExecutionRow>,
    terminal: OwnedTerminalEvent,
    now: Timestamp,
) -> bool {
    if any_counts(others, thread, true) {
        after == before
    } else {
        status_given(before, after, thread, terminal.session_status(), now)
    }
}

fn end_row(
    execution: &mut SessionExecutionRow,
    status: ExecutionStatus,
    error: Option<String>,
    now: Timestamp,
)
    ensures
        final(execution).status@ == status.name(),
        *final(execution) == (SessionExecutionRow {
            status: final(execution).status,
            error,
            completed_at: completion(old(execution).completed_at, now),
            stdout_owner_id: None,
            stdout_owner_lease_expires_at: None,
            updated_at: now,
            ..*old(execution)
        }),
{
    execution.status = status.as_ref().to_owned();
    execution.error = error;
    if execution.completed_at.is_none() {
        execution.completed_at = Some(now);
    }
    execution.stdout_owner_id = None;
    execution.stdout_owner_lease_expires_at = None;
    execution.updated_at = now;
}

/// Whether the execution may end.
pub fn is_allowed_to_end(
    execution: &SessionExecutionRow,
    deliveries: &Vec<SessionInputDeliveryRow>,
) -> (is: bool)
    ensures
        is == may_end(*execution, deliveries@),
{
    is_active(execution.status.as_str()) && !is_unresolved_for(
        deliveries,
        execution.execution_id.as_str(),
    )
}

/// Ends whichever active execution holds the row, and gives the event of it, to be
/// inserted in the same transaction. `others` are the executions of the session but
/// this one. Boundary replacement relies on this rather than on a local lease:
/// a successor is safe only once the active row is really gone.
pub fn terminalize_execution_and_append_event_if_active(
    execution: &mut SessionExecutionRow,
    session: &mut SessionRow,
    deliveries: &Vec<SessionInputDeliveryRow>,
    others: &Vec<SessionExecutionRow>,
    terminal: OwnedTerminalEvent,
    now: Timestamp,
) -> (event: Option<NewSessionEvent>)
    ensures
        if may_end(*old(execution), deliveries@) {
            &&& ended(*old(execution), *final(execution), terminal, now)
            &&& session_after_end(
                *old(session),
                *final(session),
                old(execution).thread_key@,
                others@,
                terminal,
                now,
            )
            &&& event matches Some(made)
            &&& tells_of(made, *old(execution), terminal)
        } else {
            &&& event is None
            &&& *final(execution) == *old(execution)
            &&& *final(session) == *old(session)
        },
        event is Some <==> (old(execution).status@ == "queued"@
            || old(execution).status@ == "running"@) && !(exists|i: int|
            0 <= i < deliveries@.len()
                && (#[trigger] deliveries@[i]).execution_id@ == old(execution).execution_id@
                && (deliveries@[i].state@ == "pending"@ || deliveries@[i].state@ == "claimed"@
                || deliveries@[i].state@ == "ambiguous"@)),
        event is Some ==> final(execution).stdout_owner_id is None && (terminal is Completed
            ==> final(execution).status@
            == "completed"@) && (terminal is Failed ==> final(execution).status@ == "failed"@) && (
        terminal is Cancelled ==> final(execution).status@ == "cancelled"@),
        event matches Some(made) ==> made.execution_id == Some(old(execution).execution_id),
{
    proof {
        law_owed_deliveries(deliveries@, execution.execution_id@);
    }
    if !is_allowed_to_end(execution, deliveries) {
        return None;
    }
    let (status, session_status, error, event_type, payload) = terminal.into_parts();
    end_row(execution, status, error, now);
    if latest_position(others, execution.thread_key.as_str(), true).is_none() {
        set_session_status(session, execution.thread_key.as_str(), session_status, now);
    }
    Some(
        NewSessionEvent {
            thread_key: execution.thread_key.clone(),
            execution_id: Some(execution.execution_id.clone()),
            event_type: event_type.to_owned(),
            payload,
        },
    )
}

/// Ends an execution in the name of its stdout owner, only while the owner's lease
/// has time left. A rejected owner fence changes neither state nor events.
pub fn terminalize_execution_and_append_event_if_stdout_owner(
    execution: &mut SessionExecutionRow,
    session: &mut SessionRow,
    deliveries: &Vec<SessionInputDeliveryRow>,
    others: &Vec<SessionExecutionRow>,
    owner_id: &str,
    terminal: OwnedTerminalEvent,
    clock: Clock,
) -> (event: Option<NewSessionEvent>)
    ensures
        if may_end(*old(execution), deliveries@) && old(execution).held_by(owner_id@, clock.wall) {
            &&& ended(*old(execution), *final(execution), terminal, clock.now)
            &&& session_after_end(
                *old(session),
                *final(session),
                old(execution).thread_key@,
                others@,
                terminal,
                clock.now,
            )
            &&& event matches Some(made)
            &&& tells_of(made, *old(execution), terminal)
        } else {
            &&& event is None
            &&& *final(execution) == *old(execution)
            &&& *final(session) == *old(session)
        },
        event is Some <==> (old(execution).status@ == "queued"@
            || old(execution).status@ == "running"@) && !(exists|i: int|
            0 <= i < deliveries@.len()
                && (#[trigger] deliveries@[i]).execution_id@ == old(execution).execution_id@
                && (deliveries@[i].state@ == "pending"@ || deliveries@[i].state@ == "claimed"@
                || deliveries@[i].state@ == "ambiguous"@))
                    && old(execution).stdout_owner_id is Some && old(execution).stdout_owner_id->0@
            == owner_id@ && old(execution).stdout_owner_lease_expires_at is Some
                && old(execution).stdout_owner_lease_expires_at->0
            > clock.wall,
        event is Some ==> final(execution).stdout_owner_id is None && (terminal is Completed
            ==> final(execution).status@
            == "completed"@) && (terminal is Failed ==> final(execution).status@ == "failed"@) && (
        terminal is Cancelled ==> final(execution).status@ == "cancelled"@),
        event matches Some(made) ==> made.execution_id == Some(old(execution).execution_id),
{
    proof {
        law_owed_deliveries(deliveries@, execution.execution_id@);
    }
    if !execution.is_held_by(owner_id, clock.wall) {
        return None;
    }
    terminalize_execution_and_append_event_if_active(
        execution,
        session,
        deliveries,
        others,
        terminal,
        clock.now,
    )
}

/// The queued successor of an ended execution.
pub open spec fn successor_of(
    successor: NewSessionExecution,
    execution: SessionExecutionRow,
    successor_id: String,
    idempotency_key: String,
    metadata: Value,
) -> bool {
    &&& successor.status@ == ExecutionStatus::Queued.name()
    &&& successor == (NewSessionExecution {
        execution_id: successor_id,
        thread_key: execution.thread_key,
        idempotency_key: Some(idempotency_key),
        status: successor.status,
        metadata,
    })
}

/// Replaces an active execution with a queued successor in one transaction, so
/// that there is never a committed gap in which nothing is active. The session
/// keeps executing.
pub fn replace_active_execution_with_queued(
    execution: &mut SessionExecutionRow,
    session: &mut SessionRow,
    deliveries: &Vec<SessionInputDeliveryRow>,
    successor_id: String,
    idempotency_key: &String,
    successor_metadata: Value,
    terminal: OwnedTerminalEvent,
    now: Timestamp,
) -> (replacement: Option<Replacement>)
    ensures
        if may_end(*old(execution), deliveries@) {
            &&& ended(*old(execution), *final(execution), terminal, now)
            &&& status_given(
                *old(session),
                *final(session),
                old(execution).thread_key@,
                SessionStatus::Executing,
                now,
            )
            &&& replacement matches Some(made)
            &&& successor_of(
                made.successor,
                *old(execution),
                successor_id,
                *idempotency_key,
                successor_metadata,
            )
            &&& tells_of(made.event, *old(execution), terminal)
        } else {
            &&& replacement is None
            &&& *final(execution) == *old(execution)
            &&& *final(session) == *old(session)
        },
        replacement is Some <==> (old(execution).status@ == "queued"@
            || old(execution).status@ == "running"@) && !(exists|i: int|
            0 <= i < deliveries@.len()
                && (#[trigger] deliveries@[i]).execution_id@ == old(execution).execution_id@
                && (deliveries@[i].state@ == "pending"@ || deliveries@[i].state@ == "claimed"@
                || deliveries@[i].state@ == "ambiguous"@)),
        replacement matches Some(made) ==> made.successor.status@ == "queued"@
            && made.successor.execution_id == successor_id
                && made.successor.thread_key == old(execution).thread_key
            && made.event.execution_id == Some(old(execution).execution_id),
        replacement is Some && old(session).thread_key@ == old(execution).thread_key@
            ==> final(session).status@
            == "executing"@,
{
    proof {
        law_owed_deliveries(deliveries@, execution.execution_id@);
    }
    if !is_allowed_to_end(execution, deliveries) {
        return None;
    }
    let (status, _, error, event_type, payload) = terminal.into_parts();
    end_row(execution, status, error, now);
    set_session_status(session, execution.thread_key.as_str(), SessionStatus::Executing, now);
    Some(
        Replacement {
            successor: NewSessionExecution {
                execution_id: successor_id,
                thread_key: execution.thread_key.clone(),
                idempotency_key: Some(idempotency_key.clone()),
                status: ExecutionStatus::Queued.as_ref().to_owned(),
                metadata: successor_metadata,
            },
            event: NewSessionEvent {
                thread_key: execution.thread_key.clone(),
                execution_id: Some(execution.execution_id.clone()),
                event_type: event_type.to_owned(),
                payload,
            },
        },
    )
}

// ---------------------------------------------------------------------------
// Ends without an event
// ---------------------------------------------------------------------------

/// The execution was given a terminal status; who owned it is left as it is.
pub open spec fn concluded(
    before: SessionExecutionRow,
    after: SessionExecutionRow,
    status: ExecutionStatus,
    error: Option<String>,
    now: Timestamp,
) -> bool {
    &&& after.status@ == status.name()
    &&& after == (SessionExecutionRow {
        status: after.status,
        error,
        completed_at: completion(before.completed_at, now),
        updated_at: now,
        ..before
    })
}

/// Completes an execution, whatever its status, if no input is owed to it.
pub fn complete_execution(
    execution: &mut SessionExecutionRow,
    session: &mut SessionRow,
    deliveries: &Vec<SessionInputDeliveryRow>,
    now: Timestamp,
) -> (completed: bool)
    ensures
        completed == !unresolved_for(deliveries@, old(execution).execution_id@),
        if completed {
            &&& concluded(
                *old(execution),
                *final(execution),
                ExecutionStatus::Completed,
                old(execution).error,
                now,
            )
            &&& status_given(
                *old(session),
                *final(session),
                old(execution).thread_key@,
                SessionStatus::Idle,
                now,
            )
        } else {
            *final(execution) == *old(execution) && *final(session) == *old(session)
        },
        completed <==> !(exists|i: int|
            0 <= i < deliveries@.len()
                && (#[trigger] deliveries@[i]).execution_id@ == old(execution).execution_id@
                && (deliveries@[i].state@ == "pending"@ || deliveries@[i].state@ == "claimed"@
                || deliveries@[i].state@ == "ambiguous"@)),
        completed ==> final(execution).status@ == "completed"@
            && final(execution).completed_at is Some
            && final(execution).error == old(execution).error
                && (old(execution).completed_at is Some ==> final(execution).completed_at
            == old(execution).completed_at),
        completed && old(session).thread_key@ == old(execution).thread_key@
            ==> final(session).status@
            == "idle"@,
{
    proof {
        law_owed_deliveries(deliveries@, execution.execution_id@);
    }
    if is_unresolved_for(deliveries, execution.execution_id.as_str()) {
        return false;
    }
    execution.status = ExecutionStatus::Completed.as_ref().to_owned();
    if execution.completed_at.is_none() {
        execution.completed_at = Some(now);
    }
    execution.updated_at = now;
    set_session_status(session, execution.thread_key.as_str(), SessionStatus::Idle, now);
    true
}

/// Completes an active execution if no input is owed to it.
pub fn complete_execution_if_active(
    execution: &mut SessionExecutionRow,
    session: &mut SessionRow,
    deliveries: &Vec<SessionInputDeliveryRow>,
    now: Timestamp,
) -> (completed: bool)
    ensures
        completed == may_end(*old(execution), deliveries@),
        if completed {
            &&& concluded(
                *old(execution),
                *final(execution),
                ExecutionStatus::Completed,
                old(execution).error,
                now,
            )
            &&& status_given(
                *old(session),
                *final(session),
                old(execution).thread_key@,
                SessionStatus::Idle,
                now,
            )
        } else {
            *final(execution) == *old(execution) && *final(session) == *old(session)
        },
        completed <==> (old(execution).status@ == "queued"@
            || old(execution).status@ == "running"@) && !(exists|i: int|
            0 <= i < deliveries@.len()
                && (#[trigger] deliveries@[i]).execution_id@ == old(execution).execution_id@
                && (deliveries@[i].state@ == "pending"@ || deliveries@[i].state@ == "claimed"@
                || deliveries@[i].state@ == "ambiguous"@)),
        completed ==> final(execution).status@ == "completed"@
            && final(execution).completed_at is Some
            && final(execution).error == old(execution).error
                && (old(execution).completed_at is Some ==> final(execution).completed_at
            == old(execution).completed_at),
        completed && old(session).thread_key@ == old(execution).thread_key@
            ==> final(session).status@
            == "idle"@,
{
    proof {
        law_owed_deliveries(deliveries@, execution.execution_id@);
    }
    is_active(execution.status.as_str()) && complete_execution(execution, session, deliveries, now)
}

/// Fails an execution, whatever its status, if no input is owed to it.
pub fn fail_execution(
    execution: &mut SessionExecutionRow,
    session: &mut SessionRow,
    deliveries: &Vec<SessionInputDeliveryRow>,
    error: &String,
    now: Timestamp,
) -> (failed: bool)
    ensures
        failed == !unresolved_for(deliveries@, old(execution).execution_id@),
        if failed {
            &&& concluded(
                *old(execution),
                *final(execution),
                ExecutionStatus::Failed,
                Some(*error),
                now,
            )
            &&& status_given(
                *old(session),
                *final(session),
                old(execution).thread_key@,
                SessionStatus::Failed,
                now,
            )
        } else {
            *final(execution) == *old(execution) && *final(session) == *old(session)
        },
        failed <==> !(exists|i: int|
            0 <= i < deliveries@.len()
                && (#[trigger] deliveries@[i]).execution_id@ == old(execution).execution_id@
                && (deliveries@[i].state@ == "pending"@ || deliveries@[i].state@ == "claimed"@
                || deliveries@[i].state@ == "ambiguous"@)),
        failed ==> final(execution).status@ == "failed"@ && final(execution).completed_at is Some
            && final(execution).error == Some(*error) && (old(execution).completed_at is Some
                ==> final(execution).completed_at
            == old(execution).completed_at),
        failed && old(session).thread_key@ == old(execution).thread_key@ ==> final(session).status@
            == "failed"@,
{
    proof {
        law_owed_deliveries(deliveries@, execution.execution_id@);
    }
    if is_unresolved_for(deliveries, execution.execution_id.as_str()) {
        return false;
    }
    execution.status = ExecutionStatus::Failed.as_ref().to_owned();
    execution.error = Some(error.clone());
    if execution.completed_at.is_none() {
        execution.completed_at = Some(now);
    }
    execution.updated_at = now;
    set_session_status(session, execution.thread_key.as_str(), SessionStatus::Failed, now);
    true
}

/// Fails an active execution if no input is owed to it.
pub fn fail_execution_if_active(
    execution: &mut SessionExecutionRow,
    session: &mut SessionRow,
    deliveries: &Vec<SessionInputDeliveryRow>,
    error: &String,
    now: Timestamp,
) -> (failed: bool)
    ensures
        failed == may_end(*old(execution), deliveries@),
        if failed {
            &&& concluded(
                *old(execution),
                *final(execution),
                ExecutionStatus::Failed,
                Some(*error),
                now,
            )
            &&& status_given(
                *old(session),
                *final(session),
                old(execution).thread_key@,
                SessionStatus::Failed,
                now,
            )
        } else {
            *final(execution) == *old(execution) && *final(session) == *old(session)
        },
        failed <==> (old(execution).status@ == "queued"@ || old(execution).status@ == "running"@)
            && !(exists|i: int|
            0 <= i < deliveries@.len()
                && (#[trigger] deliveries@[i]).execution_id@ == old(execution).execution_id@
                && (deliveries@[i].state@ == "pending"@ || deliveries@[i].state@ == "claimed"@
                || deliveries@[i].state@ == "ambiguous"@)),
        failed ==> final(execution).status@ == "failed"@ && final(execution).completed_at is Some
            && final(execution).error == Some(*error) && (old(execution).completed_at is Some
                ==> final(execution).completed_at
            == old(execution).completed_at),
        failed && old(session).thread_key@ == old(execution).thread_key@ ==> final(session).status@
            == "failed"@,
{
    proof {
        law_owed_deliveries(deliveries@, execution.execution_id@);
    }
    is_active(execution.status.as_str()) && fail_execution(
        execution,
        session,
        deliveries,
        error,
        now,
    )
}

// ---------------------------------------------------------------------------
// Releasing everything at shutdown
// ---------------------------------------------------------------------------

/// The owner has the lease of an active execution.
pub open spec fn owned_active(execution: SessionExecutionRow, owner: Seq<char>) -> bool {
    execution.is_active() && holds(execution.stdout_owner_id, owner)
}

/// The execution after its owner shut down.
pub open spec fn after_shutdown(
    execution: SessionExecutionRow,
    owner: Seq<char>,
    now: Timestamp,
) -> SessionExecutionRow {
    if owned_active(execution, owner) {
        execution.unowned(now)
    } else {
        execution
    }
}

/// Whether the owner has the lease of an active execution.
pub fn is_owned_active(execution: &SessionExecutionRow, owner_id: &str) -> (is: bool)
    ensures
        is == owned_active(*execution, owner_id@),
{
    is_active(execution.status.as_str()) && opt_text_is(&execution.stdout_owner_id, owner_id)
}

/// Releases every active stdout-owner lease held by the owner, so that a peer can
/// claim the executions at once instead of waiting out the lease, and leaves the
/// deliveries that the owner had claimed ambiguous. Answers with the positions of
/// the released executions, in their order.
pub fn release_stdout_owned_executions(
    executions: &mut Vec<SessionExecutionRow>,
    deliveries: &mut Vec<SessionInputDeliveryRow>,
    owner_id: &str,
    now: Timestamp,
) -> (positions: Vec<usize>)
    ensures
        final(executions)@.len() == old(executions)@.len(),
        final(deliveries)@.len() == old(deliveries)@.len(),
        forall|i: int|
            0 <= i < old(executions)@.len() ==> #[trigger] final(executions)@[i] == after_shutdown(
                old(executions)@[i],
                owner_id@,
                now,
            ),
        forall|i: int|
            0 <= i < old(deliveries)@.len() ==> if claimed_by(old(deliveries)@[i], owner_id@) {
                released(
                    old(deliveries)@[i],
                    #[trigger] final(deliveries)@[i],
                    "control plane shut down before input flush committed"@,
                    now,
                )
            } else {
                final(deliveries)@[i] == old(deliveries)@[i]
            },
        forall|p: int|
            0 <= p < positions@.len() ==> (#[trigger] positions@[p]) < old(executions)@.len()
                && owned_active(old(executions)@[positions@[p] as int], owner_id@),
        forall|p: int, q: int|
            0 <= p < q < positions@.len() ==> #[trigger] positions@[p] < #[trigger] positions@[q],
        forall|i: int|
            0 <= i < old(executions)@.len() && owned_active(
                #[trigger] old(executions)@[i],
                owner_id@,
            ) ==> positions@.contains(i as usize),
        forall|i: int|
            0 <= i < old(executions)@.len() ==> ({
                let before = old(executions)@[i];
                let after = #[trigger] final(executions)@[i];
                if (before.status@ == "queued"@ || before.status@ == "running"@)
                    && before.stdout_owner_id is Some && before.stdout_owner_id->0@ == owner_id@ {
                    after.stdout_owner_id is None && after.stdout_owner_lease_expires_at is None
                        && after.status == before.status
                } else {
                    after == before
                }
            }),
        forall|i: int|
            0 <= i < old(deliveries)@.len() ==> ({
                let before = old(deliveries)@[i];
                let after = #[trigger] final(deliveries)@[i];
                if before.state@ == "claimed"@ && before.owner_id is Some && before.owner_id->0@
                    == owner_id@ {
                    after.state@ == "ambiguous"@ && after.owner_id is None
                        && after.owner_lease_expires_at is None && after.last_error is Some
                        && after.last_error->0@
                        == "control plane shut down before input flush committed"@
                        && after.owner_generation == before.owner_generation && after.input_lines
                        == before.input_lines
                } else {
                    after == before
                }
            }),
{
    let mut positions: Vec<usize> = Vec::new();
    let ghost executions_before = executions@;
    let mut i: usize = 0;
    while i < executions.len()
        invariant
            i <= executions.len(),
            executions@.len() == executions_before.len(),
            executions_before == old(executions)@,
            forall|j: int|
                0 <= j < i ==> #[trigger] executions@[j] == after_shutdown(
                    executions_before[j],
                    owner_id@,
                    now,
                ),
            forall|j: int| i <= j < executions@.len() ==> #[trigger] executions@[j] == executions_before[j],
            forall|p: int|
                0 <= p < positions@.len() ==> (#[trigger] positions@[p]) < i && owned_active(
                    executions_before[positions@[p] as int],
                    owner_id@,
                ),
            forall|p: int, q: int|
                0 <= p < q < positions@.len() ==> #[trigger] positions@[p]
                    < #[trigger] positions@[q],
            forall|j: int|
                0 <= j < i && owned_active(#[trigger] executions_before[j], owner_id@)
                    ==> positions@.contains(j as usize),
        decreases executions.len() - i,
    {
        if is_owned_active(&executions[i], owner_id) {
            let ghost listed = positions@;
            let execution = &mut executions[i];
            execution.stdout_owner_id = None;
            execution.stdout_owner_lease_expires_at = None;
            execution.updated_at = now;
            positions.push(i);
            proof {
                assert(positions@[listed.len() as int] == i);
                assert forall|n: usize| listed.contains(n) implies positions@.contains(n) by {
                    let p = choose|p: int| 0 <= p < listed.len() && listed[p] == n;
                    assert(positions@[p] == n);
                }
            }
        }
        i += 1;
    }
    let ghost deliveries_before = deliveries@;
    let mut k: usize = 0;
    while k < deliveries.len()
        invariant
            k <= deliveries.len(),
            deliveries@.len() == deliveries_before.len(),
            deliveries_before == old(deliveries)@,
            forall|j: int|
                0 <= j < k ==> if claimed_by(deliveries_before[j], owner_id@) {
                    released(
                        deliveries_before[j],
                        #[trigger] deliveries@[j],
                        "control plane shut down before input flush committed"@,
                        now,
                    )
                } else {
                    deliveries@[j] == deliveries_before[j]
                },
            forall|j: int|
                k <= j < deliveries@.len() ==> #[trigger] deliveries@[j] == deliveries_before[j],
        decreases deliveries.len() - k,
    {
        if is_claimed_by(&deliveries[k], owner_id) {
            mark_released(
                &mut deliveries[k],
                "control plane shut down before input flush committed",
                now,
            );
        }
        k += 1;
    }
    positions
}

/// The executions in the list whose active lease the owner has.
pub open spec fn owned_count(executions: Seq<SessionExecutionRow>, owner: Seq<char>) -> nat
    decreases executions.len(),
{
    if executions.len() == 0 {
        0
    } else {
        owned_count(executions.drop_last(), owner) + if owned_active(executions.last(), owner) {
            1nat
        } else {
            0nat
        }
    }
}

/// Counts the active executions whose lease the owner has.
pub fn count_executions_with_stdout_owner(
    executions: &Vec<SessionExecutionRow>,
    owner_id: &str,
) -> (count: u64)
    ensures
        count == owned_count(executions@, owner_id@),
{
    let mut count: u64 = 0;
    let mut i: usize = 0;
    while i < executions.len()
        invariant
            i <= executions.len(),
            count == owned_count(executions@.take(i as int), owner_id@),
            count <= i,
        decreases executions.len() - i,
    {
        proof {
            assert(executions@.take(i + 1).drop_last() =~= executions@.take(i as int));
        }
        if is_owned_active(&executions[i], owner_id) {
            count += 1;
        }
        i += 1;
    }
    assert(executions@.take(i as int) =~= executions@);
    count
}

/// Reads a released execution, whose key the parser has seen.
pub fn released_execution(
    execution_id: String,
    thread_key: Result<ThreadKey, String>,
) -> (read: Result<ReleasedExecution, SessionStoreError>)
    ensures
        match thread_key {
            Ok(key) => read == Ok::<ReleasedExecution, SessionStoreError>(
                ReleasedExecution { execution_id, thread_key: key },
            ),
            Err(words) => read == Err::<ReleasedExecution, SessionStoreError>(
                SessionStoreError::InvalidPersistedValue(words),
            ),
        },
{
    match parse_persisted(thread_key) {
        Ok(thread_key) => Ok(ReleasedExecution { execution_id, thread_key }),
        Err(error) => Err(error),
    }
}

} // verus!
