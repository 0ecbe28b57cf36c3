//! Creating a session, or finding the one that exists, and small changes to it.
//!
//! A session that exists is handed out only if it agrees with the request: bound
//! to the requested principal where one is requested, on the requested harness and
//! with the requested persona.
use crate::error::SessionStoreError;
use crate::execution::is_active;
use crate::model::{Clock, HarnessType, ProxyLabels, Session, SessionStatus, ThreadKey, Timestamp};
use crate::rows::{
    session_from_row, session_read, SessionExecutionRow, SessionRow, SessionRowParses,
};
use crate::text::{copy_opt, holds, opt_text_is, same_opt, same_opt_text, same_text};
use serde_json::Value;
use vstd::prelude::*;

verus! {

/// How a session is bound to a principal when it is created or found.
#[derive(Clone, Debug)]
pub enum SessionPrincipalBinding {
    /// Any principal, or none, will do.
    Unconstrained,
    /// The principal takes a session that has none; another one's is refused.
    ClaimOrExact(String),
    /// The session must be the principal's already, unless it is created now.
    Exact(String),
}

impl SessionPrincipalBinding {
    /// The principal that is asked for, if one is.
    pub open spec fn requested(self) -> Option<String> {
        match self {
            SessionPrincipalBinding::Unconstrained => None,
            SessionPrincipalBinding::ClaimOrExact(principal) => Some(principal),
            SessionPrincipalBinding::Exact(principal) => Some(principal),
        }
    }

    fn requested_principal(&self) -> (principal: Option<String>)
        ensures
            principal == self.requested(),
    {
        match self {
            SessionPrincipalBinding::Unconstrained => None,
            SessionPrincipalBinding::ClaimOrExact(principal) => Some(principal.clone()),
            SessionPrincipalBinding::Exact(principal) => Some(principal.clone()),
        }
    }
}

/// What a caller asks of a session.
#[derive(Clone, Debug)]
pub struct SessionRequest {
    pub thread_key: ThreadKey,
    pub harness_type: HarnessType,
    pub persona_id: Option<String>,
    pub proxy_labels: ProxyLabels,
    pub binding: SessionPrincipalBinding,
}

/// A session to be inserted, unless there is one under its key.
#[derive(Clone, Debug)]
pub struct NewSession {
    pub thread_key: String,
    pub harness_type: String,
    pub persona_id: Option<String>,
    pub status: String,
    pub metadata: Value,
    pub proxy_labels: ProxyLabels,
    pub iron_control_principal: Option<String>,
}

/// What became of a request: which columns of the row change, and the session or
/// why it is refused. The changes stand also where the session is refused.
#[derive(Debug)]
pub struct SessionOutcome {
    pub claimed_principal: bool,
    pub labelled: bool,
    pub session: Result<Session, SessionStoreError>,
}

/// The principal takes the session.
pub open spec fn claims_principal(row: SessionRow, binding: SessionPrincipalBinding) -> bool {
    binding is ClaimOrExact && row.iron_control_principal is None
}

/// The session with its principal.
pub open spec fn with_principal(
    row: SessionRow,
    binding: SessionPrincipalBinding,
    now: Timestamp,
) -> SessionRow {
    if claims_principal(row, binding) {
        SessionRow { iron_control_principal: binding.requested(), updated_at: now, ..row }
    } else {
        row
    }
}

/// The session agrees with the requested principal, if one is requested.
pub open spec fn principal_agrees(
    principal: Option<String>,
    binding: SessionPrincipalBinding,
) -> bool {
    binding is Unconstrained || same_opt(principal, binding.requested())
}

/// The session without labels takes those of the request.
pub open spec fn takes_labels(row: SessionRow, request: SessionRequest) -> bool {
    &&& request.proxy_labels.entries@.len() > 0
    &&& row.proxy_labels.entries@.len() == 0
    &&& principal_agrees(row.iron_control_principal, request.binding)
}

/// The session with its labels.
pub open spec fn with_labels(row: SessionRow, request: SessionRequest, now: Timestamp) -> SessionRow {
    if takes_labels(row, request) {
        SessionRow { proxy_labels: request.proxy_labels, updated_at: now, ..row }
    } else {
        row
    }
}

/// The session row once a request was applied to it: first the principal, then the
/// labels.
pub open spec fn session_bound(row: SessionRow, request: SessionRequest, now: Timestamp) -> SessionRow {
    with_labels(with_principal(row, request.binding, now), request, now)
}

/// The session that was read, if it agrees with the request: principal, harness and
/// persona are compared in this order.
pub open spec fn session_agreed(
    read: Result<Session, SessionStoreError>,
    request: SessionRequest,
) -> Result<Session, SessionStoreError> {
    match read {
        Err(error) => Err(error),
        Ok(session) => if !principal_agrees(session.iron_control_principal, request.binding) {
            Err(
                SessionStoreError::PrincipalConflict {
                    thread_key: request.thread_key.value,
                    existing: session.iron_control_principal,
                    requested: request.binding.requested(),
                },
            )
        } else if session.harness_type.name@ != request.harness_type.name@ {
            Err(
                SessionStoreError::HarnessConflict {
                    thread_key: request.thread_key.value,
                    existing: session.harness_type.name,
                    requested: request.harness_type.name,
                },
            )
        } else if !same_opt(session.persona_id, request.persona_id) {
            Err(
                SessionStoreError::PersonaConflict {
                    thread_key: request.thread_key.value,
                    existing: session.persona_id,
                    requested: request.persona_id,
                },
            )
        } else {
            Ok(session)
        },
    }
}

/// Makes the row of a new session: idle, bound to the requested principal, with the
/// labels of the request.
pub fn new_session(request: &SessionRequest, metadata: Value) -> (new: NewSession)
    ensures
        new.status@ == SessionStatus::Idle.name(),
        new.proxy_labels.entries@ == request.proxy_labels.entries@,
        new == (NewSession {
            thread_key: request.thread_key.value,
            harness_type: request.harness_type.name,
            persona_id: request.persona_id,
            status: new.status,
            metadata,
            proxy_labels: new.proxy_labels,
            iron_control_principal: request.binding.requested(),
        }),
        new.status@ == "idle"@,
        request.binding is Unconstrained ==> new.iron_control_principal is None,
        request.binding is ClaimOrExact ==> new.iron_control_principal == Some(
            request.binding->ClaimOrExact_0,
        ),
        request.binding is Exact ==> new.iron_control_principal == Some(request.binding->Exact_0),
{
    NewSession {
        thread_key: request.thread_key.value.clone(),
        harness_type: request.harness_type.name.clone(),
        persona_id: copy_opt(&request.persona_id),
        status: SessionStatus::Idle.as_ref().to_owned(),
        metadata,
        proxy_labels: request.proxy_labels.copy(),
        iron_control_principal: request.binding.requested_principal(),
    }
}

fn is_principal_agreeing(principal: &Option<String>, binding: &SessionPrincipalBinding) -> (is: bool)
    ensures
        is == principal_agrees(*principal, *binding),
{
    match binding {
        SessionPrincipalBinding::Unconstrained => true,
        SessionPrincipalBinding::ClaimOrExact(requested) => opt_text_is(
            principal,
            requested.as_str(),
        ),
        SessionPrincipalBinding::Exact(requested) => opt_text_is(principal, requested.as_str()),
    }
}

/// Applies a request to the row that stands under its key once an absent one was
/// inserted.
pub fn create_or_get_session_inner(
    row: SessionRow,
    parses: SessionRowParses,
    request: SessionRequest,
    now: Timestamp,
) -> (outcome: SessionOutcome)
    ensures
        outcome.claimed_principal == claims_principal(row, request.binding),
        outcome.labelled == takes_labels(with_principal(row, request.binding, now), request),
        outcome.session == session_agreed(
            session_read(session_bound(row, request, now), parses),
            request,
        ),
        outcome.claimed_principal <==> request.binding is ClaimOrExact
            && row.iron_control_principal is None,
        outcome.labelled ==> row.proxy_labels.entries@.len() == 0
            && request.proxy_labels.entries@.len() > 0,
        outcome.session matches Ok(session) ==> {
            &&& session.harness_type.name@ == request.harness_type.name@
            &&& session.persona_id is Some <==> request.persona_id is Some
            &&& session.persona_id is Some ==> session.persona_id->0@ == request.persona_id->0@
            &&& request.binding is ClaimOrExact ==> session.iron_control_principal is Some
                && session.iron_control_principal->0@ == request.binding->ClaimOrExact_0@
            &&& request.binding is Exact ==> session.iron_control_principal is Some
                && session.iron_control_principal->0@ == request.binding->Exact_0@
            &&& request.binding is Exact ==> row.iron_control_principal is Some
            &&& session.title == row.title
            &&& session.sandbox_id == row.sandbox.sandbox_id
        },
{
    let mut row = row;
    let claimed_principal = match &request.binding {
        SessionPrincipalBinding::ClaimOrExact(_) => row.iron_control_principal.is_none(),
        _ => false,
    };
    if claimed_principal {
        row.iron_control_principal = request.binding.requested_principal();
        row.updated_at = now;
    }
    let labelled = request.proxy_labels.entries.len() > 0 && row.proxy_labels.entries.len() == 0
        && is_principal_agreeing(&row.iron_control_principal, &request.binding);
    if labelled {
        row.proxy_labels = request.proxy_labels;
        row.updated_at = now;
    }
    let session = match session_from_row(row, parses) {
        Err(error) => Err(error),
        Ok(session) => {
            if !is_principal_agreeing(&session.iron_control_principal, &request.binding) {
                Err(
                    SessionStoreError::PrincipalConflict {
                        thread_key: request.thread_key.value,
                        existing: session.iron_control_principal,
                        requested: request.binding.requested_principal(),
                    },
                )
            } else if !same_text(session.harness_type.as_ref(), request.harness_type.as_ref()) {
                Err(
                    SessionStoreError::HarnessConflict {
                        thread_key: request.thread_key.value,
                        existing: session.harness_type.name,
                        requested: request.harness_type.name,
                    },
                )
            } else if !same_opt_text(&session.persona_id, &request.persona_id) {
                Err(
                    SessionStoreError::PersonaConflict {
                        thread_key: request.thread_key.value,
                        existing: session.persona_id,
                        requested: request.persona_id,
                    },
                )
            } else {
                Ok(session)
            }
        },
    };
    SessionOutcome { claimed_principal, labelled, session }
}

/// Reads a session that was looked up; an absent one is not found.
pub fn get_session(
    found: Option<(SessionRow, SessionRowParses)>,
    thread_key: &ThreadKey,
) -> (session: Result<Session, SessionStoreError>)
    ensures
        match found {
            None => session == Err::<Session, SessionStoreError>(
                SessionStoreError::NotFound { thread_key: thread_key.value },
            ),
            Some((row, parses)) => session == session_read(row, parses),
        },
{
    match found {
        None => Err(SessionStoreError::NotFound { thread_key: thread_key.value.clone() }),
        Some((row, parses)) => session_from_row(row, parses),
    }
}

/// Gives a session its title, unless it has one.
pub fn set_session_title_if_empty(row: &mut SessionRow, title: String, now: Timestamp) -> (set: bool)
    ensures
        set == (old(row).title is None),
        *final(row) == if set {
            SessionRow { title: Some(title), updated_at: now, ..*old(row) }
        } else {
            *old(row)
        },
        old(row).title is Some ==> *final(row) == *old(row),
        old(row).title is None ==> final(row).title == Some(title),
        final(row).sandbox == old(row).sandbox && final(row).status == old(row).status,
{
    if row.title.is_some() {
        return false;
    }
    row.title = Some(title);
    row.updated_at = now;
    true
}

/// Binds a session to a principal, or to none.
pub fn set_iron_control_principal(
    row: &mut SessionRow,
    iron_control_principal: Option<String>,
    now: Timestamp,
)
    ensures
        *final(row) == (SessionRow { iron_control_principal, updated_at: now, ..*old(row) }),
        final(row).iron_control_principal == iron_control_principal,
        final(row).sandbox == old(row).sandbox && final(row).status == old(row).status
            && final(row).proxy_labels == old(row).proxy_labels,
{
    row.iron_control_principal = iron_control_principal;
    row.updated_at = now;
}

/// Records the thread that the harness has for a session, or that it has none.
pub fn update_harness_thread_id(
    row: &mut SessionRow,
    harness_thread_id: Option<String>,
    now: Timestamp,
)
    ensures
        *final(row) == (SessionRow { harness_thread_id, updated_at: now, ..*old(row) }),
        final(row).harness_thread_id == harness_thread_id,
        final(row).sandbox == old(row).sandbox && final(row).status == old(row).status
            && final(row).harness_type == old(row).harness_type,
{
    row.harness_thread_id = harness_thread_id;
    row.updated_at = now;
}

/// Records harness state that was read from stdout only while the caller holds the
/// live lease of the session's active execution. This prevents an expired pump
/// from overwriting what an adopting control plane has recovered.
pub fn update_harness_thread_id_if_stdout_owner(
    row: &mut SessionRow,
    execution: &SessionExecutionRow,
    owner_id: &str,
    harness_thread_id: Option<String>,
    clock: Clock,
) -> (updated: bool)
    ensures
        updated == (execution.is_active() && execution.held_by(owner_id@, clock.wall)
            && execution.thread_key@ == old(row).thread_key@),
        *final(row) == if updated {
            SessionRow { harness_thread_id, updated_at: clock.now, ..*old(row) }
        } else {
            *old(row)
        },
        updated <==> (execution.status@ == "queued"@ || execution.status@ == "running"@)
            && execution.stdout_owner_id is Some && execution.stdout_owner_id->0@ == owner_id@
            && execution.stdout_owner_lease_expires_at is Some
            && execution.stdout_owner_lease_expires_at->0 > clock.wall && execution.thread_key@
            == old(row).thread_key@,
        updated ==> final(row).harness_thread_id == harness_thread_id,
        final(row).sandbox == old(row).sandbox && final(row).status == old(row).status,
{
    if !is_active(execution.status.as_str()) || !execution.is_held_by(owner_id, clock.wall)
        || !same_text(execution.thread_key.as_str(), row.thread_key.as_str()) {
        return false;
    }
    row.harness_thread_id = harness_thread_id;
    row.updated_at = clock.now;
    true
}

/// A session with a sandbox that is bound to a principal or traced.
pub open spec fn is_principal_sandbox(row: SessionRow) -> bool {
    row.sandbox.sandbox_id is Some && (row.iron_control_principal is Some
        || row.sandbox.trace.enabled == Some(true))
}

/// Whether a session belongs to those with a sandbox that is bound to a principal
/// or traced.
pub fn has_principal_sandbox(row: &SessionRow) -> (is: bool)
    ensures
        is == is_principal_sandbox(*row),
{
    row.sandbox.sandbox_id.is_some() && (row.iron_control_principal.is_some()
        || row.sandbox.trace.enabled == Some(true))
}

// ---------------------------------------------------------------------------
// Laws
// ---------------------------------------------------------------------------

/// A row is the one inserted for a request.
pub open spec fn inserted_for(row: SessionRow, request: SessionRequest) -> bool {
    &&& row.thread_key@ == request.thread_key.value@
    &&& row.harness_type@ == request.harness_type.name@
    &&& row.persona_id == request.persona_id
    &&& row.iron_control_principal == request.binding.requested()
    &&& row.proxy_labels.entries@ == request.proxy_labels.entries@
}

/// The request that created a session gets it, and changes nothing more of it.
pub proof fn law_created_session_is_handed_out(
    row: SessionRow,
    parses: SessionRowParses,
    request: SessionRequest,
    now: Timestamp,
)
    requires
        inserted_for(row, request),
        parses.thread_key is Ok,
        parses.status is Ok,
        parses.harness_type matches Ok(harness) && harness.name@ == row.harness_type@,
    ensures
        session_bound(row, request, now) == row,
        session_agreed(session_read(session_bound(row, request, now), parses), request)
            == session_read(row, parses),
        session_read(row, parses) is Ok,
{
}

/// A request for another principal than the session's is refused and changes
/// nothing, neither the principal nor the labels.
pub proof fn law_principal_mismatch_changes_nothing(
    row: SessionRow,
    request: SessionRequest,
    parses: SessionRowParses,
    now: Timestamp,
)
    requires
        request.binding !is Unconstrained,
        row.iron_control_principal is Some || request.binding is Exact,
        !same_opt(row.iron_control_principal, request.binding.requested()),
    ensures
        session_bound(row, request, now) == row,
        session_read(row, parses) is Ok ==> session_agreed(
            session_read(session_bound(row, request, now), parses),
            request,
        ) == Err::<Session, SessionStoreError>(
            SessionStoreError::PrincipalConflict {
                thread_key: request.thread_key.value,
                existing: row.iron_control_principal,
                requested: request.binding.requested(),
            },
        ),
{
}

/// A principal never changes once it is set, labels never change once there are
/// any, and applying a request twice is applying it once.
pub proof fn law_session_binding_is_set_once(
    row: SessionRow,
    request: SessionRequest,
    now: Timestamp,
    later: Timestamp,
)
    ensures
        row.iron_control_principal is Some ==> session_bound(
            row,
            request,
            now,
        ).iron_control_principal == row.iron_control_principal,
        row.proxy_labels.entries@.len() > 0 ==> session_bound(row, request, now).proxy_labels
            == row.proxy_labels,
        session_bound(session_bound(row, request, now), request, later) == session_bound(
            row,
            request,
            now,
        ),
{
}

/// A session whose labels have one value for each key keeps such labels, whatever
/// well formed request is applied to it, and hands them out.
pub proof fn law_labels_stay_well_formed(
    row: SessionRow,
    parses: SessionRowParses,
    request: SessionRequest,
    now: Timestamp,
)
    requires
        row.proxy_labels.well_formed(),
        request.proxy_labels.well_formed(),
    ensures
        session_bound(row, request, now).proxy_labels.well_formed(),
        session_agreed(session_read(session_bound(row, request, now), parses), request) matches Ok(
            session,
        ) ==> session.proxy_labels.well_formed(),
{
}

/// A session that is handed out agrees with the request.
pub proof fn law_handed_out_session_agrees(
    read: Result<Session, SessionStoreError>,
    request: SessionRequest,
)
    ensures
        session_agreed(read, request) matches Ok(session) ==> {
            &&& read == Ok::<Session, SessionStoreError>(session)
            &&& session.harness_type.name@ == request.harness_type.name@
            &&& same_opt(session.persona_id, request.persona_id)
            &&& request.binding.requested() matches Some(principal) ==> holds(
                session.iron_control_principal,
                principal@,
            )
        },
{
}

} // verus!
