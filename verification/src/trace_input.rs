//! Writing input to a traced sandbox under its actor's consent.
use crate::consent::{
    assignment_actor, consent_belongs, is_consent_of, metadata_trace_assignment_actor,
    MetadataTraceAssignmentActor, MetadataTraceConsent,
};
use crate::delivery::{is_unresolved_for, unresolved_for};
use crate::delivery_columns::law_owed_deliveries;
use crate::error::SessionStoreError;
use crate::execution::is_active;
use crate::flush::{consent_deadline, consent_write_deadline};
use crate::model::{SandboxCapabilities, ThreadKey, Timestamp};
use crate::rows::{SessionExecutionRow, SessionInputDeliveryRow, SessionRow, TraceColumns};
use crate::text::{holds, opt_text_is, same_opt, same_opt_text, same_text};
use crate::time::{remaining, time_left};
use crate::trace_config::{boundary_config, boundary_config_is_active, MetadataTraceConfigStateRow};
use crate::truth::Truth;
use vstd::prelude::*;

verus! {

/// The pipe that a caller wants to write to.
#[derive(Clone, Debug)]
pub struct TraceInputRequest {
    pub thread_key: ThreadKey,
    pub execution_id: String,
    pub sandbox_id: String,
    pub assignment_epoch: String,
    pub resource_uid: String,
}

/// A shared consent and assignment fence held until the caller finishes the
/// bounded sandbox stdin write. A revoke takes the same consent row exclusively,
/// so it cannot commit between authorization and delivery.
#[derive(Debug)]
pub struct MetadataTraceInputGuard {
    pub deadline: Timestamp,
    pub assignment_epoch: String,
    pub resource_uid: String,
}

impl MetadataTraceInputGuard {
    /// The whole seconds that the consent leaves, as read while the lock is held.
    pub fn remaining(&self, now: Timestamp) -> (left: Option<u64>)
        ensures
            left == time_left(self.deadline, now),
    {
        remaining(self.deadline, now)
    }
}

/// The boundary columns are the expected ones; absent ones count as equal.
pub open spec fn boundary_matches(trace: TraceColumns, expected: SandboxCapabilities) -> bool {
    &&& same_opt(trace.subject_hash, expected.metadata_trace_subject_hash)
    &&& trace.consent_revision == expected.metadata_trace_consent_revision
    &&& trace.expires_at == expected.metadata_trace_expires_at
    &&& same_opt(trace.config_fingerprint, expected.metadata_trace_config_fingerprint)
    &&& trace.config_generation == expected.metadata_trace_config_generation
}

/// The session and its active execution are those of the pipe, traced under the
/// expected boundary.
pub open spec fn is_traced_pipe(
    session: SessionRow,
    execution: SessionExecutionRow,
    request: TraceInputRequest,
    expected: SandboxCapabilities,
) -> bool {
    &&& execution.execution_id@ == request.execution_id@
    &&& execution.thread_key@ == session.thread_key@
    &&& session.thread_key@ == request.thread_key.value@
    &&& execution.is_active()
    &&& holds(session.sandbox.sandbox_id, request.sandbox_id@)
    &&& session.sandbox.trace.enabled == Some(true)
    &&& holds(session.sandbox.trace.assignment_epoch, request.assignment_epoch@)
    &&& holds(session.sandbox.trace.resource_uid, request.resource_uid@)
    &&& boundary_matches(session.sandbox.trace, expected)
}

/// The actor of the pipe, if it is the caller's and its actor is recorded.
pub open spec fn pipe_actor(
    session: Option<SessionRow>,
    execution: Option<SessionExecutionRow>,
    request: TraceInputRequest,
    expected: SandboxCapabilities,
) -> Option<MetadataTraceAssignmentActor> {
    match (session, execution) {
        (Some(row), Some(run)) => if is_traced_pipe(row, run, request, expected) {
            assignment_actor(
                row.sandbox.sandbox_id,
                row.sandbox.trace,
                request.sandbox_id@,
            )
        } else {
            None
        },
        _ => None,
    }
}

/// Finds the actor of the pipe, whose consent is then to be looked up.
pub fn trace_input_actor(
    session: &Option<SessionRow>,
    execution: &Option<SessionExecutionRow>,
    request: &TraceInputRequest,
    expected: &SandboxCapabilities,
) -> (actor: Option<MetadataTraceAssignmentActor>)
    ensures
        actor == pipe_actor(*session, *execution, *request, *expected),
{
    match (session, execution) {
        (Some(row), Some(run)) => {
            let trace = &row.sandbox.trace;
            if !(same_text(run.execution_id.as_str(), request.execution_id.as_str()) && same_text(
                run.thread_key.as_str(),
                row.thread_key.as_str(),
            ) && same_text(row.thread_key.as_str(), request.thread_key.as_str()) && is_active(
                run.status.as_str(),
            ) && opt_text_is(&row.sandbox.sandbox_id, request.sandbox_id.as_str()) && trace.enabled
                == Some(true) && opt_text_is(
                &trace.assignment_epoch,
                request.assignment_epoch.as_str(),
            ) && opt_text_is(&trace.resource_uid, request.resource_uid.as_str()) && same_opt_text(
                &trace.subject_hash,
                &expected.metadata_trace_subject_hash,
            ) && trace.consent_revision == expected.metadata_trace_consent_revision
                && trace.expires_at == expected.metadata_trace_expires_at && same_opt_text(
                &trace.config_fingerprint,
                &expected.metadata_trace_config_fingerprint,
            ) && trace.config_generation == expected.metadata_trace_config_generation) {
                return None;
            }
            metadata_trace_assignment_actor(
                &row.sandbox.sandbox_id,
                trace,
                request.sandbox_id.as_str(),
            )
        },
        _ => None,
    }
}

/// What authorizes the write: the pipe's actor, that actor's consent for exactly
/// the expected boundary with time left, and the configuration of that boundary.
/// The deadline is the consent's expiry. A boundary whose configuration cannot be
/// compared is an error.
pub open spec fn trace_input_locked(
    session: Option<SessionRow>,
    execution: Option<SessionExecutionRow>,
    consent: Option<MetadataTraceConsent>,
    config: Option<MetadataTraceConfigStateRow>,
    request: TraceInputRequest,
    expected: SandboxCapabilities,
    at: Timestamp,
) -> Result<Option<MetadataTraceInputGuard>, SessionStoreError> {
    match pipe_actor(session, execution, request, expected) {
        None => Ok(None),
        Some(actor) => match consent_deadline(consent, expected, at) {
            Some(deadline) if consent_belongs(consent, actor) => match boundary_config(
                config,
                expected.metadata_trace_config_generation,
                expected.metadata_trace_config_fingerprint,
            ) {
                Truth::Unknown => Err(SessionStoreError::UnexpectedNull),
                Truth::False => Ok(None),
                Truth::True => Ok(
                    Some(
                        MetadataTraceInputGuard {
                            deadline,
                            assignment_epoch: actor.assignment_epoch,
                            resource_uid: actor.resource_uid,
                        },
                    ),
                ),
            },
            _ => Ok(None),
        },
    }
}

/// Authorizes a write on the rows that were locked for it.
pub fn lock_metadata_trace_input(
    session: &Option<SessionRow>,
    execution: &Option<SessionExecutionRow>,
    consent: &Option<MetadataTraceConsent>,
    config: &Option<MetadataTraceConfigStateRow>,
    request: &TraceInputRequest,
    expected: &SandboxCapabilities,
    at: Timestamp,
) -> (guard: Result<Option<MetadataTraceInputGuard>, SessionStoreError>)
    ensures
        guard == trace_input_locked(
            *session,
            *execution,
            *consent,
            *config,
            *request,
            *expected,
            at,
        ),
{
    let actor = match trace_input_actor(session, execution, request, expected) {
        None => return Ok(None),
        Some(actor) => actor,
    };
    let deadline: i128 = match consent_write_deadline(consent, expected, at) {
        None => return Ok(None),
        Some(deadline) => deadline,
    };
    if !is_consent_of(consent, &actor) {
        return Ok(None);
    }
    match boundary_config_is_active(
        config,
        expected.metadata_trace_config_generation,
        &expected.metadata_trace_config_fingerprint,
    ) {
        Truth::Unknown => Err(SessionStoreError::UnexpectedNull),
        Truth::False => Ok(None),
        Truth::True => Ok(
            Some(
                MetadataTraceInputGuard {
                    deadline,
                    assignment_epoch: actor.assignment_epoch,
                    resource_uid: actor.resource_uid,
                },
            ),
        ),
    }
}

/// The trace boundary recorded in the metadata of an execution. A boundary that
/// does not say whether it is enabled is not.
#[derive(Clone, Debug)]
pub struct ExecutionTraceBoundary {
    pub enabled: bool,
    pub subject_hash: Option<String>,
    pub consent_revision: Option<i64>,
    pub expires_at: Option<Timestamp>,
    pub config_fingerprint: Option<String>,
    pub config_generation: Option<i64>,
}

/// The recorded boundary is the expected one.
pub open spec fn boundary_is(
    boundary: ExecutionTraceBoundary,
    expected: SandboxCapabilities,
) -> bool {
    &&& boundary.enabled == expected.metadata_trace_enabled
    &&& same_opt(boundary.subject_hash, expected.metadata_trace_subject_hash)
    &&& boundary.consent_revision == expected.metadata_trace_consent_revision
    &&& boundary.expires_at == expected.metadata_trace_expires_at
    &&& same_opt(boundary.config_fingerprint, expected.metadata_trace_config_fingerprint)
    &&& boundary.config_generation == expected.metadata_trace_config_generation
}

/// An input write is for this active execution, to which no durable input is owed,
/// under its recorded boundary; a traced one only before the boundary's expiry and
/// while its configuration is active.
pub open spec fn may_write_input(
    execution: SessionExecutionRow,
    deliveries: Seq<SessionInputDeliveryRow>,
    boundary: ExecutionTraceBoundary,
    expected: SandboxCapabilities,
    config: Option<MetadataTraceConfigStateRow>,
    now: Timestamp,
) -> bool {
    &&& !unresolved_for(deliveries, execution.execution_id@)
    &&& execution.is_active()
    &&& boundary_is(boundary, expected)
    &&& expected.metadata_trace_enabled ==> {
        &&& boundary.expires_at matches Some(expiry) && expiry > now
        &&& boundary_config(
            config,
            expected.metadata_trace_config_generation,
            expected.metadata_trace_config_fingerprint,
        ) == Truth::True
    }
}

/// Fences an input write to one active execution and its full trace boundary, by a
/// conditional touch of the execution right before the pipe is written.
pub fn claim_active_trace_input(
    execution: &mut SessionExecutionRow,
    deliveries: &Vec<SessionInputDeliveryRow>,
    boundary: &ExecutionTraceBoundary,
    capabilities: &SandboxCapabilities,
    config: &Option<MetadataTraceConfigStateRow>,
    now: Timestamp,
) -> (claimed: bool)
    ensures
        claimed == may_write_input(
            *old(execution),
            deliveries@,
            *boundary,
            *capabilities,
            *config,
            now,
        ),
        *final(execution) == if claimed {
            SessionExecutionRow { updated_at: now, ..*old(execution) }
        } else {
            *old(execution)
        },
        claimed ==> (old(execution).status@ == "queued"@ || old(execution).status@ == "running"@)
            && forall|i: int|
            0 <= i < deliveries@.len() && (#[trigger] deliveries@[i]).execution_id@
                == old(execution).execution_id@ ==> deliveries@[i].state@ != "pending"@
                && deliveries@[i].state@ != "claimed"@ && deliveries@[i].state@ != "ambiguous"@,
        claimed ==> boundary.enabled == capabilities.metadata_trace_enabled
            && boundary.consent_revision
            == capabilities.metadata_trace_consent_revision && boundary.expires_at
            == capabilities.metadata_trace_expires_at && boundary.config_generation
            == capabilities.metadata_trace_config_generation,
        final(execution).status == old(execution).status && final(execution).stdout_owner_id
            == old(execution).stdout_owner_id,
{
    proof {
        law_owed_deliveries(deliveries@, execution.execution_id@);
    }
    if is_unresolved_for(deliveries, execution.execution_id.as_str()) || !is_active(
        execution.status.as_str(),
    ) {
        return false;
    }
    if !(boundary.enabled == capabilities.metadata_trace_enabled && same_opt_text(
        &boundary.subject_hash,
        &capabilities.metadata_trace_subject_hash,
    ) && boundary.consent_revision == capabilities.metadata_trace_consent_revision
        && boundary.expires_at == capabilities.metadata_trace_expires_at && same_opt_text(
        &boundary.config_fingerprint,
        &capabilities.metadata_trace_config_fingerprint,
    ) && boundary.config_generation == capabilities.metadata_trace_config_generation) {
        return false;
    }
    if capabilities.metadata_trace_enabled {
        let live = match boundary.expires_at {
            Some(expiry) => expiry > now,
            None => false,
        };
        if !live {
            return false;
        }
        match boundary_config_is_active(
            config,
            capabilities.metadata_trace_config_generation,
            &capabilities.metadata_trace_config_fingerprint,
        ) {
            Truth::True => {},
            _ => return false,
        }
    }
    execution.updated_at = now;
    true
}

/// A write that was authorized has time left, and none is authorized once the
/// consent was revoked, was granted anew, waits for a drain or has run out, or
/// once another configuration is active.
pub proof fn law_trace_input_needs_the_live_boundary(
    session: Option<SessionRow>,
    execution: Option<SessionExecutionRow>,
    consent: Option<MetadataTraceConsent>,
    config: Option<MetadataTraceConfigStateRow>,
    request: TraceInputRequest,
    expected: SandboxCapabilities,
    at: Timestamp,
)
    ensures
        trace_input_locked(session, execution, consent, config, request, expected, at) matches Ok(
            Some(guard),
        ) ==> {
            &&& guard.deadline > at
            &&& time_left(guard.deadline, at) is Some
            &&& consent matches Some(row)
            &&& row.enabled
            &&& !row.drain_pending
            &&& row.expires_at == Some(guard.deadline)
            &&& expected.metadata_trace_consent_revision matches Some(revision) ==> row.revision
                == revision
            &&& config matches Some(state)
            &&& expected.metadata_trace_config_generation == Some(state.generation)
            &&& execution matches Some(run)
            &&& run.is_active()
            &&& session matches Some(owner)
            &&& holds(owner.sandbox.sandbox_id, request.sandbox_id@)
            &&& holds(owner.sandbox.trace.assignment_epoch, guard.assignment_epoch@)
            &&& holds(owner.sandbox.trace.resource_uid, guard.resource_uid@)
        },
{
}

} // verus!
