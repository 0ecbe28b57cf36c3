//! What holds of sandbox assignments across writes, clears and drains.
use crate::assignment::{
    assigned, identity_of, is_target_assignment, lacks_identity, no_sandbox, no_trace, trace_of,
    traced_assignment_allowed, with_sandbox, SandboxAssignmentSnapshot,
};
use crate::consent::{
    drain_target_of, is_drain_target, MetadataTraceActor, MetadataTraceConsent,
    MetadataTraceDrainTarget, TracedAssignmentRow,
};
use crate::consent_change::keeps_drain_open;
use crate::error::SessionStoreError;
use crate::flush::{assignment_matches, FlushRequest};
use crate::model::{SandboxCapabilities, ThreadKey, Timestamp};
use crate::reconciliation::SandboxAssignmentReconciliationLock;
use crate::rows::{capabilities_read, SandboxColumns, SessionRow, SessionRowParses, TraceColumns};
use crate::text::{holds, same_opt};
use crate::trace_config::{MetadataTraceConfigIdentity, MetadataTraceConfigStateRow};
use vstd::prelude::*;

verus! {

/// The snapshot of a session's assignment.
pub open spec fn snapshot_of(sandbox: SandboxColumns) -> SandboxAssignmentSnapshot {
    SandboxAssignmentSnapshot {
        sandbox_id: sandbox.sandbox_id,
        resource_uid: sandbox.resource_uid,
        assignment_epoch: sandbox.assignment_epoch,
    }
}

/// The traced assignment of a session, as a drain sees it.
pub open spec fn traced_row(row: SessionRow, thread_key: ThreadKey) -> TracedAssignmentRow {
    TracedAssignmentRow {
        thread_key: Ok(thread_key),
        sandbox_id: row.sandbox.sandbox_id,
        trace: row.sandbox.trace,
    }
}

/// The capabilities carry a trace boundary only if they enable it.
pub open spec fn trace_is_whole(capabilities: SandboxCapabilities) -> bool {
    !capabilities.metadata_trace_enabled ==> {
        &&& capabilities.metadata_trace_expires_at is None
        &&& capabilities.metadata_trace_subject_hash is None
        &&& capabilities.metadata_trace_consent_revision is None
        &&& capabilities.metadata_trace_config_fingerprint is None
        &&& capabilities.metadata_trace_config_generation is None
    }
}

/// The snapshot of an assignment matches that assignment, and the snapshot of a
/// session without a sandbox matches just such sessions.
pub proof fn law_snapshot_matches_what_was_seen(
    sandbox: SandboxColumns,
    none: SandboxAssignmentSnapshot,
)
    requires
        none.is_unassigned(),
    ensures
        snapshot_of(sandbox).matches(sandbox),
        none.matches(no_sandbox()),
        none.matches(sandbox) <==> sandbox.sandbox_id is None && sandbox.resource_uid is None
            && sandbox.assignment_epoch is None,
{
}

/// A snapshot from before an assignment does not match it, even where sandbox and
/// resource have the same names: the epochs differ.
pub proof fn law_earlier_snapshot_is_fenced(
    sandbox: SandboxColumns,
    sandbox_id: String,
    resource_uid: Option<String>,
    fresh_epoch: String,
    capabilities: SandboxCapabilities,
    trace: TraceColumns,
    now: Timestamp,
)
    requires
        !holds(sandbox.assignment_epoch, fresh_epoch@),
    ensures
        !snapshot_of(sandbox).matches(
            assigned(sandbox_id, resource_uid, fresh_epoch, capabilities, trace, now),
        ),
{
}

/// A session that was assigned a sandbox reads back exactly its capabilities, if
/// the persisted name of the cache access parses to that access.
pub proof fn law_capabilities_round_trip(
    sandbox_id: String,
    resource_uid: Option<String>,
    epoch: String,
    capabilities: SandboxCapabilities,
    source: Option<String>,
    workspace_id: Option<String>,
    user_id: Option<String>,
    traced_uid: Option<String>,
    trace_epoch: Option<String>,
    now: Timestamp,
    parses: SessionRowParses,
)
    requires
        trace_is_whole(capabilities),
        parses.repo_cache_access == Some(capabilities.repo_cache),
    ensures
        capabilities_read(
            assigned(
                sandbox_id,
                resource_uid,
                epoch,
                capabilities,
                trace_of(
                    capabilities,
                    source,
                    workspace_id,
                    user_id,
                    traced_uid,
                    trace_epoch,
                ),
                now,
            ),
            parses,
        ) == Some(capabilities),
{
}

/// Trace columns that were never written read as capabilities without tracing, and
/// a session without a sandbox has no capabilities.
pub proof fn law_untraced_columns_read_as_off(sandbox: SandboxColumns, parses: SessionRowParses)
    ensures
        capabilities_read(no_sandbox(), parses) is None,
        sandbox.trace.enabled is None ==> (capabilities_read(
            sandbox,
            parses,
        ) matches Some(capabilities) ==> !capabilities.metadata_trace_enabled
            && capabilities.metadata_trace_expires_at is None
            && capabilities.metadata_trace_consent_revision is None),
{
}

/// The sandbox that was assigned under a grant is found by the drain of that
/// grant's revision, and by no other actor's.
pub proof fn law_traced_assignment_is_drained_with_its_grant(
    row: SessionRow,
    thread_key: ThreadKey,
    sandbox_id: String,
    resource_uid: String,
    epoch: String,
    trace_epoch: String,
    capabilities: SandboxCapabilities,
    actor: MetadataTraceActor,
    other: MetadataTraceActor,
    revision: i64,
    now: Timestamp,
)
    requires
        capabilities.metadata_trace_enabled,
        capabilities.metadata_trace_consent_revision == Some(revision),
        other.user_id@ != actor.user_id@ || other.workspace_id@ != actor.workspace_id@
            || other.source@ != actor.source@,
    ensures
        ({
            let after = with_sandbox(
                row,
                assigned(
                    sandbox_id,
                    Some(resource_uid),
                    epoch,
                    capabilities,
                    trace_of(
                        capabilities,
                        Some(actor.source),
                        Some(actor.workspace_id),
                        Some(actor.user_id),
                        Some(resource_uid),
                        Some(trace_epoch),
                    ),
                    now,
                ),
                now,
            );
            &&& is_drain_target(traced_row(after, thread_key), actor, revision)
            &&& keeps_drain_open(traced_row(after, thread_key), actor)
            &&& !keeps_drain_open(traced_row(after, thread_key), other)
            &&& after.thread_key@ == thread_key.value@ ==> is_target_assignment(
                after,
                drain_target_of(traced_row(after, thread_key), thread_key),
                actor,
            )
        }),
{
}

/// Clearing a drained assignment ends what it kept open, and its target cannot be
/// cleared a second time.
pub proof fn law_cleared_assignment_is_drained(
    row: SessionRow,
    target: MetadataTraceDrainTarget,
    actor: MetadataTraceActor,
    thread_key: ThreadKey,
    now: Timestamp,
)
    requires
        is_target_assignment(row, target, actor),
    ensures
        ({
            let after = with_sandbox(
                row,
                SandboxColumns {
                    sandbox_id: None,
                    resource_uid: None,
                    assignment_epoch: None,
                    trace: no_trace(),
                    last_active_at: None,
                    ..row.sandbox
                },
                now,
            );
            &&& !keeps_drain_open(traced_row(after, thread_key), actor)
            &&& !is_target_assignment(after, target, actor)
        }),
{
}

/// A drain never clears a replacement: an assignment under another trace epoch
/// survives, whatever else it shares with the drained one.
pub proof fn law_replacement_survives_the_drain(
    row: SessionRow,
    target: MetadataTraceDrainTarget,
    actor: MetadataTraceActor,
)
    requires
        !holds(row.sandbox.trace.assignment_epoch, target.assignment_epoch@),
    ensures
        !is_target_assignment(row, target, actor),
{
}

/// A reconciler's lock is not for a replacement of the assignment it was taken for,
/// be it another sandbox, another resource or another epoch.
pub proof fn law_lock_is_not_for_a_replacement(
    lock: SandboxAssignmentReconciliationLock,
    row: SessionRow,
)
    requires
        !holds(row.sandbox.sandbox_id, lock.locked_sandbox()) || !same_opt(
            row.sandbox.resource_uid,
            lock.locked_resource(),
        ) || !same_opt(row.sandbox.assignment_epoch, lock.locked_epoch()),
    ensures
        !lock.is_for(row),
{
}

/// An identity is given out only for the sandbox that is assigned, and a pipe that
/// was opened for it cannot be flushed into once the assignment has another epoch.
pub proof fn law_identity_fences_the_pipe(
    sandbox: SandboxColumns,
    later: SandboxColumns,
    request: FlushRequest,
)
    requires
        identity_of(sandbox, request.sandbox_id@) == Some(request.assignment),
    ensures
        assignment_matches(sandbox, request),
        !same_opt(later.assignment_epoch, sandbox.assignment_epoch) ==> !assignment_matches(
            later,
            request,
        ),
{
}

/// Initializing the identity of an assignment is done once: afterwards it has one.
pub proof fn law_identity_is_initialized_once(
    sandbox: SandboxColumns,
    sandbox_id: Seq<char>,
    resource_uid: Option<String>,
    fresh_epoch: String,
)
    requires
        lacks_identity(sandbox, sandbox_id, resource_uid),
    ensures
        ({
            let after = SandboxColumns {
                resource_uid,
                assignment_epoch: Some(fresh_epoch),
                ..sandbox
            };
            &&& identity_of(sandbox, sandbox_id) is None
            &&& identity_of(after, sandbox_id) is Some
            &&& forall|other: Option<String>| !#[trigger] lacks_identity(after, sandbox_id, other)
        }),
{
}

/// A traced assignment needs its actor's own live consent, of its own revision, and
/// the active configuration.
pub proof fn law_traced_assignment_needs_consent_and_config(
    consent: Option<MetadataTraceConsent>,
    config: Option<MetadataTraceConfigStateRow>,
    identity: MetadataTraceConfigIdentity,
    capabilities: SandboxCapabilities,
    workspace_id: Seq<char>,
    user_id: Seq<char>,
    at: Timestamp,
)
    ensures
        traced_assignment_allowed(
            consent,
            config,
            identity,
            capabilities,
            workspace_id,
            user_id,
            at,
        ) == Ok::<bool, SessionStoreError>(true) ==> {
            &&& consent matches Some(row)
            &&& row.source@ == "slack"@
            &&& row.workspace_id@ == workspace_id
            &&& row.user_id@ == user_id
            &&& row.enabled
            &&& !row.drain_pending
            &&& row.expires_at matches Some(expiry) && expiry > at
            &&& capabilities.metadata_trace_consent_revision == Some(row.revision)
            &&& config matches Some(state)
            &&& state.is_active(identity)
        },
{
}

} // verus!
