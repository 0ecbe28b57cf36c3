//! What the rules on sandbox assignments, sessions and warm sandboxes come to, column
//! by column.
use crate::assignment::{
    assigned, consent_allows, identity_of, is_target_assignment, lacks_identity, no_sandbox,
    no_trace, on_harness, trace_of, traced_assignment_allowed, with_sandbox,
    SandboxAssignmentSnapshot,
};
use crate::consent::{MetadataTraceActor, MetadataTraceConsent, MetadataTraceDrainTarget};
use crate::error::SessionStoreError;
use crate::model::{
    HarnessType, SandboxCapabilities, Session, SessionStatus, ThreadKey, Timestamp,
};
use crate::reconciliation::SandboxAssignmentReconciliationLock;
use crate::rows::{
    capabilities_read, session_read, SandboxColumns, SessionRow, SessionRowParses, TraceColumns,
};
use crate::session::{
    claims_principal, is_principal_sandbox, session_agreed, session_bound, takes_labels,
    with_principal, SessionRequest,
};
use crate::text::holds;
use crate::trace_config::{MetadataTraceConfigIdentity, MetadataTraceConfigStateRow};
use crate::truth::Truth;
use crate::warm::{
    all_different, claimant_holds, claimed_for, has_identity, in_use, listed, ready_before,
    ready_count, ready_for, ready_identities, referenced, reserved, retired, stale,
    stale_identities, ReadyWarmSandbox, WarmSandboxRow,
};
use vstd::prelude::*;

verus! {

// ---------------------------------------------------------------------------
// Assignments
// ---------------------------------------------------------------------------

/// A snapshot matches exactly while the sandbox, its resource and its epoch are all
/// there or all missing as they were, with the same texts.
pub proof fn law_snapshot_conditions(
    snapshot: SandboxAssignmentSnapshot,
    sandbox: SandboxColumns,
)
    ensures
        snapshot.matches(sandbox) <==> {
            &&& sandbox.sandbox_id is Some <==> snapshot.sandbox_id is Some
            &&& sandbox.sandbox_id is Some ==> sandbox.sandbox_id->0@ == snapshot.sandbox_id->0@
            &&& sandbox.resource_uid is Some <==> snapshot.resource_uid is Some
            &&& sandbox.resource_uid is Some ==> sandbox.resource_uid->0@
                == snapshot.resource_uid->0@
            &&& sandbox.assignment_epoch is Some <==> snapshot.assignment_epoch is Some
            &&& sandbox.assignment_epoch is Some ==> sandbox.assignment_epoch->0@
                == snapshot.assignment_epoch->0@
        },
        snapshot.is_unassigned() <==> snapshot.sandbox_id is None && snapshot.resource_uid is None
            && snapshot.assignment_epoch is None,
{
}

/// A change of assignment changes the sandbox columns and the time of the change, and
/// nothing else of a session.
pub proof fn law_assignment_touches_only_the_sandbox(
    row: SessionRow,
    sandbox: SandboxColumns,
    now: Timestamp,
)
    ensures
        ({
            let after = with_sandbox(row, sandbox, now);
            &&& after.sandbox == sandbox
            &&& after.updated_at == now
            &&& after.thread_key == row.thread_key
            &&& after.title == row.title
            &&& after.harness_type == row.harness_type
            &&& after.harness_thread_id == row.harness_thread_id
            &&& after.persona_id == row.persona_id
            &&& after.status == row.status
            &&& after.iron_control_principal == row.iron_control_principal
            &&& after.proxy_labels == row.proxy_labels
            &&& after.created_at == row.created_at
        }),
{
}

/// A session without a sandbox has none of its columns.
pub proof fn law_no_sandbox_columns()
    ensures
        ({
            let none = no_sandbox();
            &&& none.sandbox_id is None
            &&& none.resource_uid is None
            &&& none.assignment_epoch is None
            &&& none.repo_cache_enabled is None
            &&& none.repo_cache_access is None
            &&& none.observability_enabled is None
            &&& none.api_server_enabled is None
            &&& none.last_active_at is None
            &&& none.trace == no_trace()
        }),
        ({
            let none = no_trace();
            &&& none.enabled is None
            &&& none.expires_at is None
            &&& none.subject_hash is None
            &&& none.source is None
            &&& none.workspace_id is None
            &&& none.user_id is None
            &&& none.consent_revision is None
            &&& none.config_fingerprint is None
            &&& none.config_generation is None
            &&& none.resource_uid is None
            &&& none.assignment_epoch is None
        }),
{
}

/// An assignment records the sandbox, its resource and its epoch, what the sandbox is
/// capable of, and that it is active now; its trace columns are those of the expected
/// boundary, with the actor, resource and epoch that are handed in.
pub proof fn law_assigned_columns(
    sandbox_id: String,
    resource_uid: Option<String>,
    epoch: String,
    capabilities: SandboxCapabilities,
    trace: TraceColumns,
    source: Option<String>,
    workspace_id: Option<String>,
    user_id: Option<String>,
    traced_uid: Option<String>,
    trace_epoch: Option<String>,
    now: Timestamp,
)
    ensures
        ({
            let sandbox = assigned(sandbox_id, resource_uid, epoch, capabilities, trace, now);
            &&& sandbox.sandbox_id == Some(sandbox_id)
            &&& sandbox.resource_uid == resource_uid
            &&& sandbox.assignment_epoch == Some(epoch)
            &&& sandbox.repo_cache_enabled == Some(capabilities.repo_cache.enabled)
            &&& sandbox.repo_cache_access == Some(capabilities.repo_cache.name)
            &&& sandbox.observability_enabled == Some(capabilities.observability_enabled)
            &&& sandbox.api_server_enabled == Some(capabilities.api_server_enabled)
            &&& sandbox.last_active_at == Some(now)
            &&& sandbox.trace == trace
        }),
        ({
            let trace = trace_of(
                capabilities,
                source,
                workspace_id,
                user_id,
                traced_uid,
                trace_epoch,
            );
            &&& trace.enabled == Some(capabilities.metadata_trace_enabled)
            &&& trace.expires_at == capabilities.metadata_trace_expires_at
            &&& trace.subject_hash == capabilities.metadata_trace_subject_hash
            &&& trace.consent_revision == capabilities.metadata_trace_consent_revision
            &&& trace.config_fingerprint == capabilities.metadata_trace_config_fingerprint
            &&& trace.config_generation == capabilities.metadata_trace_config_generation
            &&& trace.source == source
            &&& trace.workspace_id == workspace_id
            &&& trace.user_id == user_id
            &&& trace.resource_uid == traced_uid
            &&& trace.assignment_epoch == trace_epoch
        }),
{
}

/// The identity of an assignment is known exactly if the session has that very sandbox
/// under an epoch, and is then that epoch with the resource as it is recorded. It is
/// still to be given to a sandbox without an epoch whose resource is not recorded, or
/// is the one at hand.
pub proof fn law_identity_conditions(
    sandbox: SandboxColumns,
    sandbox_id: Seq<char>,
    resource_uid: Option<String>,
)
    ensures
        identity_of(sandbox, sandbox_id) is Some <==> {
            &&& sandbox.sandbox_id is Some && sandbox.sandbox_id->0@ == sandbox_id
            &&& sandbox.assignment_epoch is Some
        },
        identity_of(sandbox, sandbox_id) matches Some(identity) ==> {
            &&& sandbox.assignment_epoch == Some(identity.assignment_epoch)
            &&& identity.resource_uid == sandbox.resource_uid
        },
        lacks_identity(sandbox, sandbox_id, resource_uid) <==> {
            &&& sandbox.sandbox_id is Some && sandbox.sandbox_id->0@ == sandbox_id
            &&& sandbox.assignment_epoch is None
            &&& sandbox.resource_uid is None || (resource_uid is Some && sandbox.resource_uid->0@
                == resource_uid->0@)
        },
{
}

/// A traced sandbox may be assigned exactly if the Slack consent of that workspace and
/// user is on, not draining, of the boundary's revision and not over, and the
/// configuration is the active one. Where the consent has no expiry or the boundary no
/// revision, and nothing else refuses, it cannot be said.
pub proof fn law_traced_assignment_conditions(
    consent: Option<MetadataTraceConsent>,
    config: Option<MetadataTraceConfigStateRow>,
    identity: MetadataTraceConfigIdentity,
    capabilities: SandboxCapabilities,
    workspace_id: Seq<char>,
    user_id: Seq<char>,
    at: Timestamp,
)
    ensures
        ({
            let allowed = traced_assignment_allowed(
                consent,
                config,
                identity,
                capabilities,
                workspace_id,
                user_id,
                at,
            );
            let row = consent->0;
            let revision = capabilities.metadata_trace_consent_revision;
            let theirs = consent is Some && row.source@ == "slack"@ && row.workspace_id@
                == workspace_id && row.user_id@ == user_id;
            let refused = !row.enabled || row.drain_pending || (row.expires_at is Some
                && row.expires_at->0 <= at) || (revision is Some && revision->0 != row.revision);
            &&& allowed == Ok::<bool, SessionStoreError>(true) <==> {
                &&& theirs
                &&& row.enabled
                &&& !row.drain_pending
                &&& row.expires_at is Some && row.expires_at->0 > at
                &&& revision == Some(row.revision)
                &&& config is Some
                &&& config->0.generation == identity.generation
                &&& config->0.config_fingerprint@ == identity.fingerprint@
            }
            &&& allowed is Err <==> theirs && !refused && (row.expires_at is None
                || revision is None)
            &&& allowed is Err ==> allowed == Err::<bool, SessionStoreError>(
                SessionStoreError::UnexpectedNull,
            )
        }),
{
}

/// A consent allows a boundary, refuses it, or cannot say, by its columns.
pub proof fn law_consent_allowance(
    consent: MetadataTraceConsent,
    revision: Option<i64>,
    at: Timestamp,
)
    ensures
        consent_allows(consent, revision, at) == Truth::True <==> {
            &&& consent.enabled
            &&& !consent.drain_pending
            &&& consent.expires_at is Some && consent.expires_at->0 > at
            &&& revision == Some(consent.revision)
        },
        consent_allows(consent, revision, at) == Truth::False <==> {
            ||| !consent.enabled
            ||| consent.drain_pending
            ||| consent.expires_at is Some && consent.expires_at->0 <= at
            ||| revision is Some && revision->0 != consent.revision
        },
{
}

/// A drain clears a session's assignment exactly if thread, sandbox, epoch, revision,
/// resource and the whole actor are those of the target.
pub proof fn law_cleared_target_conditions(
    row: SessionRow,
    target: MetadataTraceDrainTarget,
    actor: MetadataTraceActor,
)
    ensures
        ({
            let trace = row.sandbox.trace;
            is_target_assignment(row, target, actor) <==> {
                &&& row.thread_key@ == target.thread_key.value@
                &&& row.sandbox.sandbox_id is Some && row.sandbox.sandbox_id->0@
                    == target.sandbox_id@
                &&& trace.assignment_epoch is Some && trace.assignment_epoch->0@
                    == target.assignment_epoch@
                &&& trace.source is Some && trace.source->0@ == actor.source@
                &&& trace.workspace_id is Some && trace.workspace_id->0@ == actor.workspace_id@
                &&& trace.user_id is Some && trace.user_id->0@ == actor.user_id@
                &&& trace.consent_revision == Some(target.revision)
                &&& trace.resource_uid is Some && trace.resource_uid->0@ == target.resource_uid@
            }
        }),
{
}

/// A switch of harness leaves the session without its harness thread and its sandbox,
/// on the new harness with the status given; nothing else changes.
pub proof fn law_harness_switch_columns(
    row: SessionRow,
    harness_type: HarnessType,
    status: String,
    now: Timestamp,
)
    ensures
        ({
            let after = on_harness(row, harness_type, status, now);
            &&& after.harness_type == harness_type.name
            &&& after.harness_thread_id is None
            &&& after.sandbox.sandbox_id is None
            &&& after.sandbox.resource_uid is None
            &&& after.sandbox.assignment_epoch is None
            &&& after.sandbox.last_active_at is None
            &&& after.sandbox == no_sandbox()
            &&& after.status == status
            &&& after.updated_at == now
            &&& after.thread_key == row.thread_key
            &&& after.title == row.title
            &&& after.persona_id == row.persona_id
            &&& after.iron_control_principal == row.iron_control_principal
            &&& after.proxy_labels == row.proxy_labels
            &&& after.created_at == row.created_at
        }),
{
}

/// A lock is for a session's assignment exactly while thread, sandbox, resource and
/// epoch are those that it was taken on.
pub proof fn law_lock_conditions(lock: SandboxAssignmentReconciliationLock, row: SessionRow)
    ensures
        lock.is_for(row) <==> {
            &&& row.thread_key@ == lock.locked_thread()
            &&& row.sandbox.sandbox_id is Some && row.sandbox.sandbox_id->0@
                == lock.locked_sandbox()
            &&& row.sandbox.resource_uid is Some <==> lock.locked_resource() is Some
            &&& row.sandbox.resource_uid is Some ==> row.sandbox.resource_uid->0@
                == lock.locked_resource()->0@
            &&& row.sandbox.assignment_epoch is Some <==> lock.locked_epoch() is Some
            &&& row.sandbox.assignment_epoch is Some ==> row.sandbox.assignment_epoch->0@
                == lock.locked_epoch()->0@
        },
{
}

// ---------------------------------------------------------------------------
// Reading a session
// ---------------------------------------------------------------------------

/// What a session row reads as: its own columns with the key, harness and status that
/// were read; or the first refusal, in that order.
pub proof fn law_session_read_columns(row: SessionRow, parses: SessionRowParses)
    ensures
        ({
            let read = session_read(row, parses);
            &&& read is Ok <==> parses.thread_key is Ok && parses.harness_type is Ok
                && parses.status is Ok
            &&& parses.thread_key is Err ==> read == Err::<Session, SessionStoreError>(
                SessionStoreError::InvalidPersistedValue(parses.thread_key->Err_0),
            )
            &&& parses.thread_key is Ok && parses.harness_type is Err ==> read == Err::<
                Session,
                SessionStoreError,
            >(SessionStoreError::InvalidPersistedValue(parses.harness_type->Err_0))
            &&& parses.thread_key is Ok && parses.harness_type is Ok && parses.status is Err
                ==> read == Err::<Session, SessionStoreError>(
                SessionStoreError::InvalidPersistedValue(parses.status->Err_0),
            )
            &&& read matches Ok(session) ==> {
                &&& parses.thread_key == Ok::<ThreadKey, String>(session.thread_key)
                &&& parses.harness_type == Ok::<HarnessType, String>(session.harness_type)
                &&& parses.status == Ok::<SessionStatus, String>(session.status)
                &&& session.title == row.title
                &&& session.sandbox_id == row.sandbox.sandbox_id
                &&& session.harness_thread_id == row.harness_thread_id
                &&& session.persona_id == row.persona_id
                &&& session.iron_control_principal == row.iron_control_principal
                &&& session.proxy_labels == row.proxy_labels
                &&& session.sandbox_last_active_at == row.sandbox.last_active_at
                &&& session.created_at == row.created_at
                &&& session.updated_at == row.updated_at
                &&& session.sandbox_capabilities == capabilities_read(row.sandbox, parses)
            }
        }),
{
}

/// The capabilities of a sandbox are known exactly if its cache, observability and API
/// columns are all there. The trace columns are read only of a sandbox that is traced.
pub proof fn law_capabilities_read_columns(sandbox: SandboxColumns, parses: SessionRowParses)
    ensures
        ({
            let read = capabilities_read(sandbox, parses);
            &&& read is Some <==> sandbox.repo_cache_enabled is Some
                && sandbox.observability_enabled is Some && sandbox.api_server_enabled is Some
            &&& read matches Some(capabilities) ==> {
                &&& Some(capabilities.observability_enabled) == sandbox.observability_enabled
                &&& Some(capabilities.api_server_enabled) == sandbox.api_server_enabled
                &&& parses.repo_cache_access is Some ==> Some(capabilities.repo_cache)
                    == parses.repo_cache_access
                &&& parses.repo_cache_access is None ==> capabilities.repo_cache
                    == parses.legacy_repo_cache_access
                &&& capabilities.metadata_trace_enabled <==> sandbox.trace.enabled == Some(true)
                &&& sandbox.trace.enabled == Some(true) ==> {
                    &&& capabilities.metadata_trace_expires_at == sandbox.trace.expires_at
                    &&& capabilities.metadata_trace_subject_hash == sandbox.trace.subject_hash
                    &&& capabilities.metadata_trace_consent_revision
                        == sandbox.trace.consent_revision
                    &&& capabilities.metadata_trace_config_fingerprint
                        == sandbox.trace.config_fingerprint
                    &&& capabilities.metadata_trace_config_generation
                        == sandbox.trace.config_generation
                }
                &&& sandbox.trace.enabled != Some(true) ==> {
                    &&& capabilities.metadata_trace_expires_at is None
                    &&& capabilities.metadata_trace_subject_hash is None
                    &&& capabilities.metadata_trace_consent_revision is None
                    &&& capabilities.metadata_trace_config_fingerprint is None
                    &&& capabilities.metadata_trace_config_generation is None
                }
            }
        }),
{
}

// ---------------------------------------------------------------------------
// Creating and finding a session
// ---------------------------------------------------------------------------

/// A found session takes a principal only by a binding that claims, and only if it has
/// none. It takes labels only if it has none, some are offered, and the principal that
/// it has by then is the one asked for, or none is. Nothing else of it changes.
pub proof fn law_bound_session_columns(row: SessionRow, request: SessionRequest, now: Timestamp)
    ensures
        ({
            let after = session_bound(row, request, now);
            let asked = request.binding.requested();
            let claims = request.binding is ClaimOrExact && row.iron_control_principal is None;
            let principal = if claims {
                asked
            } else {
                row.iron_control_principal
            };
            let agrees = request.binding is Unconstrained || (principal is Some && asked is Some
                && principal->0@ == asked->0@);
            let labels = request.proxy_labels.entries@.len() > 0
                && row.proxy_labels.entries@.len() == 0 && agrees;
            &&& claims_principal(row, request.binding) <==> claims
            &&& takes_labels(with_principal(row, request.binding, now), request) <==> labels
            &&& after.iron_control_principal == principal
            &&& labels ==> after.proxy_labels == request.proxy_labels
            &&& !labels ==> after.proxy_labels == row.proxy_labels
            &&& claims || labels ==> after.updated_at == now
            &&& !claims && !labels ==> after == row
            &&& row == (SessionRow {
                iron_control_principal: row.iron_control_principal,
                proxy_labels: row.proxy_labels,
                updated_at: row.updated_at,
                ..after
            })
        }),
        request.binding is Unconstrained ==> request.binding.requested() is None,
        request.binding is ClaimOrExact ==> request.binding.requested() == Some(
            request.binding->ClaimOrExact_0,
        ),
        request.binding is Exact ==> request.binding.requested() == Some(
            request.binding->Exact_0,
        ),
{
}

/// A session is handed out exactly if it could be read, has the principal asked for if
/// one was, the same harness and the same persona. Otherwise the first of these that
/// differs is named, with both sides.
pub proof fn law_handed_out_session_conditions(
    read: Result<Session, SessionStoreError>,
    request: SessionRequest,
)
    ensures
        ({
            let session = read->Ok_0;
            let answer = session_agreed(read, request);
            let asked = request.binding.requested();
            let principal = request.binding is Unconstrained || (
            session.iron_control_principal is Some && asked is Some
                && session.iron_control_principal->0@ == asked->0@);
            let harness = session.harness_type.name@ == request.harness_type.name@;
            let persona = (session.persona_id is Some <==> request.persona_id is Some) && (
            session.persona_id is Some ==> session.persona_id->0@ == request.persona_id->0@);
            &&& read is Err ==> answer == read
            &&& read is Ok && !principal ==> answer == Err::<Session, SessionStoreError>(
                SessionStoreError::PrincipalConflict {
                    thread_key: request.thread_key.value,
                    existing: session.iron_control_principal,
                    requested: asked,
                },
            )
            &&& read is Ok && principal && !harness ==> answer == Err::<
                Session,
                SessionStoreError,
            >(
                SessionStoreError::HarnessConflict {
                    thread_key: request.thread_key.value,
                    existing: session.harness_type.name,
                    requested: request.harness_type.name,
                },
            )
            &&& read is Ok && principal && harness && !persona ==> answer == Err::<
                Session,
                SessionStoreError,
            >(
                SessionStoreError::PersonaConflict {
                    thread_key: request.thread_key.value,
                    existing: session.persona_id,
                    requested: request.persona_id,
                },
            )
            &&& read is Ok && principal && harness && persona ==> answer == read
        }),
{
}

/// A sandbox counts as a principal's exactly if it is there and its session is bound
/// to a principal or traced.
pub proof fn law_principal_sandbox_conditions(row: SessionRow)
    ensures
        is_principal_sandbox(row) <==> row.sandbox.sandbox_id is Some && (
        row.iron_control_principal is Some || row.sandbox.trace.enabled == Some(true)),
{
}

// ---------------------------------------------------------------------------
// Warm sandboxes
// ---------------------------------------------------------------------------

/// What the changes of a warm sandbox write: a claim names the thread and the time, an
/// eviction only the status, a failure only its error; all note the time of the
/// change, and none changes the identity or the workload.
pub proof fn law_warm_sandbox_columns(
    before: WarmSandboxRow,
    after: WarmSandboxRow,
    thread_key: String,
    error: String,
    now: Timestamp,
)
    ensures
        claimed_for(before, after, thread_key, now) ==> {
            &&& after.status@ == "claimed"@
            &&& after.claimed_thread_key == Some(thread_key)
            &&& after.claimed_at == Some(now)
            &&& after.last_error == before.last_error
        },
        reserved(before, after, now) ==> {
            &&& after.status@ == "evicting"@
            &&& after.claimed_thread_key == before.claimed_thread_key
            &&& after.claimed_at == before.claimed_at
            &&& after.last_error == before.last_error
        },
        retired(before, after, error, now) ==> {
            &&& after.status@ == "failed"@
            &&& after.claimed_thread_key == before.claimed_thread_key
            &&& after.claimed_at == before.claimed_at
            &&& after.last_error == Some(error)
        },
        claimed_for(before, after, thread_key, now) || reserved(before, after, now) || retired(
            before,
            after,
            error,
            now,
        ) ==> {
            &&& after.sandbox_id == before.sandbox_id
            &&& after.resource_uid == before.resource_uid
            &&& after.assignment_epoch == before.assignment_epoch
            &&& after.workload_key == before.workload_key
            &&& after.created_at == before.created_at
            &&& after.updated_at == now
        },
{
}

/// Which warm sandboxes are which, by their columns: ready ones for their own workload
/// only; stale ones are those in eviction since the cutoff or before; and ready,
/// claimed and evicting ones are in use.
pub proof fn law_warm_sandbox_conditions(
    row: WarmSandboxRow,
    workload_key: Seq<char>,
    cutoff: Timestamp,
    sandbox: ReadyWarmSandbox,
)
    ensures
        ready_for(row, workload_key) <==> row.status@ == "ready"@ && row.workload_key@
            == workload_key,
        stale(row, cutoff) <==> row.status@ == "evicting"@ && row.updated_at <= cutoff,
        in_use(row) <==> row.status@ == "ready"@ || row.status@ == "claimed"@ || row.status@
            == "evicting"@,
        has_identity(row, sandbox) <==> {
            &&& row.sandbox_id@ == sandbox.sandbox_id@
            &&& row.resource_uid is Some <==> sandbox.resource_uid is Some
            &&& row.resource_uid is Some ==> row.resource_uid->0@ == sandbox.resource_uid->0@
            &&& row.assignment_epoch is Some <==> sandbox.assignment_epoch is Some
            &&& row.assignment_epoch is Some ==> row.assignment_epoch->0@
                == sandbox.assignment_epoch->0@
        },
{
}

/// A claimed warm sandbox is its claimant's exactly if it is that sandbox and resource,
/// claimed for the thread, and the thread's session has it under that epoch.
pub proof fn law_claimant_conditions(
    row: WarmSandboxRow,
    session: SessionRow,
    thread_key: Seq<char>,
    sandbox_id: Seq<char>,
    resource_uid: Seq<char>,
    assignment_epoch: Seq<char>,
)
    ensures
        claimant_holds(row, session, thread_key, sandbox_id, resource_uid, assignment_epoch)
            <==> {
            &&& row.sandbox_id@ == sandbox_id
            &&& row.status@ == "claimed"@
            &&& row.claimed_thread_key is Some && row.claimed_thread_key->0@ == thread_key
            &&& row.resource_uid is Some && row.resource_uid->0@ == resource_uid
            &&& session.thread_key@ == thread_key
            &&& session.sandbox.sandbox_id is Some && session.sandbox.sandbox_id->0@ == sandbox_id
            &&& session.sandbox.resource_uid is Some && session.sandbox.resource_uid->0@
                == resource_uid
            &&& session.sandbox.assignment_epoch is Some && session.sandbox.assignment_epoch->0@
                == assignment_epoch
        },
{
}

/// The count of the ready sandboxes of a workload, and the lists of the ready and of
/// the stale ones, grow by exactly the rows that qualify, in their order.
pub proof fn law_warm_sandboxes_are_counted_and_listed(
    rows: Seq<WarmSandboxRow>,
    row: WarmSandboxRow,
    workload_key: Seq<char>,
    cutoff: Timestamp,
)
    ensures
        ready_count(Seq::empty(), workload_key) == 0,
        ready_count(rows.push(row), workload_key) == ready_count(rows, workload_key) + (
        if row.status@ == "ready"@ && row.workload_key@ == workload_key {
            1nat
        } else {
            0nat
        }),
        ready_identities(Seq::empty()).len() == 0,
        row.status@ == "ready"@ ==> ready_identities(rows.push(row)) == ready_identities(rows).push(
            ReadyWarmSandbox {
                sandbox_id: row.sandbox_id,
                resource_uid: row.resource_uid,
                assignment_epoch: row.assignment_epoch,
            },
        ),
        row.status@ != "ready"@ ==> ready_identities(rows.push(row)) == ready_identities(rows),
        stale_identities(Seq::empty(), cutoff).len() == 0,
        row.status@ == "evicting"@ && row.updated_at <= cutoff ==> stale_identities(
            rows.push(row),
            cutoff,
        ) == stale_identities(rows, cutoff).push(
            ReadyWarmSandbox {
                sandbox_id: row.sandbox_id,
                resource_uid: row.resource_uid,
                assignment_epoch: row.assignment_epoch,
            },
        ),
        row.status@ != "evicting"@ || row.updated_at > cutoff ==> stale_identities(
            rows.push(row),
            cutoff,
        ) == stale_identities(rows, cutoff),
{
    assert(rows.push(row).drop_last() =~= rows);
}

/// A sandbox is referred to exactly if a session has it, or a warm sandbox that is
/// ready, claimed or evicting is it. A list of such names has each once.
pub proof fn law_referenced_sandboxes(
    id: Seq<char>,
    sessions: Seq<Option<String>>,
    warm: Seq<WarmSandboxRow>,
    list: Seq<String>,
)
    ensures
        referenced(id, sessions, warm) <==> {
            ||| exists|i: int|
                0 <= i < sessions.len() && (#[trigger] sessions[i]) is Some && sessions[i]->0@
                    == id
            ||| exists|i: int|
                0 <= i < warm.len() && (#[trigger] warm[i]).sandbox_id@ == id && (warm[i].status@
                    == "ready"@ || warm[i].status@ == "claimed"@ || warm[i].status@
                    == "evicting"@)
        },
        listed(list, id) <==> exists|i: int| 0 <= i < list.len() && (#[trigger] list[i])@ == id,
        all_different(list) <==> forall|i: int, j: int|
            0 <= i < list.len() && 0 <= j < list.len() && i != j ==> (#[trigger] list[i])@ != (
            #[trigger] list[j])@,
{
    if referenced(id, sessions, warm) {
        if exists|i: int|
            0 <= i < sessions.len() && holds(#[trigger] sessions[i], id) {
            let i = choose|i: int|
                0 <= i < sessions.len() && holds(#[trigger] sessions[i], id);
            assert(sessions[i] is Some);
        } else {
            let i = choose|i: int|
                0 <= i < warm.len() && in_use(#[trigger] warm[i]) && warm[i].sandbox_id@ == id;
            assert(warm[i].sandbox_id@ == id);
        }
    }
    if exists|i: int|
        0 <= i < sessions.len() && (#[trigger] sessions[i]) is Some && sessions[i]->0@ == id {
        let i = choose|i: int|
            0 <= i < sessions.len() && (#[trigger] sessions[i]) is Some && sessions[i]->0@ == id;
        assert(holds(sessions[i], id));
    }
    if exists|i: int|
        0 <= i < warm.len() && (#[trigger] warm[i]).sandbox_id@ == id && (warm[i].status@
            == "ready"@ || warm[i].status@ == "claimed"@ || warm[i].status@ == "evicting"@) {
        let i = choose|i: int|
            0 <= i < warm.len() && (#[trigger] warm[i]).sandbox_id@ == id && (warm[i].status@
                == "ready"@ || warm[i].status@ == "claimed"@ || warm[i].status@ == "evicting"@);
        assert(in_use(warm[i]) && warm[i].sandbox_id@ == id);
    }
}

/// The ready sandboxes before a place are counted one by one: none before the first, and
/// one more behind each that is ready.
pub proof fn law_ready_before_a_place(rows: Seq<WarmSandboxRow>, i: int)
    requires
        0 <= i < rows.len(),
    ensures
        ready_before(rows, 0) == 0,
        rows[i].status@ == "ready"@ ==> ready_before(rows, i + 1) == ready_before(rows, i) + 1,
        rows[i].status@ != "ready"@ ==> ready_before(rows, i + 1) == ready_before(rows, i),
{
    assert(rows.take(i + 1).drop_last() =~= rows.take(i));
    assert(rows.take(i + 1).last() == rows[i]);
    assert(rows.take(0) =~= Seq::<WarmSandboxRow>::empty());
}

} // verus!
