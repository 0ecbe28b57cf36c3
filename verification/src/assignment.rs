//! Which sandbox a session is assigned, and the fences on changing that.
//!
//! Each assignment gets a fresh epoch, so that a sandbox reused under the same
//! name is still told from the one that was observed before. Writes that follow
//! work on the backend are made only while the observed assignment is current.
use crate::consent::{MetadataTraceActor, MetadataTraceConsent, MetadataTraceDrainTarget};
use crate::error::SessionStoreError;
use crate::model::{Clock, HarnessType, SandboxCapabilities, SessionStatus, ThreadKey, Timestamp};
use crate::rows::{SandboxColumns, SessionRow, TraceColumns};
use crate::text::{copy_opt, holds, opt_text_is, same_opt, same_opt_text, same_text};
use crate::trace_config::{MetadataTraceConfigIdentity, MetadataTraceConfigStateRow};
use crate::truth::{
    after, both, conjunction, integer_equals, integer_is, is_after, known, truth_of, Truth,
};
use vstd::prelude::*;

verus! {

/// The exact backend identity of the sandbox assignment which owns a pipe.
/// A backend without stable resource UIDs still fences the assignment by epoch.
#[derive(Clone, Debug, PartialEq, Eq)]
pub struct SandboxAssignmentIdentity {
    pub assignment_epoch: String,
    pub resource_uid: Option<String>,
}

/// Complete snapshot used to fence an assignment write across the external
/// sandbox create/claim interval, including same-name ABA reuse.
#[derive(Clone, Debug, PartialEq, Eq)]
pub struct SandboxAssignmentSnapshot {
    pub sandbox_id: Option<String>,
    pub resource_uid: Option<String>,
    pub assignment_epoch: Option<String>,
}

/// The two epochs drawn for an assignment: its own, and that of its trace
/// boundary.
#[derive(Clone, Debug)]
pub struct FreshEpochs {
    pub assignment: String,
    pub trace: String,
}

impl SandboxAssignmentSnapshot {
    /// The snapshot of a session without a sandbox.
    pub open spec fn is_unassigned(self) -> bool {
        self.sandbox_id is None && self.resource_uid is None && self.assignment_epoch is None
    }

    /// The snapshot of a session without a sandbox.
    pub fn unassigned() -> (snapshot: SandboxAssignmentSnapshot)
        ensures
            snapshot.is_unassigned(),
    {
        SandboxAssignmentSnapshot { sandbox_id: None, resource_uid: None, assignment_epoch: None }
    }

    /// The assignment is still the one that was observed.
    pub open spec fn matches(self, sandbox: SandboxColumns) -> bool {
        &&& same_opt(sandbox.sandbox_id, self.sandbox_id)
        &&& same_opt(sandbox.resource_uid, self.resource_uid)
        &&& same_opt(sandbox.assignment_epoch, self.assignment_epoch)
    }

    /// Whether the assignment is still the one that was observed.
    pub fn is_current(&self, sandbox: &SandboxColumns) -> (is: bool)
        ensures
            is == self.matches(*sandbox),
    {
        same_opt_text(&sandbox.sandbox_id, &self.sandbox_id) && same_opt_text(
            &sandbox.resource_uid,
            &self.resource_uid,
        ) && same_opt_text(&sandbox.assignment_epoch, &self.assignment_epoch)
    }
}

// ---------------------------------------------------------------------------
// Columns of an assignment
// ---------------------------------------------------------------------------

/// No trace boundary.
pub open spec fn no_trace() -> TraceColumns {
    TraceColumns {
        enabled: None,
        expires_at: None,
        subject_hash: None,
        source: None,
        workspace_id: None,
        user_id: None,
        consent_revision: None,
        config_fingerprint: None,
        config_generation: None,
        resource_uid: None,
        assignment_epoch: None,
    }
}

/// No sandbox.
pub open spec fn no_sandbox() -> SandboxColumns {
    SandboxColumns {
        sandbox_id: None,
        resource_uid: None,
        assignment_epoch: None,
        repo_cache_enabled: None,
        repo_cache_access: None,
        observability_enabled: None,
        api_server_enabled: None,
        trace: no_trace(),
        last_active_at: None,
    }
}

/// The trace boundary of an assignment: the capabilities' own part, the actor it
/// is for, and the identity of the traced resource.
pub open spec fn trace_of(
    capabilities: SandboxCapabilities,
    source: Option<String>,
    workspace_id: Option<String>,
    user_id: Option<String>,
    resource_uid: Option<String>,
    assignment_epoch: Option<String>,
) -> TraceColumns {
    TraceColumns {
        enabled: Some(capabilities.metadata_trace_enabled),
        expires_at: capabilities.metadata_trace_expires_at,
        subject_hash: capabilities.metadata_trace_subject_hash,
        source,
        workspace_id,
        user_id,
        consent_revision: capabilities.metadata_trace_consent_revision,
        config_fingerprint: capabilities.metadata_trace_config_fingerprint,
        config_generation: capabilities.metadata_trace_config_generation,
        resource_uid,
        assignment_epoch,
    }
}

/// The columns of a new assignment.
pub open spec fn assigned(
    sandbox_id: String,
    resource_uid: Option<String>,
    assignment_epoch: String,
    capabilities: SandboxCapabilities,
    trace: TraceColumns,
    now: Timestamp,
) -> SandboxColumns {
    SandboxColumns {
        sandbox_id: Some(sandbox_id),
        resource_uid,
        assignment_epoch: Some(assignment_epoch),
        repo_cache_enabled: Some(capabilities.repo_cache.enabled),
        repo_cache_access: Some(capabilities.repo_cache.name),
        observability_enabled: Some(capabilities.observability_enabled),
        api_server_enabled: Some(capabilities.api_server_enabled),
        trace,
        last_active_at: Some(now),
    }
}

/// The session with other sandbox columns.
pub open spec fn with_sandbox(row: SessionRow, sandbox: SandboxColumns, now: Timestamp) -> SessionRow {
    SessionRow { sandbox, updated_at: now, ..row }
}

fn empty_trace() -> (trace: TraceColumns)
    ensures
        trace == no_trace(),
{
    TraceColumns {
        enabled: None,
        expires_at: None,
        subject_hash: None,
        source: None,
        workspace_id: None,
        user_id: None,
        consent_revision: None,
        config_fingerprint: None,
        config_generation: None,
        resource_uid: None,
        assignment_epoch: None,
    }
}

fn empty_sandbox() -> (sandbox: SandboxColumns)
    ensures
        sandbox == no_sandbox(),
{
    SandboxColumns {
        sandbox_id: None,
        resource_uid: None,
        assignment_epoch: None,
        repo_cache_enabled: None,
        repo_cache_access: None,
        observability_enabled: None,
        api_server_enabled: None,
        trace: empty_trace(),
        last_active_at: None,
    }
}

fn make_trace(
    capabilities: &SandboxCapabilities,
    source: Option<String>,
    workspace_id: Option<String>,
    user_id: Option<String>,
    resource_uid: Option<String>,
    assignment_epoch: Option<String>,
) -> (trace: TraceColumns)
    ensures
        trace == trace_of(
            *capabilities,
            source,
            workspace_id,
            user_id,
            resource_uid,
            assignment_epoch,
        ),
{
    TraceColumns {
        enabled: Some(capabilities.metadata_trace_enabled),
        expires_at: capabilities.metadata_trace_expires_at,
        subject_hash: copy_opt(&capabilities.metadata_trace_subject_hash),
        source,
        workspace_id,
        user_id,
        consent_revision: capabilities.metadata_trace_consent_revision,
        config_fingerprint: copy_opt(&capabilities.metadata_trace_config_fingerprint),
        config_generation: capabilities.metadata_trace_config_generation,
        resource_uid,
        assignment_epoch,
    }
}

fn make_assigned(
    sandbox_id: String,
    resource_uid: Option<String>,
    assignment_epoch: String,
    capabilities: &SandboxCapabilities,
    trace: TraceColumns,
    now: Timestamp,
) -> (sandbox: SandboxColumns)
    ensures
        sandbox == assigned(sandbox_id, resource_uid, assignment_epoch, *capabilities, trace, now),
{
    SandboxColumns {
        sandbox_id: Some(sandbox_id),
        resource_uid,
        assignment_epoch: Some(assignment_epoch),
        repo_cache_enabled: Some(capabilities.repo_cache.enabled),
        repo_cache_access: Some(capabilities.repo_cache.name.clone()),
        observability_enabled: Some(capabilities.observability_enabled),
        api_server_enabled: Some(capabilities.api_server_enabled),
        trace,
        last_active_at: Some(now),
    }
}

// ---------------------------------------------------------------------------
// Observing an assignment
// ---------------------------------------------------------------------------

/// The identity of the current assignment of exactly this sandbox, if it has an
/// epoch.
pub open spec fn identity_of(sandbox: SandboxColumns, sandbox_id: Seq<char>) -> Option<
    SandboxAssignmentIdentity,
> {
    if holds(sandbox.sandbox_id, sandbox_id) {
        match sandbox.assignment_epoch {
            Some(assignment_epoch) => Some(
                SandboxAssignmentIdentity {
                    assignment_epoch,
                    resource_uid: sandbox.resource_uid,
                },
            ),
            None => None,
        }
    } else {
        None
    }
}

/// Reads the identity of the current assignment of exactly this sandbox.
pub fn current_sandbox_assignment_identity(
    sandbox: &SandboxColumns,
    sandbox_id: &str,
) -> (identity: Option<SandboxAssignmentIdentity>)
    ensures
        identity == identity_of(*sandbox, sandbox_id@),
{
    if !opt_text_is(&sandbox.sandbox_id, sandbox_id) {
        return None;
    }
    match &sandbox.assignment_epoch {
        Some(assignment_epoch) => Some(
            SandboxAssignmentIdentity {
                assignment_epoch: assignment_epoch.clone(),
                resource_uid: copy_opt(&sandbox.resource_uid),
            },
        ),
        None => None,
    }
}

/// Takes the snapshot of a session's assignment; an absent session is not found.
pub fn sandbox_assignment_snapshot(
    row: &Option<SessionRow>,
    thread_key: &ThreadKey,
) -> (snapshot: Result<SandboxAssignmentSnapshot, SessionStoreError>)
    ensures
        match row {
            Some(session) => snapshot == Ok::<SandboxAssignmentSnapshot, SessionStoreError>(
                SandboxAssignmentSnapshot {
                    sandbox_id: session.sandbox.sandbox_id,
                    resource_uid: session.sandbox.resource_uid,
                    assignment_epoch: session.sandbox.assignment_epoch,
                },
            ),
            None => snapshot == Err::<SandboxAssignmentSnapshot, SessionStoreError>(
                SessionStoreError::NotFound { thread_key: thread_key.value },
            ),
        },
        snapshot is Ok <==> row is Some,
        snapshot matches Ok(seen) ==> seen.matches(row->0.sandbox),
{
    match row {
        Some(session) => Ok(
            SandboxAssignmentSnapshot {
                sandbox_id: copy_opt(&session.sandbox.sandbox_id),
                resource_uid: copy_opt(&session.sandbox.resource_uid),
                assignment_epoch: copy_opt(&session.sandbox.assignment_epoch),
            },
        ),
        None => Err(SessionStoreError::NotFound { thread_key: thread_key.value.clone() }),
    }
}

/// An assignment from before epochs were kept names this sandbox, and no other
/// resource than the observed one.
pub open spec fn lacks_identity(
    sandbox: SandboxColumns,
    sandbox_id: Seq<char>,
    resource_uid: Option<String>,
) -> bool {
    &&& holds(sandbox.sandbox_id, sandbox_id)
    &&& sandbox.assignment_epoch is None
    &&& sandbox.resource_uid is None || same_opt(sandbox.resource_uid, resource_uid)
}

/// Initializes the assignment fence for an assignment without epoch, only while it
/// still names the observed sandbox. A different resource is refused. Answers with
/// the identity that then stands, if it is that of the observed sandbox.
pub fn ensure_current_sandbox_assignment_identity(
    row: &mut SessionRow,
    sandbox_id: &str,
    resource_uid: &Option<String>,
    fresh_epoch: &String,
    now: Timestamp,
) -> (identity: Option<SandboxAssignmentIdentity>)
    ensures
        if lacks_identity(old(row).sandbox, sandbox_id@, *resource_uid) {
            &&& *final(row) == with_sandbox(
                *old(row),
                SandboxColumns {
                    resource_uid: *resource_uid,
                    assignment_epoch: Some(*fresh_epoch),
                    ..old(row).sandbox
                },
                now,
            )
            &&& identity == Some(
                SandboxAssignmentIdentity {
                    assignment_epoch: *fresh_epoch,
                    resource_uid: *resource_uid,
                },
            )
        } else {
            &&& *final(row) == *old(row)
            &&& identity == if same_opt(old(row).sandbox.resource_uid, *resource_uid) {
                identity_of(old(row).sandbox, sandbox_id@)
            } else {
                None
            }
        },
        identity matches Some(told) ==> {
            &&& final(row).sandbox.sandbox_id is Some
                && final(row).sandbox.sandbox_id->0@ == sandbox_id@
            &&& final(row).sandbox.assignment_epoch == Some(told.assignment_epoch)
            &&& final(row).sandbox.resource_uid == told.resource_uid
            &&& told.resource_uid is Some <==> resource_uid is Some
            &&& told.resource_uid is Some ==> told.resource_uid->0@ == resource_uid->0@
        },
        old(row).sandbox.assignment_epoch is Some ==> *final(row) == *old(row),
        old(row).sandbox.resource_uid is Some && !(resource_uid is Some
            && old(row).sandbox.resource_uid->0@ == resource_uid->0@) ==> identity is None
            && *final(row) == *old(row),
        final(row).sandbox.sandbox_id == old(row).sandbox.sandbox_id,
        final(row).sandbox.trace == old(row).sandbox.trace,
        old(row).sandbox.sandbox_id is Some && old(row).sandbox.sandbox_id->0@ == sandbox_id@
            && old(row).sandbox.assignment_epoch is None && (old(row).sandbox.resource_uid is None
                || (
        resource_uid is Some && old(row).sandbox.resource_uid->0@ == resource_uid->0@)) ==> (
        identity matches Some(told) && told.assignment_epoch == *fresh_epoch && told.resource_uid
            == *resource_uid),
        old(row).sandbox.sandbox_id is Some && old(row).sandbox.sandbox_id->0@ == sandbox_id@
            && old(row).sandbox.assignment_epoch is Some && (old(row).sandbox.resource_uid is Some
            <==> resource_uid is Some) && (resource_uid is Some
                ==> old(row).sandbox.resource_uid->0@
            == resource_uid->0@) ==> (identity matches Some(told) && Some(told.assignment_epoch)
            == old(row).sandbox.assignment_epoch),
{
    let same_resource = same_opt_text(&row.sandbox.resource_uid, resource_uid);
    if opt_text_is(&row.sandbox.sandbox_id, sandbox_id) && row.sandbox.assignment_epoch.is_none()
        && (row.sandbox.resource_uid.is_none() || same_resource) {
        row.sandbox.resource_uid = copy_opt(resource_uid);
        row.sandbox.assignment_epoch = Some(fresh_epoch.clone());
        row.updated_at = now;
        return Some(
            SandboxAssignmentIdentity {
                assignment_epoch: fresh_epoch.clone(),
                resource_uid: copy_opt(resource_uid),
            },
        );
    }
    if same_resource {
        current_sandbox_assignment_identity(&row.sandbox, sandbox_id)
    } else {
        None
    }
}

// ---------------------------------------------------------------------------
// Writing an assignment
// ---------------------------------------------------------------------------

/// Names a sandbox without capabilities, or none, and forgets everything else of
/// the assignment before.
pub fn update_sandbox_id(row: &mut SessionRow, sandbox_id: Option<String>, now: Timestamp)
    ensures
        *final(row) == with_sandbox(
            *old(row),
            SandboxColumns {
                sandbox_id,
                last_active_at: if sandbox_id is Some {
                    Some(now)
                } else {
                    None
                },
                ..no_sandbox()
            },
            now,
        ),
        final(row).sandbox.sandbox_id == sandbox_id,
        final(row).sandbox.resource_uid is None && final(row).sandbox.assignment_epoch is None,
        final(row).sandbox.trace.enabled is None,
        final(row).sandbox.last_active_at is Some <==> sandbox_id is Some,
        final(row).status == old(row).status && final(row).harness_thread_id
            == old(row).harness_thread_id,
{
    let mut sandbox = empty_sandbox();
    if sandbox_id.is_some() {
        sandbox.last_active_at = Some(now);
    }
    sandbox.sandbox_id = sandbox_id;
    row.sandbox = sandbox;
    row.updated_at = now;
}

/// Assigns a sandbox with its capabilities. A traced assignment gets a trace epoch
/// but no actor.
pub fn update_sandbox_assignment(
    row: &mut SessionRow,
    sandbox_id: String,
    resource_uid: Option<String>,
    capabilities: &SandboxCapabilities,
    fresh: FreshEpochs,
    now: Timestamp,
)
    ensures
        *final(row) == with_sandbox(
            *old(row),
            assigned(
                sandbox_id,
                resource_uid,
                fresh.assignment,
                *capabilities,
                trace_of(
                    *capabilities,
                    None,
                    None,
                    None,
                    None,
                    if capabilities.metadata_trace_enabled {
                        Some(fresh.trace)
                    } else {
                        None
                    },
                ),
                now,
            ),
            now,
        ),
        final(row).sandbox.sandbox_id == Some(sandbox_id),
        final(row).sandbox.resource_uid == resource_uid,
        final(row).sandbox.assignment_epoch == Some(fresh.assignment),
        final(row).sandbox.last_active_at == Some(now),
        final(row).sandbox.trace.enabled == Some(capabilities.metadata_trace_enabled),
        final(row).sandbox.trace.source is None && final(row).sandbox.trace.workspace_id is None
            && final(row).sandbox.trace.user_id is None
                && final(row).sandbox.trace.resource_uid is None,
        capabilities.metadata_trace_enabled ==> final(row).sandbox.trace.assignment_epoch == Some(
            fresh.trace,
        ),
        !capabilities.metadata_trace_enabled ==> final(row).sandbox.trace.assignment_epoch is None,
{
    let trace_epoch = if capabilities.metadata_trace_enabled {
        Some(fresh.trace)
    } else {
        None
    };
    let trace = make_trace(capabilities, None, None, None, None, trace_epoch);
    row.sandbox = make_assigned(
        sandbox_id,
        resource_uid,
        fresh.assignment,
        capabilities,
        trace,
        now,
    );
    row.updated_at = now;
}

/// Assigns a sandbox only while the snapshot taken before is current. The new
/// assignment has no trace identity.
pub fn update_sandbox_assignment_if_matches(
    row: &mut SessionRow,
    sandbox_id: String,
    resource_uid: Option<String>,
    capabilities: &SandboxCapabilities,
    expected: &SandboxAssignmentSnapshot,
    fresh: FreshEpochs,
    now: Timestamp,
) -> (updated: bool)
    ensures
        updated == expected.matches(old(row).sandbox),
        *final(row) == if updated {
            with_sandbox(
                *old(row),
                assigned(
                    sandbox_id,
                    resource_uid,
                    fresh.assignment,
                    *capabilities,
                    trace_of(*capabilities, None, None, None, None, None),
                    now,
                ),
                now,
            )
        } else {
            *old(row)
        },
        updated <==> {
            &&& old(row).sandbox.sandbox_id is Some <==> expected.sandbox_id is Some
            &&& old(row).sandbox.sandbox_id is Some ==> old(row).sandbox.sandbox_id->0@
                == expected.sandbox_id->0@
            &&& old(row).sandbox.resource_uid is Some <==> expected.resource_uid is Some
            &&& old(row).sandbox.resource_uid is Some ==> old(row).sandbox.resource_uid->0@
                == expected.resource_uid->0@
            &&& old(row).sandbox.assignment_epoch is Some <==> expected.assignment_epoch is Some
            &&& old(row).sandbox.assignment_epoch is Some ==> old(row).sandbox.assignment_epoch->0@
                == expected.assignment_epoch->0@
        },
        updated ==> final(row).sandbox.sandbox_id == Some(sandbox_id)
            && final(row).sandbox.resource_uid == resource_uid
                && final(row).sandbox.assignment_epoch
            == Some(fresh.assignment) && final(row).sandbox.trace.source is None
            && final(row).sandbox.trace.assignment_epoch is None
                && final(row).sandbox.last_active_at
            == Some(now),
{
    if !expected.is_current(&row.sandbox) {
        return false;
    }
    let trace = make_trace(capabilities, None, None, None, None, None);
    row.sandbox = make_assigned(
        sandbox_id,
        resource_uid,
        fresh.assignment,
        capabilities,
        trace,
        now,
    );
    row.updated_at = now;
    true
}

/// The consent allows a traced assignment of the given revision.
pub open spec fn consent_allows(
    consent: MetadataTraceConsent,
    revision: Option<i64>,
    at: Timestamp,
) -> Truth {
    conjunction(
        conjunction(
            known(consent.enabled && !consent.drain_pending),
            after(consent.expires_at, at),
        ),
        integer_equals(consent.revision, revision),
    )
}

/// The consent is that of the actor for whom a sandbox is to be traced.
pub open spec fn consent_is_actors(
    consent: MetadataTraceConsent,
    workspace_id: Seq<char>,
    user_id: Seq<char>,
) -> bool {
    is_consent_source(consent.source) && consent.workspace_id@ == workspace_id && consent.user_id@
        == user_id
}

/// What a traced assignment is answered before the snapshot is looked at: the
/// actor's own consent decides first, then the configuration.
pub open spec fn traced_assignment_allowed(
    consent: Option<MetadataTraceConsent>,
    config: Option<MetadataTraceConfigStateRow>,
    identity: MetadataTraceConfigIdentity,
    capabilities: SandboxCapabilities,
    workspace_id: Seq<char>,
    user_id: Seq<char>,
    at: Timestamp,
) -> Result<bool, SessionStoreError> {
    match consent {
        None => Ok(false),
        Some(row) => if !consent_is_actors(row, workspace_id, user_id) {
            Ok(false)
        } else {
            match consent_allows(row, capabilities.metadata_trace_consent_revision, at) {
                Truth::False => Ok(false),
                Truth::Unknown => Err(SessionStoreError::UnexpectedNull),
                Truth::True => Ok(config matches Some(state) && state.is_active(identity)),
            }
        },
    }
}

/// Decides whether a traced assignment is allowed at all, whatever session it is
/// for: by the consent first, then by the configuration.
pub fn traced_assignment_is_allowed(
    consent: &Option<MetadataTraceConsent>,
    config: &Option<MetadataTraceConfigStateRow>,
    identity: &MetadataTraceConfigIdentity,
    capabilities: &SandboxCapabilities,
    workspace_id: &str,
    user_id: &str,
    at: Timestamp,
) -> (allowed: Result<bool, SessionStoreError>)
    ensures
        allowed == traced_assignment_allowed(
            *consent,
            *config,
            *identity,
            *capabilities,
            workspace_id@,
            user_id@,
            at,
        ),
{
    let held = match consent {
        None => return Ok(false),
        Some(held) => held,
    };
    if !(same_text(held.source.as_str(), "slack") && same_text(
        held.workspace_id.as_str(),
        workspace_id,
    ) && same_text(held.user_id.as_str(), user_id)) {
        return Ok(false);
    }
    let allows = both(
        both(truth_of(held.enabled && !held.drain_pending), is_after(held.expires_at, at)),
        integer_is(held.revision, capabilities.metadata_trace_consent_revision),
    );
    match allows {
        Truth::False => Ok(false),
        Truth::Unknown => Err(SessionStoreError::UnexpectedNull),
        Truth::True => match config {
            None => Ok(false),
            Some(state) => Ok(state.metadata_trace_config_is_active(identity)),
        },
    }
}

/// The source whose consents bind traced assignments.
pub open spec fn is_consent_source(source: String) -> bool {
    source@ == "slack"@
}

/// Assigns a traced sandbox for an actor, only while the actor's consent allows
/// this revision, the configuration is active and the snapshot taken before is
/// current. A consent row that is not the actor's under the source `slack` counts as
/// none.
pub fn update_sandbox_assignment_if_metadata_trace_config_active(
    row: &mut SessionRow,
    consent: &Option<MetadataTraceConsent>,
    config: &Option<MetadataTraceConfigStateRow>,
    sandbox_id: String,
    capabilities: &SandboxCapabilities,
    identity: &MetadataTraceConfigIdentity,
    expected: &SandboxAssignmentSnapshot,
    workspace_id: String,
    user_id: String,
    resource_uid: &String,
    fresh: FreshEpochs,
    clock: Clock,
) -> (updated: Result<bool, SessionStoreError>)
    ensures
        match traced_assignment_allowed(
            *consent,
            *config,
            *identity,
            *capabilities,
            workspace_id@,
            user_id@,
            clock.wall,
        ) {
            Err(error) => {
                &&& updated == Err::<bool, SessionStoreError>(error)
                &&& *final(row) == *old(row)
            },
            Ok(allowed) => if allowed && expected.matches(old(row).sandbox) {
                let source = final(row).sandbox.trace.source;
                &&& updated == Ok::<bool, SessionStoreError>(true)
                &&& source matches Some(text) && is_consent_source(text)
                &&& *final(row) == with_sandbox(
                    *old(row),
                    assigned(
                        sandbox_id,
                        Some(*resource_uid),
                        fresh.assignment,
                        *capabilities,
                        trace_of(
                            *capabilities,
                            source,
                            Some(workspace_id),
                            Some(user_id),
                            Some(*resource_uid),
                            Some(fresh.trace),
                        ),
                        clock.now,
                    ),
                    clock.now,
                )
            } else {
                &&& updated == Ok::<bool, SessionStoreError>(false)
                &&& *final(row) == *old(row)
            },
        },
        updated == Ok::<bool, SessionStoreError>(true) ==> {
            let trace = final(row).sandbox.trace;
            &&& final(row).sandbox.sandbox_id == Some(sandbox_id)
            &&& final(row).sandbox.resource_uid == Some(*resource_uid)
            &&& final(row).sandbox.assignment_epoch == Some(fresh.assignment)
            &&& trace.enabled == Some(capabilities.metadata_trace_enabled)
            &&& trace.source is Some && trace.source->0@ == "slack"@
            &&& trace.workspace_id == Some(workspace_id)
            &&& trace.user_id == Some(user_id)
            &&& trace.resource_uid == Some(*resource_uid)
            &&& trace.assignment_epoch == Some(fresh.trace)
            &&& trace.consent_revision == capabilities.metadata_trace_consent_revision
            &&& consent is Some
            &&& consent->0.enabled
            &&& !consent->0.drain_pending
            &&& trace.consent_revision == Some(consent->0.revision)
            &&& consent->0.expires_at is Some && consent->0.expires_at->0 > clock.wall
            &&& config is Some
            &&& config->0.generation == identity.generation
        },
        updated != Ok::<bool, SessionStoreError>(true) ==> *final(row) == *old(row),
        consent is Some && consent->0.source@ == "slack"@
            && consent->0.workspace_id@ == workspace_id@
            && consent->0.user_id@ == user_id@ && consent->0.enabled && !consent->0.drain_pending
            && consent->0.expires_at is Some && consent->0.expires_at->0 > clock.wall
            && capabilities.metadata_trace_consent_revision == Some(consent->0.revision)
            && config is Some && config->0.generation == identity.generation
            && config->0.config_fingerprint@ == identity.fingerprint@ && expected.matches(
            old(row).sandbox,
        ) ==> updated == Ok::<bool, SessionStoreError>(true),
{
    match traced_assignment_is_allowed(
        consent,
        config,
        identity,
        capabilities,
        workspace_id.as_str(),
        user_id.as_str(),
        clock.wall,
    ) {
        Err(error) => return Err(error),
        Ok(allowed) => {
            if !allowed || !expected.is_current(&row.sandbox) {
                return Ok(false);
            }
        },
    }
    let trace = make_trace(
        capabilities,
        Some("slack".to_owned()),
        Some(workspace_id),
        Some(user_id),
        Some(resource_uid.clone()),
        Some(fresh.trace),
    );
    row.sandbox = make_assigned(
        sandbox_id,
        Some(resource_uid.clone()),
        fresh.assignment,
        capabilities,
        trace,
        clock.now,
    );
    row.updated_at = clock.now;
    Ok(true)
}

// ---------------------------------------------------------------------------
// Clearing an assignment
// ---------------------------------------------------------------------------

/// Clears the assignment if it names the given sandbox.
pub fn clear_sandbox_id_if_matches(row: &mut SessionRow, sandbox_id: &str, now: Timestamp) -> (cleared:
    bool)
    ensures
        cleared == holds(old(row).sandbox.sandbox_id, sandbox_id@),
        *final(row) == if cleared {
            with_sandbox(*old(row), no_sandbox(), now)
        } else {
            *old(row)
        },
        cleared <==> old(row).sandbox.sandbox_id is Some && old(row).sandbox.sandbox_id->0@
            == sandbox_id@,
        cleared ==> final(row).sandbox.sandbox_id is None
            && final(row).sandbox.assignment_epoch is None
            && final(row).sandbox.resource_uid is None && final(row).sandbox.trace.enabled is None,
{
    if !opt_text_is(&row.sandbox.sandbox_id, sandbox_id) {
        return false;
    }
    row.sandbox = empty_sandbox();
    row.updated_at = now;
    true
}

/// The session's assignment is exactly the traced one that was fenced.
pub open spec fn is_target_assignment(
    row: SessionRow,
    target: MetadataTraceDrainTarget,
    actor: MetadataTraceActor,
) -> bool {
    &&& row.thread_key@ == target.thread_key.value@
    &&& holds(row.sandbox.sandbox_id, target.sandbox_id@)
    &&& holds(row.sandbox.trace.assignment_epoch, target.assignment_epoch@)
    &&& holds(row.sandbox.trace.source, actor.source@)
    &&& holds(row.sandbox.trace.workspace_id, actor.workspace_id@)
    &&& holds(row.sandbox.trace.user_id, actor.user_id@)
    &&& row.sandbox.trace.consent_revision == Some(target.revision)
    &&& holds(row.sandbox.trace.resource_uid, target.resource_uid@)
}

/// Clears only the exact traced assignment fenced by a revoke. A replacement
/// (also one of a later grant) has another epoch and survives. The columns of the
/// capabilities that are not the trace's are left as they are.
pub fn clear_metadata_trace_assignment_if_matches(
    row: &mut SessionRow,
    target: &MetadataTraceDrainTarget,
    actor: &MetadataTraceActor,
    now: Timestamp,
) -> (cleared: bool)
    ensures
        cleared == is_target_assignment(*old(row), *target, *actor),
        *final(row) == if cleared {
            with_sandbox(
                *old(row),
                SandboxColumns {
                    sandbox_id: None,
                    resource_uid: None,
                    assignment_epoch: None,
                    trace: no_trace(),
                    last_active_at: None,
                    ..old(row).sandbox
                },
                now,
            )
        } else {
            *old(row)
        },
        cleared ==> final(row).sandbox.sandbox_id is None
            && final(row).sandbox.assignment_epoch is None
            && final(row).sandbox.resource_uid is None && final(row).sandbox.last_active_at is None
            && final(row).sandbox.trace.enabled is None
                && final(row).sandbox.trace.consent_revision is None
                && final(row).sandbox.trace.user_id is None,
        cleared ==> old(row).thread_key@ == target.thread_key.value@
            && old(row).sandbox.trace.consent_revision == Some(target.revision)
            && old(row).sandbox.sandbox_id is Some
            && old(row).sandbox.sandbox_id->0@ == target.sandbox_id@
                && old(row).sandbox.trace.user_id is Some
                && old(row).sandbox.trace.user_id->0@ == actor.user_id@,
        final(row).sandbox.repo_cache_enabled == old(row).sandbox.repo_cache_enabled,
{
    if !(same_text(row.thread_key.as_str(), target.thread_key.as_str()) && opt_text_is(
        &row.sandbox.sandbox_id,
        target.sandbox_id.as_str(),
    ) && opt_text_is(&row.sandbox.trace.assignment_epoch, target.assignment_epoch.as_str())
        && opt_text_is(&row.sandbox.trace.source, actor.source.as_str()) && opt_text_is(
        &row.sandbox.trace.workspace_id,
        actor.workspace_id.as_str(),
    ) && opt_text_is(&row.sandbox.trace.user_id, actor.user_id.as_str())
        && row.sandbox.trace.consent_revision == Some(target.revision) && opt_text_is(
        &row.sandbox.trace.resource_uid,
        target.resource_uid.as_str(),
    )) {
        return false;
    }
    row.sandbox.sandbox_id = None;
    row.sandbox.resource_uid = None;
    row.sandbox.assignment_epoch = None;
    row.sandbox.trace = empty_trace();
    row.sandbox.last_active_at = None;
    row.updated_at = now;
    true
}

/// The session on another harness: idle, without harness thread and sandbox, which
/// belong to the harness before.
pub open spec fn on_harness(
    row: SessionRow,
    harness_type: HarnessType,
    status: String,
    now: Timestamp,
) -> SessionRow {
    SessionRow {
        harness_type: harness_type.name,
        harness_thread_id: None,
        sandbox: no_sandbox(),
        status,
        updated_at: now,
        ..row
    }
}

/// Moves a session onto another harness.
pub fn switch_session_harness(row: &mut SessionRow, harness_type: &HarnessType, now: Timestamp)
    ensures
        final(row).status@ == SessionStatus::Idle.name(),
        *final(row) == on_harness(*old(row), *harness_type, final(row).status, now),
        final(row).status@ == "idle"@,
        final(row).harness_type == harness_type.name,
        final(row).harness_thread_id is None,
        final(row).sandbox.sandbox_id is None && final(row).sandbox.assignment_epoch is None,
        final(row).title == old(row).title && final(row).thread_key == old(row).thread_key,
{
    row.harness_type = harness_type.name.clone();
    row.harness_thread_id = None;
    row.sandbox = empty_sandbox();
    row.status = SessionStatus::Idle.as_ref().to_owned();
    row.updated_at = now;
}

/// Records that the session's sandbox, if it has one, was active.
pub fn touch_session_sandbox_activity(row: &mut SessionRow, now: Timestamp) -> (touched: bool)
    ensures
        touched == (old(row).sandbox.sandbox_id is Some),
        *final(row) == if touched {
            SessionRow {
                sandbox: SandboxColumns { last_active_at: Some(now), ..old(row).sandbox },
                ..*old(row)
            }
        } else {
            *old(row)
        },
        touched ==> final(row).sandbox.last_active_at == Some(now),
        final(row).updated_at == old(row).updated_at,
        final(row).sandbox.sandbox_id == old(row).sandbox.sandbox_id,
{
    if row.sandbox.sandbox_id.is_none() {
        return false;
    }
    row.sandbox.last_active_at = Some(now);
    true
}

/// Records that the given sandbox was active, if the session still has it.
pub fn touch_sandbox_activity(row: &mut SessionRow, sandbox_id: &str, now: Timestamp) -> (touched:
    bool)
    ensures
        touched == holds(old(row).sandbox.sandbox_id, sandbox_id@),
        *final(row) == if touched {
            SessionRow {
                sandbox: SandboxColumns { last_active_at: Some(now), ..old(row).sandbox },
                ..*old(row)
            }
        } else {
            *old(row)
        },
        touched <==> old(row).sandbox.sandbox_id is Some && old(row).sandbox.sandbox_id->0@
            == sandbox_id@,
        touched ==> final(row).sandbox.last_active_at == Some(now),
        final(row).updated_at == old(row).updated_at,
        final(row).sandbox.sandbox_id == old(row).sandbox.sandbox_id,
{
    if !opt_text_is(&row.sandbox.sandbox_id, sandbox_id) {
        return false;
    }
    row.sandbox.last_active_at = Some(now);
    true
}

} // verus!
