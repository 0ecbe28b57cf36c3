//! An actor's consent to metadata tracing, and the drain of the sandboxes that
//! were traced under it.
//!
//! A consent row has a revision that moves at each boundary: a grant that is not
//! a repetition, a revoke or an expiry of an enabled grant. A traced sandbox
//! carries the revision under which it was started, so the sandboxes of the
//! revision before a revoke are exactly those to be drained. While a drain is
//! pending no grant is given.
use crate::error::SessionStoreError;
use crate::model::{ThreadKey, Timestamp};
use crate::rows::TraceColumns;
use crate::text::{holds, opt_text_is, same_text};
use vstd::prelude::*;

verus! {

/// The key of a consent row.
#[derive(Clone, Debug, PartialEq, Eq)]
pub struct MetadataTraceActor {
    pub source: String,
    pub workspace_id: String,
    pub user_id: String,
}

/// The durable, actor-scoped trace-consent record. A missing row is represented
/// as disabled revision zero and is never materialized by a read.
#[derive(Clone, Debug, PartialEq, Eq)]
pub struct MetadataTraceConsent {
    pub source: String,
    pub workspace_id: String,
    pub user_id: String,
    pub enabled: bool,
    pub expires_at: Option<Timestamp>,
    pub revision: i64,
    pub drain_pending: bool,
}

/// A reserved consent request and, once it was answered, its answer.
#[derive(Clone, Debug, PartialEq, Eq)]
pub struct MetadataTraceConsentRequestRow {
    pub request_hash: String,
    pub result_enabled: Option<bool>,
    pub result_expires_at: Option<Timestamp>,
    pub result_revision: Option<i64>,
    pub result_drain_pending: Option<bool>,
    pub drain_assignment_revision: Option<i64>,
}

/// A traced sandbox to be stopped, by everything that tells it from a later one.
#[derive(Clone, Debug, PartialEq, Eq)]
pub struct MetadataTraceDrainTarget {
    pub thread_key: ThreadKey,
    pub sandbox_id: String,
    pub assignment_epoch: String,
    pub revision: i64,
    pub resource_uid: String,
}

/// The exact consent primary key persisted with a traced assignment. This is
/// deliberately separate from the one-way subject hash used by the sandbox.
#[derive(Clone, Debug, PartialEq, Eq)]
pub struct MetadataTraceAssignmentActor {
    pub source: String,
    pub workspace_id: String,
    pub user_id: String,
    pub assignment_epoch: String,
    pub resource_uid: String,
}

/// The trace assignment of a session row, with what the key's parser said.
#[derive(Debug)]
pub struct TracedAssignmentRow {
    pub thread_key: Result<ThreadKey, String>,
    pub sandbox_id: Option<String>,
    pub trace: TraceColumns,
}

/// The answer to a grant request: an earlier answer replayed, or a grant now
/// given, with the consent row and the request row to be written.
#[derive(Debug)]
pub enum GrantReply {
    Replayed(MetadataTraceConsent),
    Applied { consent: MetadataTraceConsent, request: MetadataTraceConsentRequestRow },
}

/// A revoke: the consent row to be written, the sandboxes to be stopped, and the
/// assignment revision that they carry.
#[derive(Debug)]
pub struct RevokedConsent {
    pub consent: MetadataTraceConsent,
    pub targets: Vec<MetadataTraceDrainTarget>,
    pub drain_assignment_revision: Option<i64>,
}

/// The answer to a revoke request: an earlier answer replayed, or a revoke now
/// made, with the request row to be written.
#[derive(Debug)]
pub enum RevokeReply {
    Replayed { consent: MetadataTraceConsent, targets: Vec<MetadataTraceDrainTarget> },
    Applied { revoked: RevokedConsent, request: MetadataTraceConsentRequestRow },
}

/// The end of a drain: the consent as it now reads, and whether a row was
/// rewritten.
#[derive(Debug)]
pub struct DrainCompletion {
    pub consent: MetadataTraceConsent,
    pub cleared: bool,
}

impl MetadataTraceConsent {
    /// Copies the record.
    pub fn copy(&self) -> (copy: MetadataTraceConsent)
        ensures
            copy == *self,
    {
        MetadataTraceConsent {
            source: self.source.clone(),
            workspace_id: self.workspace_id.clone(),
            user_id: self.user_id.clone(),
            enabled: self.enabled,
            expires_at: self.expires_at,
            revision: self.revision,
            drain_pending: self.drain_pending,
        }
    }
}

/// A consent row with the actor's key.
pub open spec fn consent_of(
    actor: MetadataTraceActor,
    enabled: bool,
    expires_at: Option<Timestamp>,
    revision: i64,
    drain_pending: bool,
) -> MetadataTraceConsent {
    MetadataTraceConsent {
        source: actor.source,
        workspace_id: actor.workspace_id,
        user_id: actor.user_id,
        enabled,
        expires_at,
        revision,
        drain_pending,
    }
}

fn make_consent(
    actor: &MetadataTraceActor,
    enabled: bool,
    expires_at: Option<Timestamp>,
    revision: i64,
    drain_pending: bool,
) -> (consent: MetadataTraceConsent)
    ensures
        consent == consent_of(*actor, enabled, expires_at, revision, drain_pending),
{
    MetadataTraceConsent {
        source: actor.source.clone(),
        workspace_id: actor.workspace_id.clone(),
        user_id: actor.user_id.clone(),
        enabled,
        expires_at,
        revision,
        drain_pending,
    }
}

// ---------------------------------------------------------------------------
// Reading
// ---------------------------------------------------------------------------

/// What is reported of a consent: an absent row is disabled at revision zero, and
/// a grant whose time has run out, or has none, is reported disabled without an
/// expiry, its revision kept.
pub open spec fn consent_reported(
    row: Option<MetadataTraceConsent>,
    actor: MetadataTraceActor,
    now: Timestamp,
) -> MetadataTraceConsent {
    match row {
        None => consent_of(actor, false, None, 0, false),
        Some(row) => if row.enabled && !(row.expires_at matches Some(expiry) && expiry > now) {
            MetadataTraceConsent { enabled: false, expires_at: None, ..row }
        } else {
            row
        },
    }
}

/// Reports an actor's consent. Expiry is a lease boundary and not a delayed
/// mutation, so an elapsed grant is never reported as active.
pub fn metadata_trace_consent(
    row: Option<MetadataTraceConsent>,
    actor: &MetadataTraceActor,
    now: Timestamp,
) -> (consent: MetadataTraceConsent)
    ensures
        consent == consent_reported(row, *actor, now),
{
    let mut consent = match row {
        Some(row) => row,
        None => make_consent(actor, false, None, 0, false),
    };
    let live = match consent.expires_at {
        Some(expiry) => expiry > now,
        None => false,
    };
    if consent.enabled && !live {
        consent.enabled = false;
        consent.expires_at = None;
    }
    consent
}

/// The consents that wait for a drain, in the order given.
pub open spec fn pending_drains(rows: Seq<MetadataTraceConsent>) -> Seq<MetadataTraceConsent> {
    rows.filter(|row: MetadataTraceConsent| row.drain_pending)
}

/// Keeps the consents that wait for a drain, in the order given.
pub fn pending_metadata_trace_drains(rows: &Vec<MetadataTraceConsent>) -> (pending: Vec<
    MetadataTraceConsent,
>)
    ensures
        pending@ == pending_drains(rows@),
{
    let mut pending: Vec<MetadataTraceConsent> = Vec::new();
    let mut i: usize = 0;
    assert(rows@.take(0) =~= Seq::<MetadataTraceConsent>::empty());
    proof {
        reveal(Seq::filter);
    }
    while i < rows.len()
        invariant
            i <= rows.len(),
            pending@ == pending_drains(rows@.take(i as int)),
        decreases rows.len() - i,
    {
        if rows[i].drain_pending {
            pending.push(rows[i].copy());
        }
        i += 1;
        proof {
            reveal(Seq::filter);
            assert(rows@.take(i as int).drop_last() =~= rows@.take(i - 1));
        }
    }
    assert(rows@.take(i as int) =~= rows@);
    pending
}

/// The actor and the identity recorded with a traced assignment, if all of it is
/// recorded.
pub open spec fn recorded_actor(trace: TraceColumns) -> Option<MetadataTraceAssignmentActor> {
    match (
        trace.source,
        trace.workspace_id,
        trace.user_id,
        trace.assignment_epoch,
        trace.resource_uid,
    ) {
        (
            Some(source),
            Some(workspace_id),
            Some(user_id),
            Some(assignment_epoch),
            Some(resource_uid),
        ) => Some(
            MetadataTraceAssignmentActor {
                source,
                workspace_id,
                user_id,
                assignment_epoch,
                resource_uid,
            },
        ),
        _ => None,
    }
}

/// Reads the actor recorded with a traced assignment. A partly recorded one is not
/// guessed.
pub fn read_recorded_actor(trace: &TraceColumns) -> (actor: Option<MetadataTraceAssignmentActor>)
    ensures
        actor == recorded_actor(*trace),
{
    match (
        &trace.source,
        &trace.workspace_id,
        &trace.user_id,
        &trace.assignment_epoch,
        &trace.resource_uid,
    ) {
        (
            Some(source),
            Some(workspace_id),
            Some(user_id),
            Some(assignment_epoch),
            Some(resource_uid),
        ) => Some(
            MetadataTraceAssignmentActor {
                source: source.clone(),
                workspace_id: workspace_id.clone(),
                user_id: user_id.clone(),
                assignment_epoch: assignment_epoch.clone(),
                resource_uid: resource_uid.clone(),
            },
        ),
        _ => None,
    }
}

/// The actor recorded with the traced assignment of exactly this sandbox, if all
/// of it is recorded.
pub open spec fn assignment_actor(
    sandbox_id: Option<String>,
    trace: TraceColumns,
    asked: Seq<char>,
) -> Option<MetadataTraceAssignmentActor> {
    if holds(sandbox_id, asked) && trace.enabled == Some(true) {
        recorded_actor(trace)
    } else {
        None
    }
}

/// Reads the durable actor only for the exact currently assigned traced sandbox.
pub fn metadata_trace_assignment_actor(
    assigned: &Option<String>,
    trace: &TraceColumns,
    sandbox_id: &str,
) -> (actor: Option<MetadataTraceAssignmentActor>)
    ensures
        actor == assignment_actor(*assigned, *trace, sandbox_id@),
{
    if !opt_text_is(assigned, sandbox_id) || trace.enabled != Some(true) {
        return None;
    }
    read_recorded_actor(trace)
}

/// There is a consent row, and it is the actor's.
pub open spec fn consent_belongs(
    consent: Option<MetadataTraceConsent>,
    actor: MetadataTraceAssignmentActor,
) -> bool {
    consent matches Some(row) && row.source@ == actor.source@ && row.workspace_id@
        == actor.workspace_id@ && row.user_id@ == actor.user_id@
}

/// Whether there is a consent row that is the actor's.
pub fn is_consent_of(
    consent: &Option<MetadataTraceConsent>,
    actor: &MetadataTraceAssignmentActor,
) -> (is: bool)
    ensures
        is == consent_belongs(*consent, *actor),
{
    match consent {
        None => false,
        Some(row) => same_text(row.source.as_str(), actor.source.as_str()) && same_text(
            row.workspace_id.as_str(),
            actor.workspace_id.as_str(),
        ) && same_text(row.user_id.as_str(), actor.user_id.as_str()),
    }
}

/// A session's trace columns hold state of a deployment that traced.
pub open spec fn holds_trace_state(trace: TraceColumns) -> bool {
    ||| trace.enabled == Some(true)
    ||| trace.config_generation is Some
    ||| trace.assignment_epoch is Some
    ||| trace.resource_uid is Some
}

/// Whether the database has ever taken part in tracing: a configuration, a
/// consent, a request or a session says so.
pub fn has_persisted_metadata_trace_state(
    config_exists: bool,
    consent_exists: bool,
    request_exists: bool,
    sessions: &Vec<TraceColumns>,
) -> (exists_state: bool)
    ensures
        exists_state == (config_exists || consent_exists || request_exists || exists|i: int|
            0 <= i < sessions@.len() && holds_trace_state(#[trigger] sessions@[i])),
        !exists_state ==> forall|i: int|
            0 <= i < sessions@.len() ==> (#[trigger] sessions@[i]).enabled != Some(true)
                && sessions@[i].config_generation is None && sessions@[i].assignment_epoch is None
                && sessions@[i].resource_uid is None,
        config_exists || consent_exists || request_exists ==> exists_state,
{
    if config_exists || consent_exists || request_exists {
        return true;
    }
    let mut i: usize = 0;
    while i < sessions.len()
        invariant
            i <= sessions.len(),
            forall|j: int| 0 <= j < i ==> !holds_trace_state(#[trigger] sessions@[j]),
        decreases sessions.len() - i,
    {
        let trace = &sessions[i];
        if trace.enabled == Some(true) || trace.config_generation.is_some()
            || trace.assignment_epoch.is_some() || trace.resource_uid.is_some() {
            assert(holds_trace_state(sessions@[i as int]));
            return true;
        }
        i += 1;
    }
    false
}

// ---------------------------------------------------------------------------
// Drain targets
// ---------------------------------------------------------------------------

/// A live traced sandbox belongs to the actor.
pub open spec fn traced_for(row: TracedAssignmentRow, actor: MetadataTraceActor) -> bool {
    &&& row.trace.enabled == Some(true)
    &&& row.sandbox_id is Some
    &&& holds(row.trace.source, actor.source@)
    &&& holds(row.trace.workspace_id, actor.workspace_id@)
    &&& holds(row.trace.user_id, actor.user_id@)
}

/// A live traced sandbox lacks part of its identity, so that it may be anyone's.
pub open spec fn traced_for_unknown(row: TracedAssignmentRow) -> bool {
    &&& row.trace.enabled == Some(true)
    &&& row.sandbox_id is Some
    &&& {
        ||| row.trace.assignment_epoch is None
        ||| row.trace.source is None
        ||| row.trace.workspace_id is None
        ||| row.trace.user_id is None
        ||| row.trace.resource_uid is None
    }
}

/// A sandbox to be drained for one consent revision of the actor.
pub open spec fn is_drain_target(
    row: TracedAssignmentRow,
    actor: MetadataTraceActor,
    revision: i64,
) -> bool {
    &&& traced_for(row, actor)
    &&& row.trace.consent_revision == Some(revision)
    &&& row.trace.assignment_epoch is Some
    &&& row.trace.resource_uid is Some
}

/// The target that a row names.
pub open spec fn drain_target_of(
    row: TracedAssignmentRow,
    thread_key: ThreadKey,
) -> MetadataTraceDrainTarget {
    MetadataTraceDrainTarget {
        thread_key,
        sandbox_id: row.sandbox_id->0,
        assignment_epoch: row.trace.assignment_epoch->0,
        revision: row.trace.consent_revision->0,
        resource_uid: row.trace.resource_uid->0,
    }
}

/// The targets among the rows, in their order; or the first refused key among
/// them.
pub open spec fn drain_targets(
    rows: Seq<TracedAssignmentRow>,
    actor: MetadataTraceActor,
    revision: i64,
) -> Result<Seq<MetadataTraceDrainTarget>, SessionStoreError>
    decreases rows.len(),
{
    if rows.len() == 0 {
        Ok(Seq::empty())
    } else {
        match drain_targets(rows.drop_last(), actor, revision) {
            Err(error) => Err(error),
            Ok(targets) => if !is_drain_target(rows.last(), actor, revision) {
                Ok(targets)
            } else {
                match rows.last().thread_key {
                    Err(words) => Err(SessionStoreError::InvalidPersistedValue(words)),
                    Ok(thread_key) => Ok(targets.push(drain_target_of(rows.last(), thread_key))),
                }
            },
        }
    }
}

/// A list of targets read is the list stated.
pub open spec fn same_targets(
    read: Result<Vec<MetadataTraceDrainTarget>, SessionStoreError>,
    stated: Result<Seq<MetadataTraceDrainTarget>, SessionStoreError>,
) -> bool {
    match (read, stated) {
        (Ok(list), Ok(targets)) => list@ == targets,
        (Err(a), Err(b)) => a == b,
        _ => false,
    }
}

/// Some live traced sandbox lacks part of its identity.
pub open spec fn unknown_assignment_exists(rows: Seq<TracedAssignmentRow>) -> bool {
    exists|i: int| 0 <= i < rows.len() && traced_for_unknown(#[trigger] rows[i])
}

fn row_is_live_traced(row: &TracedAssignmentRow) -> (live: bool)
    ensures
        live == (row.trace.enabled == Some(true) && row.sandbox_id is Some),
{
    row.trace.enabled == Some(true) && row.sandbox_id.is_some()
}

pub(crate) fn row_is_traced_for(row: &TracedAssignmentRow, actor: &MetadataTraceActor) -> (is: bool)
    ensures
        is == traced_for(*row, *actor),
{
    row_is_live_traced(row) && opt_text_is(&row.trace.source, actor.source.as_str())
        && opt_text_is(&row.trace.workspace_id, actor.workspace_id.as_str()) && opt_text_is(
        &row.trace.user_id,
        actor.user_id.as_str(),
    )
}

pub(crate) fn row_is_traced_for_unknown(row: &TracedAssignmentRow) -> (is: bool)
    ensures
        is == traced_for_unknown(*row),
{
    row_is_live_traced(row) && (row.trace.assignment_epoch.is_none() || row.trace.source.is_none()
        || row.trace.workspace_id.is_none() || row.trace.user_id.is_none()
        || row.trace.resource_uid.is_none())
}

/// The exact sandboxes traced for the actor under one consent revision.
pub fn metadata_trace_drain_targets(
    rows: &Vec<TracedAssignmentRow>,
    actor: &MetadataTraceActor,
    revision: i64,
) -> (targets: Result<Vec<MetadataTraceDrainTarget>, SessionStoreError>)
    ensures
        same_targets(targets, drain_targets(rows@, *actor, revision)),
{
    let mut targets: Vec<MetadataTraceDrainTarget> = Vec::new();
    let mut i: usize = 0;
    while i < rows.len()
        invariant
            i <= rows.len(),
            drain_targets(rows@.take(i as int), *actor, revision) == Ok::<
                Seq<MetadataTraceDrainTarget>,
                SessionStoreError,
            >(targets@),
        decreases rows.len() - i,
    {
        let row = &rows[i];
        let ghost taken = rows@.take(i + 1);
        proof {
            assert(taken.drop_last() =~= rows@.take(i as int));
            assert(taken.last() == *row);
        }
        if row_is_traced_for(row, actor) && row.trace.consent_revision == Some(revision) {
            if let (Some(sandbox_id), Some(assignment_epoch), Some(resource_uid)) = (
                &row.sandbox_id,
                &row.trace.assignment_epoch,
                &row.trace.resource_uid,
            ) {
                match &row.thread_key {
                    Ok(thread_key) => {
                        targets.push(
                            MetadataTraceDrainTarget {
                                thread_key: ThreadKey { value: thread_key.value.clone() },
                                sandbox_id: sandbox_id.clone(),
                                assignment_epoch: assignment_epoch.clone(),
                                revision,
                                resource_uid: resource_uid.clone(),
                            },
                        );
                    },
                    Err(words) => {
                        proof {
                            lemma_first_refusal(rows@, *actor, revision, i + 1);
                        }
                        return Err(SessionStoreError::InvalidPersistedValue(words.clone()));
                    },
                }
            }
        }
        i += 1;
    }
    assert(rows@.take(i as int) =~= rows@);
    Ok(targets)
}

proof fn lemma_first_refusal(
    rows: Seq<TracedAssignmentRow>,
    actor: MetadataTraceActor,
    revision: i64,
    n: int,
)
    requires
        0 <= n <= rows.len(),
        drain_targets(rows.take(n), actor, revision) is Err,
    ensures
        drain_targets(rows, actor, revision) == drain_targets(rows.take(n), actor, revision),
    decreases rows.len() - n,
{
    if n == rows.len() {
        assert(rows.take(n) =~= rows);
    } else {
        assert(rows.take(n + 1).drop_last() =~= rows.take(n));
        lemma_first_refusal(rows, actor, revision, n + 1);
    }
}

/// Whether some live traced sandbox lacks part of its identity.
pub fn legacy_metadata_trace_assignment_exists(rows: &Vec<TracedAssignmentRow>) -> (found: bool)
    ensures
        found == unknown_assignment_exists(rows@),
{
    let mut i: usize = 0;
    while i < rows.len()
        invariant
            i <= rows.len(),
            forall|j: int| 0 <= j < i ==> !traced_for_unknown(#[trigger] rows@[j]),
        decreases rows.len() - i,
    {
        if row_is_traced_for_unknown(&rows[i]) {
            return true;
        }
        i += 1;
    }
    false
}

/// Targets read are those stated exactly if both are the same list, or the same refusal.
pub proof fn law_targets_as_stated(
    list: Vec<MetadataTraceDrainTarget>,
    targets: Seq<MetadataTraceDrainTarget>,
    error: SessionStoreError,
    other: SessionStoreError,
)
    ensures
        same_targets(
            Ok::<Vec<MetadataTraceDrainTarget>, SessionStoreError>(list),
            Ok::<Seq<MetadataTraceDrainTarget>, SessionStoreError>(targets),
        ) <==> list@ == targets,
        same_targets(
            Err::<Vec<MetadataTraceDrainTarget>, SessionStoreError>(error),
            Err::<Seq<MetadataTraceDrainTarget>, SessionStoreError>(other),
        ) <==> error == other,
        !same_targets(
            Ok::<Vec<MetadataTraceDrainTarget>, SessionStoreError>(list),
            Err::<Seq<MetadataTraceDrainTarget>, SessionStoreError>(error),
        ),
        !same_targets(
            Err::<Vec<MetadataTraceDrainTarget>, SessionStoreError>(error),
            Ok::<Seq<MetadataTraceDrainTarget>, SessionStoreError>(targets),
        ),
{
}

} // verus!
