//! Grants, revokes, expiries and the completion of drains.
//!
//! Each function takes the rows that its transaction has locked and answers with
//! the rows to be written. A request under an idempotency key is reserved,
//! applied and answered in one transaction; a repetition is answered from the
//! recorded result and never applied again.
use crate::consent::{
    consent_of, drain_targets, legacy_metadata_trace_assignment_exists,
    metadata_trace_drain_targets, row_is_traced_for, row_is_traced_for_unknown, same_targets,
    traced_for, traced_for_unknown, unknown_assignment_exists, DrainCompletion, GrantReply, MetadataTraceActor,
    MetadataTraceConsent, MetadataTraceConsentRequestRow, MetadataTraceDrainTarget, RevokeReply,
    RevokedConsent, TracedAssignmentRow,
};
use crate::error::SessionStoreError;
use crate::model::Timestamp;
use crate::text::same_text;
use vstd::prelude::*;

verus! {

// ---------------------------------------------------------------------------
// Requests and their recorded answers
// ---------------------------------------------------------------------------

/// The recorded answer of a request, if it is whole: enabled with an expiry, or
/// disabled without one.
pub open spec fn recorded_result(
    actor: MetadataTraceActor,
    request: MetadataTraceConsentRequestRow,
) -> Result<MetadataTraceConsent, SessionStoreError> {
    match (request.result_enabled, request.result_revision, request.result_drain_pending) {
        (Some(enabled), Some(revision), Some(drain_pending)) => if enabled
            == request.result_expires_at is Some {
            Ok(consent_of(actor, enabled, request.result_expires_at, revision, drain_pending))
        } else {
            Err(SessionStoreError::MetadataTraceIdempotencyIncomplete)
        },
        _ => Err(SessionStoreError::MetadataTraceIdempotencyIncomplete),
    }
}

/// The request row once its answer is recorded.
pub open spec fn with_result(
    request: MetadataTraceConsentRequestRow,
    consent: MetadataTraceConsent,
    drain_assignment_revision: Option<i64>,
) -> MetadataTraceConsentRequestRow {
    MetadataTraceConsentRequestRow {
        request_hash: request.request_hash,
        result_enabled: Some(consent.enabled),
        result_expires_at: consent.expires_at,
        result_revision: Some(consent.revision),
        result_drain_pending: Some(consent.drain_pending),
        drain_assignment_revision,
    }
}

/// A recorded answer is still the actor's consent, and not an elapsed one.
pub open spec fn result_is_current(
    current: Option<MetadataTraceConsent>,
    result: MetadataTraceConsent,
    now: Timestamp,
) -> bool {
    match current {
        None => false,
        Some(row) => {
            &&& row.enabled == result.enabled
            &&& row.expires_at == result.expires_at
            &&& row.revision == result.revision
            &&& row.drain_pending == result.drain_pending
            &&& row.enabled ==> (row.expires_at matches Some(expiry) && expiry > now)
        },
    }
}

/// Reads the recorded answer of a request.
pub fn metadata_trace_request_result(
    actor: &MetadataTraceActor,
    request: &MetadataTraceConsentRequestRow,
) -> (result: Result<MetadataTraceConsent, SessionStoreError>)
    ensures
        result == recorded_result(*actor, *request),
{
    match (request.result_enabled, request.result_revision, request.result_drain_pending) {
        (Some(enabled), Some(revision), Some(drain_pending)) => {
            if (enabled && request.result_expires_at.is_none()) || (!enabled
                && request.result_expires_at.is_some()) {
                return Err(SessionStoreError::MetadataTraceIdempotencyIncomplete);
            }
            Ok(
                MetadataTraceConsent {
                    source: actor.source.clone(),
                    workspace_id: actor.workspace_id.clone(),
                    user_id: actor.user_id.clone(),
                    enabled,
                    expires_at: request.result_expires_at,
                    revision,
                    drain_pending,
                },
            )
        },
        _ => Err(SessionStoreError::MetadataTraceIdempotencyIncomplete),
    }
}

/// Whether a recorded answer is still the actor's consent.
pub fn metadata_trace_request_result_is_current(
    current: &Option<MetadataTraceConsent>,
    result: &MetadataTraceConsent,
    now: Timestamp,
) -> (is_current: bool)
    ensures
        is_current == result_is_current(*current, *result, now),
{
    match current {
        None => false,
        Some(row) => {
            let live = match row.expires_at {
                Some(expiry) => expiry > now,
                None => false,
            };
            row.enabled == result.enabled && row.expires_at == result.expires_at && row.revision
                == result.revision && row.drain_pending == result.drain_pending && (!row.enabled
                || live)
        },
    }
}

/// Records an answer in its request row.
pub fn persist_metadata_trace_request_result(
    request: MetadataTraceConsentRequestRow,
    consent: &MetadataTraceConsent,
    drain_assignment_revision: Option<i64>,
) -> (recorded: MetadataTraceConsentRequestRow)
    ensures
        recorded == with_result(request, *consent, drain_assignment_revision),
{
    MetadataTraceConsentRequestRow {
        request_hash: request.request_hash,
        result_enabled: Some(consent.enabled),
        result_expires_at: consent.expires_at,
        result_revision: Some(consent.revision),
        result_drain_pending: Some(consent.drain_pending),
        drain_assignment_revision,
    }
}

// ---------------------------------------------------------------------------
// Grants
// ---------------------------------------------------------------------------

/// A grant: refused while a drain is pending and when the revision is not the
/// expected one (an absent row counts as revision zero); otherwise the consent is
/// enabled until the given time, at a new revision unless that is what it was. A
/// revision beyond the last one is out of range.
pub open spec fn granted(
    current: Option<MetadataTraceConsent>,
    actor: MetadataTraceActor,
    expires_at: Timestamp,
    expected_revision: Option<i64>,
) -> Result<MetadataTraceConsent, SessionStoreError> {
    match current {
        None => if expected_revision matches Some(expected) && expected != 0 {
            Err(SessionStoreError::MetadataTraceConsentRevisionChanged)
        } else {
            Ok(consent_of(actor, true, Some(expires_at), 1, false))
        },
        Some(row) => if row.drain_pending {
            Err(SessionStoreError::MetadataTraceDrainPending)
        } else if expected_revision matches Some(expected) && expected != row.revision {
            Err(SessionStoreError::MetadataTraceConsentRevisionChanged)
        } else if row.enabled && row.expires_at == Some(expires_at) {
            Ok(row)
        } else if row.revision == i64::MAX {
            Err(SessionStoreError::OutOfRange)
        } else {
            Ok(
                MetadataTraceConsent {
                    enabled: true,
                    expires_at: Some(expires_at),
                    revision: (row.revision + 1) as i64,
                    ..row
                },
            )
        },
    }
}

/// Grants consent on the locked row, or on its absence.
pub fn grant_metadata_trace_consent_in_transaction(
    current: Option<MetadataTraceConsent>,
    actor: &MetadataTraceActor,
    expires_at: Timestamp,
    expected_revision: Option<i64>,
) -> (consent: Result<MetadataTraceConsent, SessionStoreError>)
    ensures
        consent == granted(current, *actor, expires_at, expected_revision),
        consent matches Ok(after) ==> after.enabled && after.expires_at == Some(expires_at)
            && !after.drain_pending,
{
    match current {
        None => {
            if let Some(expected) = expected_revision {
                if expected != 0 {
                    return Err(SessionStoreError::MetadataTraceConsentRevisionChanged);
                }
            }
            Ok(
                MetadataTraceConsent {
                    source: actor.source.clone(),
                    workspace_id: actor.workspace_id.clone(),
                    user_id: actor.user_id.clone(),
                    enabled: true,
                    expires_at: Some(expires_at),
                    revision: 1,
                    drain_pending: false,
                },
            )
        },
        Some(row) => {
            if row.drain_pending {
                return Err(SessionStoreError::MetadataTraceDrainPending);
            }
            if let Some(expected) = expected_revision {
                if expected != row.revision {
                    return Err(SessionStoreError::MetadataTraceConsentRevisionChanged);
                }
            }
            if row.enabled && row.expires_at == Some(expires_at) {
                return Ok(row);
            }
            if row.revision == i64::MAX {
                return Err(SessionStoreError::OutOfRange);
            }
            let mut row = row;
            row.revision = row.revision + 1;
            row.enabled = true;
            row.expires_at = Some(expires_at);
            Ok(row)
        },
    }
}

/// Grants consent without a revision to be met.
pub fn grant_metadata_trace_consent(
    current: Option<MetadataTraceConsent>,
    actor: &MetadataTraceActor,
    expires_at: Timestamp,
) -> (consent: Result<MetadataTraceConsent, SessionStoreError>)
    ensures
        consent == granted(current, *actor, expires_at, None),
        consent matches Ok(after) ==> after.enabled && after.expires_at == Some(expires_at)
            && !after.drain_pending,
{
    grant_metadata_trace_consent_in_transaction(current, actor, expires_at, None)
}

/// The answer to a grant request. `inserted` says that this transaction reserved
/// the request; otherwise the row is that of an earlier one. Another request
/// under the same key is a conflict; a repetition is answered with the recorded
/// result while that is still the consent; a new request is applied and recorded.
pub open spec fn grant_replied(
    inserted: bool,
    request: MetadataTraceConsentRequestRow,
    current: Option<MetadataTraceConsent>,
    actor: MetadataTraceActor,
    expires_at: Timestamp,
    expected_revision: Option<i64>,
    request_hash: Seq<char>,
    now: Timestamp,
) -> Result<GrantReply, SessionStoreError> {
    if request.request_hash@ != request_hash {
        Err(SessionStoreError::MetadataTraceIdempotencyConflict)
    } else if !inserted {
        match recorded_result(actor, request) {
            Err(error) => Err(error),
            Ok(result) => if result_is_current(current, result, now) {
                Ok(GrantReply::Replayed(result))
            } else {
                Err(SessionStoreError::MetadataTraceIdempotencyReplayFenced)
            },
        }
    } else {
        match granted(current, actor, expires_at, expected_revision) {
            Err(error) => Err(error),
            Ok(consent) => Ok(
                GrantReply::Applied { consent, request: with_result(request, consent, None) },
            ),
        }
    }
}

/// Answers a grant request: reserve, apply and record belong to one transaction.
/// A request row without a whole result is never applied again.
pub fn grant_metadata_trace_consent_idempotent(
    inserted: bool,
    request: MetadataTraceConsentRequestRow,
    current: Option<MetadataTraceConsent>,
    actor: &MetadataTraceActor,
    expires_at: Timestamp,
    expected_revision: Option<i64>,
    request_hash: &str,
    now: Timestamp,
) -> (reply: Result<GrantReply, SessionStoreError>)
    ensures
        reply == grant_replied(
            inserted,
            request,
            current,
            *actor,
            expires_at,
            expected_revision,
            request_hash@,
            now,
        ),
{
    if !same_text(request.request_hash.as_str(), request_hash) {
        return Err(SessionStoreError::MetadataTraceIdempotencyConflict);
    }
    if !inserted {
        return match metadata_trace_request_result(actor, &request) {
            Err(error) => Err(error),
            Ok(result) => {
                if metadata_trace_request_result_is_current(&current, &result, now) {
                    Ok(GrantReply::Replayed(result))
                } else {
                    Err(SessionStoreError::MetadataTraceIdempotencyReplayFenced)
                }
            },
        };
    }
    match grant_metadata_trace_consent_in_transaction(
        current,
        actor,
        expires_at,
        expected_revision,
    ) {
        Err(error) => Err(error),
        Ok(consent) => {
            let request = persist_metadata_trace_request_result(request, &consent, None);
            Ok(GrantReply::Applied { consent, request })
        },
    }
}

// ---------------------------------------------------------------------------
// Revokes
// ---------------------------------------------------------------------------

/// The consent once it is revoked: disabled, without expiry, at a new revision if
/// it was enabled. A drain that was pending still is.
pub open spec fn revoked_consent(
    current: Option<MetadataTraceConsent>,
    actor: MetadataTraceActor,
) -> MetadataTraceConsent {
    match current {
        None => consent_of(actor, false, None, 1, false),
        Some(row) => MetadataTraceConsent {
            enabled: false,
            expires_at: None,
            revision: if row.enabled {
                (row.revision + 1) as i64
            } else {
                row.revision
            },
            ..row
        },
    }
}

/// A revoke would need a revision beyond the last one.
pub open spec fn revoke_overflows(current: Option<MetadataTraceConsent>) -> bool {
    current matches Some(row) && row.enabled && row.revision == i64::MAX
}

/// The revision that the sandboxes of the boundary before carry, if there is one.
pub open spec fn revision_before(revision: i64) -> Option<i64> {
    if revision == i64::MIN {
        None
    } else {
        Some((revision - 1) as i64)
    }
}

/// The targets under a revision that there may not be.
pub open spec fn drain_targets_at(
    rows: Seq<TracedAssignmentRow>,
    actor: MetadataTraceActor,
    revision: Option<i64>,
) -> Result<Seq<MetadataTraceDrainTarget>, SessionStoreError> {
    match revision {
        None => Ok(Seq::empty()),
        Some(revision) => drain_targets(rows, actor, revision),
    }
}

/// The consent once its drain is known: pending if it was, if there are targets,
/// or if some traced sandbox may be anyone's.
pub open spec fn with_drain(
    consent: MetadataTraceConsent,
    targets: Seq<MetadataTraceDrainTarget>,
    rows: Seq<TracedAssignmentRow>,
) -> MetadataTraceConsent {
    MetadataTraceConsent {
        drain_pending: consent.drain_pending || targets.len() > 0 || unknown_assignment_exists(rows),
        ..consent
    }
}

/// A revoke read is the one stated over a list of targets.
pub open spec fn revoke_is(
    revoked: Result<RevokedConsent, SessionStoreError>,
    consent: MetadataTraceConsent,
    revision: Option<i64>,
    targets: Result<Seq<MetadataTraceDrainTarget>, SessionStoreError>,
    rows: Seq<TracedAssignmentRow>,
) -> bool {
    match (revoked, targets) {
        (Ok(made), Ok(list)) => {
            &&& made.targets@ == list
            &&& made.consent == with_drain(consent, list, rows)
            &&& made.drain_assignment_revision == revision
        },
        (Err(a), Err(b)) => a == b,
        _ => false,
    }
}

fn revoke_row(current: Option<MetadataTraceConsent>, actor: &MetadataTraceActor) -> (consent: Result<
    MetadataTraceConsent,
    SessionStoreError,
>)
    ensures
        consent == if revoke_overflows(current) {
            Err::<MetadataTraceConsent, SessionStoreError>(SessionStoreError::OutOfRange)
        } else {
            Ok::<MetadataTraceConsent, SessionStoreError>(revoked_consent(current, *actor))
        },
{
    match current {
        None => Ok(
            MetadataTraceConsent {
                source: actor.source.clone(),
                workspace_id: actor.workspace_id.clone(),
                user_id: actor.user_id.clone(),
                enabled: false,
                expires_at: None,
                revision: 1,
                drain_pending: false,
            },
        ),
        Some(row) => {
            let mut row = row;
            if row.enabled {
                if row.revision == i64::MAX {
                    return Err(SessionStoreError::OutOfRange);
                }
                row.revision = row.revision + 1;
            }
            row.enabled = false;
            row.expires_at = None;
            Ok(row)
        },
    }
}

fn revoke_at(
    consent: MetadataTraceConsent,
    rows: &Vec<TracedAssignmentRow>,
    actor: &MetadataTraceActor,
    revision: Option<i64>,
) -> (revoked: Result<RevokedConsent, SessionStoreError>)
    ensures
        revoke_is(revoked, consent, revision, drain_targets_at(rows@, *actor, revision), rows@),
{
    let targets = match revision {
        None => Vec::new(),
        Some(revision) => match metadata_trace_drain_targets(rows, actor, revision) {
            Err(error) => return Err(error),
            Ok(targets) => targets,
        },
    };
    let mut consent = consent;
    consent.drain_pending = consent.drain_pending || targets.len() > 0
        || legacy_metadata_trace_assignment_exists(rows);
    Ok(RevokedConsent { consent, targets, drain_assignment_revision: revision })
}

/// Revokes consent on the locked row, or on its absence, and finds the sandboxes
/// of the boundary that it ends. `rows` are the traced assignments.
pub fn revoke_metadata_trace_consent_in_transaction(
    current: Option<MetadataTraceConsent>,
    rows: &Vec<TracedAssignmentRow>,
    actor: &MetadataTraceActor,
) -> (revoked: Result<RevokedConsent, SessionStoreError>)
    ensures
        if revoke_overflows(current) {
            revoked == Err::<RevokedConsent, SessionStoreError>(SessionStoreError::OutOfRange)
        } else {
            let consent = revoked_consent(current, *actor);
            let revision = revision_before(consent.revision);
            revoke_is(revoked, consent, revision, drain_targets_at(rows@, *actor, revision), rows@)
        },
        revoked matches Ok(made) ==> {
            &&& !made.consent.enabled
            &&& made.consent.expires_at is None
            &&& current is None ==> made.consent.revision == 1
            &&& current is Some && current->0.enabled
                ==> made.consent.revision == current->0.revision
                + 1
            &&& current is Some && !current->0.enabled ==> made.consent.revision
                == current->0.revision
            &&& current is Some && current->0.drain_pending ==> made.consent.drain_pending
            &&& made.targets@.len() > 0 ==> made.consent.drain_pending
        },
        revoked matches Ok(made) ==> (made.consent.revision > i64::MIN
            ==> made.drain_assignment_revision is Some && made.drain_assignment_revision->0 + 1
            == made.consent.revision && drain_targets(
            rows@,
            *actor,
            made.drain_assignment_revision->0,
        ) == Ok::<Seq<MetadataTraceDrainTarget>, SessionStoreError>(made.targets@)),
        current is Some && current->0.enabled && current->0.revision == i64::MAX ==> revoked is Err,
{
    let consent = match revoke_row(current, actor) {
        Err(error) => return Err(error),
        Ok(consent) => consent,
    };
    let revision = consent.revision.checked_sub(1);
    revoke_at(consent, rows, actor, revision)
}

/// The revision before, held at the smallest one.
pub open spec fn revision_before_saturating(revision: i64) -> i64 {
    if revision == i64::MIN {
        i64::MIN
    } else {
        (revision - 1) as i64
    }
}

/// Revokes consent without a request to be recorded.
pub fn revoke_metadata_trace_consent(
    current: Option<MetadataTraceConsent>,
    rows: &Vec<TracedAssignmentRow>,
    actor: &MetadataTraceActor,
) -> (revoked: Result<RevokedConsent, SessionStoreError>)
    ensures
        if revoke_overflows(current) {
            revoked == Err::<RevokedConsent, SessionStoreError>(SessionStoreError::OutOfRange)
        } else {
            let consent = revoked_consent(current, *actor);
            let revision = revision_before_saturating(consent.revision);
            revoke_is(
                revoked,
                consent,
                Some(revision),
                drain_targets(rows@, *actor, revision),
                rows@,
            )
        },
        revoked matches Ok(made) ==> {
            &&& !made.consent.enabled
            &&& made.consent.expires_at is None
            &&& current is None ==> made.consent.revision == 1
            &&& current is Some && current->0.enabled
                ==> made.consent.revision == current->0.revision
                + 1
            &&& current is Some && !current->0.enabled ==> made.consent.revision
                == current->0.revision
            &&& current is Some && current->0.drain_pending ==> made.consent.drain_pending
            &&& made.targets@.len() > 0 ==> made.consent.drain_pending
        },
        revoked matches Ok(made) ==> (made.consent.revision > i64::MIN
            ==> made.drain_assignment_revision is Some && made.drain_assignment_revision->0 + 1
            == made.consent.revision && drain_targets(
            rows@,
            *actor,
            made.drain_assignment_revision->0,
        ) == Ok::<Seq<MetadataTraceDrainTarget>, SessionStoreError>(made.targets@)),
        current is Some && current->0.enabled && current->0.revision == i64::MAX ==> revoked is Err,
{
    let consent = match revoke_row(current, actor) {
        Err(error) => return Err(error),
        Ok(consent) => consent,
    };
    let revision: i64 = if consent.revision == i64::MIN {
        i64::MIN
    } else {
        consent.revision - 1
    };
    revoke_at(consent, rows, actor, Some(revision))
}

/// The answer to a revoke request is the one that the rules give. A repetition is
/// answered with the recorded consent and with what is left to drain under the
/// recorded revision, whatever the consent has become since.
pub open spec fn revoke_replied(
    reply: Result<RevokeReply, SessionStoreError>,
    inserted: bool,
    request: MetadataTraceConsentRequestRow,
    current: Option<MetadataTraceConsent>,
    rows: Seq<TracedAssignmentRow>,
    actor: MetadataTraceActor,
    request_hash: Seq<char>,
) -> bool {
    if request.request_hash@ != request_hash {
        reply == Err::<RevokeReply, SessionStoreError>(
            SessionStoreError::MetadataTraceIdempotencyConflict,
        )
    } else if !inserted {
        match (
            recorded_result(actor, request),
            drain_targets_at(rows, actor, request.drain_assignment_revision),
        ) {
            (Err(error), _) => reply == Err::<RevokeReply, SessionStoreError>(error),
            (_, Err(error)) => reply == Err::<RevokeReply, SessionStoreError>(error),
            (Ok(result), Ok(left)) => {
                &&& reply matches Ok(RevokeReply::Replayed { consent, targets })
                &&& consent == result
                &&& targets@ == left
            },
        }
    } else if revoke_overflows(current) {
        reply == Err::<RevokeReply, SessionStoreError>(SessionStoreError::OutOfRange)
    } else {
        let consent = revoked_consent(current, actor);
        let revision = revision_before(consent.revision);
        let stated = drain_targets_at(rows, actor, revision);
        match reply {
            Err(error) => revoke_is(
                Err::<RevokedConsent, SessionStoreError>(error),
                consent,
                revision,
                stated,
                rows,
            ),
            Ok(RevokeReply::Applied { revoked, request: recorded }) => {
                &&& revoke_is(
                    Ok::<RevokedConsent, SessionStoreError>(revoked),
                    consent,
                    revision,
                    stated,
                    rows,
                )
                &&& recorded == with_result(request, revoked.consent, revision)
            },
            Ok(RevokeReply::Replayed { .. }) => false,
        }
    }
}

/// Answers a revoke request: reserve, revoke and record belong to one
/// transaction. Stopping the sandboxes does not; the recorded answer stays
/// pending until the exact assignments are gone.
pub fn revoke_metadata_trace_consent_idempotent(
    inserted: bool,
    request: MetadataTraceConsentRequestRow,
    current: Option<MetadataTraceConsent>,
    rows: &Vec<TracedAssignmentRow>,
    actor: &MetadataTraceActor,
    request_hash: &str,
) -> (reply: Result<RevokeReply, SessionStoreError>)
    ensures
        revoke_replied(reply, inserted, request, current, rows@, *actor, request_hash@),
{
    if !same_text(request.request_hash.as_str(), request_hash) {
        return Err(SessionStoreError::MetadataTraceIdempotencyConflict);
    }
    if !inserted {
        let consent = match metadata_trace_request_result(actor, &request) {
            Err(error) => return Err(error),
            Ok(consent) => consent,
        };
        let targets = match request.drain_assignment_revision {
            None => Vec::new(),
            Some(revision) => match metadata_trace_drain_targets(rows, actor, revision) {
                Err(error) => return Err(error),
                Ok(targets) => targets,
            },
        };
        return Ok(RevokeReply::Replayed { consent, targets });
    }
    match revoke_metadata_trace_consent_in_transaction(current, rows, actor) {
        Err(error) => Err(error),
        Ok(revoked) => {
            let request = persist_metadata_trace_request_result(
                request,
                &revoked.consent,
                revoked.drain_assignment_revision,
            );
            Ok(RevokeReply::Applied { revoked, request })
        },
    }
}

// ---------------------------------------------------------------------------
// Expiry
// ---------------------------------------------------------------------------

/// A grant whose time has run out.
pub open spec fn is_elapsed(consent: MetadataTraceConsent, at: Timestamp) -> bool {
    consent.enabled && (consent.expires_at matches Some(expiry) && expiry <= at)
}

/// A live sandbox is traced for the consent's own actor under its own revision.
pub open spec fn traced_under(row: TracedAssignmentRow, consent: MetadataTraceConsent) -> bool {
    &&& traced_for(row, actor_of(consent))
    &&& row.trace.consent_revision == Some(consent.revision)
}

/// The key of a consent row.
pub open spec fn actor_of(consent: MetadataTraceConsent) -> MetadataTraceActor {
    MetadataTraceActor {
        source: consent.source,
        workspace_id: consent.workspace_id,
        user_id: consent.user_id,
    }
}

/// The consent once its expiry is recorded: a boundary like a revoke, with a drain
/// for what was traced under it.
pub open spec fn expired_consent(
    consent: MetadataTraceConsent,
    rows: Seq<TracedAssignmentRow>,
) -> MetadataTraceConsent {
    MetadataTraceConsent {
        enabled: false,
        expires_at: None,
        revision: (consent.revision + 1) as i64,
        drain_pending: exists|i: int| 0 <= i < rows.len() && traced_under(#[trigger] rows[i], consent),
        ..consent
    }
}

/// An expiry sweep would need a revision beyond the last one.
pub open spec fn expiry_overflows(consents: Seq<MetadataTraceConsent>, at: Timestamp) -> bool {
    exists|i: int|
        0 <= i < consents.len() && is_elapsed(#[trigger] consents[i], at) && consents[i].revision
            == i64::MAX
}

/// The consents that an expiry sweep rewrites, in their order.
pub open spec fn expired_consents(
    consents: Seq<MetadataTraceConsent>,
    rows: Seq<TracedAssignmentRow>,
    at: Timestamp,
) -> Seq<MetadataTraceConsent>
    decreases consents.len(),
{
    if consents.len() == 0 {
        Seq::empty()
    } else {
        let before = expired_consents(consents.drop_last(), rows, at);
        if is_elapsed(consents.last(), at) {
            before.push(expired_consent(consents.last(), rows))
        } else {
            before
        }
    }
}

fn expire_row(consent: &MetadataTraceConsent, rows: &Vec<TracedAssignmentRow>) -> (expired:
    MetadataTraceConsent)
    requires
        consent.revision < i64::MAX,
    ensures
        expired == expired_consent(*consent, rows@),
{
    let actor = MetadataTraceActor {
        source: consent.source.clone(),
        workspace_id: consent.workspace_id.clone(),
        user_id: consent.user_id.clone(),
    };
    let mut drain_pending = false;
    let mut i: usize = 0;
    while i < rows.len()
        invariant
            i <= rows.len(),
            actor == actor_of(*consent),
            drain_pending == exists|j: int|
                0 <= j < i && traced_under(#[trigger] rows@[j], *consent),
        decreases rows.len() - i,
    {
        if rows[i].trace.consent_revision == Some(consent.revision) && row_is_traced_for(
            &rows[i],
            &actor,
        ) {
            drain_pending = true;
        }
        i += 1;
    }
    let mut expired = consent.copy();
    expired.enabled = false;
    expired.expires_at = None;
    expired.revision = consent.revision + 1;
    expired.drain_pending = drain_pending;
    expired
}

/// Records the expiry of every elapsed grant and answers with the rewritten rows.
/// Expiry is a durable revoke boundary, so the exact drains are recorded even
/// when a sandbox cannot be reached yet.
pub fn expire_elapsed_metadata_trace_consents(
    consents: &Vec<MetadataTraceConsent>,
    rows: &Vec<TracedAssignmentRow>,
    at: Timestamp,
) -> (outcome: Result<Vec<MetadataTraceConsent>, SessionStoreError>)
    ensures
        if expiry_overflows(consents@, at) {
            outcome == Err::<Vec<MetadataTraceConsent>, SessionStoreError>(
                SessionStoreError::OutOfRange,
            )
        } else {
            outcome matches Ok(expired) && expired@ == expired_consents(consents@, rows@, at)
        },
{
    let mut expired: Vec<MetadataTraceConsent> = Vec::new();
    let mut i: usize = 0;
    while i < consents.len()
        invariant
            i <= consents.len(),
            forall|j: int|
                0 <= j < i && is_elapsed(#[trigger] consents@[j], at) ==> consents@[j].revision
                    < i64::MAX,
            expired@ == expired_consents(consents@.take(i as int), rows@, at),
        decreases consents.len() - i,
    {
        let consent = &consents[i];
        let elapsed = match consent.expires_at {
            Some(expiry) => consent.enabled && expiry <= at,
            None => false,
        };
        if elapsed {
            if consent.revision == i64::MAX {
                assert(is_elapsed(consents@[i as int], at));
                return Err(SessionStoreError::OutOfRange);
            }
            expired.push(expire_row(consent, rows));
        }
        i += 1;
        assert(consents@.take(i as int).drop_last() =~= consents@.take(i - 1));
    }
    assert(consents@.take(i as int) =~= consents@);
    Ok(expired)
}

// ---------------------------------------------------------------------------
// Drains
// ---------------------------------------------------------------------------

/// A disabled consent of this very revision waits for its drain.
pub open spec fn drain_is_current(current: Option<MetadataTraceConsent>, revision: i64) -> bool {
    current matches Some(row) && row.revision == revision && !row.enabled && row.drain_pending
}

fn is_drain_current(current: &Option<MetadataTraceConsent>, revision: i64) -> (is: bool)
    ensures
        is == drain_is_current(*current, revision),
{
    match current {
        None => false,
        Some(row) => row.revision == revision && !row.enabled && row.drain_pending,
    }
}

/// The targets of a disabled revision while it is still the current one. A
/// reconciler may hold an old snapshot, so this tells a drain that is over, or was
/// followed by another grant, from one that still runs.
pub fn metadata_trace_drain_targets_if_current(
    current: &Option<MetadataTraceConsent>,
    rows: &Vec<TracedAssignmentRow>,
    actor: &MetadataTraceActor,
    disabled_revision: i64,
) -> (targets: Result<Option<Vec<MetadataTraceDrainTarget>>, SessionStoreError>)
    ensures
        if drain_is_current(*current, disabled_revision) {
            match targets {
                Ok(Some(list)) => same_targets(
                    Ok::<Vec<MetadataTraceDrainTarget>, SessionStoreError>(list),
                    drain_targets_at(rows@, *actor, revision_before(disabled_revision)),
                ),
                Ok(None) => false,
                Err(error) => same_targets(
                    Err::<Vec<MetadataTraceDrainTarget>, SessionStoreError>(error),
                    drain_targets_at(rows@, *actor, revision_before(disabled_revision)),
                ),
            }
        } else {
            targets matches Ok(None)
        },
        targets == Ok::<Option<Vec<MetadataTraceDrainTarget>>, SessionStoreError>(None)
            <==> current is None
            || current->0.revision != disabled_revision || current->0.enabled
            || !current->0.drain_pending,
        targets matches Ok(Some(list)) ==> (disabled_revision > i64::MIN ==> drain_targets(
            rows@,
            *actor,
            (disabled_revision - 1) as i64,
        ) == Ok::<Seq<MetadataTraceDrainTarget>, SessionStoreError>(list@)),
{
    if !is_drain_current(current, disabled_revision) {
        return Ok(None);
    }
    match disabled_revision.checked_sub(1) {
        None => Ok(Some(Vec::new())),
        Some(revision) => match metadata_trace_drain_targets(rows, actor, revision) {
            Err(error) => Err(error),
            Ok(targets) => Ok(Some(targets)),
        },
    }
}

/// A live traced sandbox keeps the actor's drain open: it is the actor's, of
/// whatever revision, or may be anyone's.
pub open spec fn keeps_drain_open(row: TracedAssignmentRow, actor: MetadataTraceActor) -> bool {
    traced_for(row, actor) || traced_for_unknown(row)
}

/// No traced sandbox keeps the actor's drain open.
pub open spec fn drain_is_empty(rows: Seq<TracedAssignmentRow>, actor: MetadataTraceActor) -> bool {
    forall|i: int| 0 <= i < rows.len() ==> !keeps_drain_open(#[trigger] rows[i], actor)
}

fn is_drain_empty(rows: &Vec<TracedAssignmentRow>, actor: &MetadataTraceActor) -> (empty: bool)
    ensures
        empty == drain_is_empty(rows@, *actor),
{
    let mut i: usize = 0;
    while i < rows.len()
        invariant
            i <= rows.len(),
            forall|j: int| 0 <= j < i ==> !keeps_drain_open(#[trigger] rows@[j], *actor),
        decreases rows.len() - i,
    {
        if row_is_traced_for(&rows[i], actor) || row_is_traced_for_unknown(&rows[i]) {
            assert(keeps_drain_open(rows@[i as int], *actor));
            return false;
        }
        i += 1;
    }
    true
}

/// Ends the actor's drain if no traced sandbox keeps it open. Otherwise, and
/// where there is no row, the answer is a disabled consent that still waits.
pub fn complete_metadata_trace_drain_if_empty(
    current: Option<MetadataTraceConsent>,
    rows: &Vec<TracedAssignmentRow>,
    actor: &MetadataTraceActor,
) -> (completion: DrainCompletion)
    ensures
        match current {
            Some(row) if drain_is_empty(rows@, *actor) => {
                &&& completion.cleared
                &&& completion.consent == (MetadataTraceConsent { drain_pending: false, ..row })
            },
            _ => {
                &&& !completion.cleared
                &&& completion.consent == consent_of(*actor, false, None, 0, true)
            },
        },
        completion.cleared ==> !completion.consent.drain_pending && current is Some
            && completion.consent.revision == current->0.revision && completion.consent.enabled
            == current->0.enabled && completion.consent.expires_at == current->0.expires_at,
        !completion.cleared ==> completion.consent.drain_pending && !completion.consent.enabled,
        completion.cleared ==> forall|i: int|
            0 <= i < rows@.len() ==> !((#[trigger] rows@[i]).trace.enabled == Some(true)
                && rows@[i].sandbox_id is Some && (rows@[i].trace.source is None
                || rows@[i].trace.workspace_id is None || rows@[i].trace.user_id is None
                || rows@[i].trace.assignment_epoch is None || rows@[i].trace.resource_uid is None
                    || (
            rows@[i].trace.source->0@ == actor.source@ && rows@[i].trace.workspace_id->0@
                == actor.workspace_id@ && rows@[i].trace.user_id->0@ == actor.user_id@))),
        current is Some && (forall|i: int|
            0 <= i < rows@.len() ==> (#[trigger] rows@[i]).trace.enabled != Some(true)
                || rows@[i].sandbox_id is None || (rows@[i].trace.source is Some
                && rows@[i].trace.workspace_id is Some && rows@[i].trace.user_id is Some
                && rows@[i].trace.assignment_epoch is Some && rows@[i].trace.resource_uid is Some
                    && (
            rows@[i].trace.source->0@ != actor.source@ || rows@[i].trace.workspace_id->0@
                != actor.workspace_id@ || rows@[i].trace.user_id->0@ != actor.user_id@)))
                    ==> completion.cleared,
{
    let empty = is_drain_empty(rows, actor);
    match current {
        Some(row) if empty => {
            let mut row = row;
            row.drain_pending = false;
            DrainCompletion { consent: row, cleared: true }
        },
        _ => DrainCompletion {
            consent: MetadataTraceConsent {
                source: actor.source.clone(),
                workspace_id: actor.workspace_id.clone(),
                user_id: actor.user_id.clone(),
                enabled: false,
                expires_at: None,
                revision: 0,
                drain_pending: true,
            },
            cleared: false,
        },
    }
}

/// Ends a pending drain only while the exact disabled revision that claimed it is
/// still current and nothing keeps it open. Answers with the row to be written.
pub fn complete_metadata_trace_drain_if_current_and_empty(
    current: Option<MetadataTraceConsent>,
    rows: &Vec<TracedAssignmentRow>,
    actor: &MetadataTraceActor,
    disabled_revision: i64,
) -> (completed: Option<MetadataTraceConsent>)
    ensures
        completed == if drain_is_current(current, disabled_revision) && drain_is_empty(
            rows@,
            *actor,
        ) {
            Some(MetadataTraceConsent { drain_pending: false, ..current->0 })
        } else {
            None
        },
        completed matches Some(after) ==> {
            &&& current is Some
            &&& current->0.revision == disabled_revision
            &&& !current->0.enabled
            &&& current->0.drain_pending
            &&& after.revision == disabled_revision
            &&& !after.enabled
            &&& !after.drain_pending
        },
        completed is Some ==> forall|i: int|
            0 <= i < rows@.len() ==> !((#[trigger] rows@[i]).trace.enabled == Some(true)
                && rows@[i].sandbox_id is Some && (rows@[i].trace.source is None
                || rows@[i].trace.workspace_id is None || rows@[i].trace.user_id is None
                || rows@[i].trace.assignment_epoch is None || rows@[i].trace.resource_uid is None
                    || (
            rows@[i].trace.source->0@ == actor.source@ && rows@[i].trace.workspace_id->0@
                == actor.workspace_id@ && rows@[i].trace.user_id->0@ == actor.user_id@))),
        current is Some && current->0.revision == disabled_revision && !current->0.enabled
            && current->0.drain_pending && (forall|i: int|
            0 <= i < rows@.len() ==> (#[trigger] rows@[i]).trace.enabled != Some(true)
                || rows@[i].sandbox_id is None || (rows@[i].trace.source is Some
                && rows@[i].trace.workspace_id is Some && rows@[i].trace.user_id is Some
                && rows@[i].trace.assignment_epoch is Some && rows@[i].trace.resource_uid is Some
                    && (
            rows@[i].trace.source->0@ != actor.source@ || rows@[i].trace.workspace_id->0@
                != actor.workspace_id@ || rows@[i].trace.user_id->0@ != actor.user_id@)))
                    ==> completed is Some,
{
    if !is_drain_current(&current, disabled_revision) || !is_drain_empty(rows, actor) {
        return None;
    }
    match current {
        None => None,
        Some(row) => {
            let mut row = row;
            row.drain_pending = false;
            Some(row)
        },
    }
}

} // verus!
