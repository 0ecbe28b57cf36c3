//! What the rules on consent, drains and trace configuration come to, column by column.
use crate::consent::{
    assignment_actor, consent_belongs, consent_of, consent_reported, drain_target_of,
    drain_targets, holds_trace_state, is_drain_target, pending_drains, recorded_actor,
    traced_for_unknown, unknown_assignment_exists, GrantReply, MetadataTraceActor,
    MetadataTraceAssignmentActor, MetadataTraceConsent, MetadataTraceConsentRequestRow,
    MetadataTraceDrainTarget, RevokeReply, RevokedConsent, TracedAssignmentRow,
};
use crate::consent_change::{
    drain_is_current, drain_is_empty, drain_targets_at, expired_consent, expired_consents,
    expiry_overflows, grant_replied, granted, is_elapsed, keeps_drain_open, recorded_result,
    result_is_current, revision_before, revision_before_saturating, revoke_is, revoke_overflows,
    revoke_replied, revoked_consent, traced_under, with_drain, with_result,
};
use crate::error::SessionStoreError;
use crate::model::{ThreadKey, Timestamp};
use crate::rows::TraceColumns;
use crate::trace_config::{
    boundary_config, MetadataTraceConfigIdentity, MetadataTraceConfigStateRow,
    MetadataTraceReconcilerLease,
};
use crate::truth::Truth;
use vstd::prelude::*;

verus! {

// ---------------------------------------------------------------------------
// Granting
// ---------------------------------------------------------------------------

/// A grant that succeeds leaves the consent on until exactly the expiry asked for,
/// whether that is later or earlier than before. The revision moves by one, unless
/// the consent was on with that very expiry already.
pub proof fn law_grant_sets_the_expiry(
    current: Option<MetadataTraceConsent>,
    actor: MetadataTraceActor,
    expires_at: Timestamp,
    expected_revision: Option<i64>,
)
    ensures
        granted(current, actor, expires_at, expected_revision) matches Ok(consent) ==> {
            &&& consent.enabled
            &&& consent.expires_at == Some(expires_at)
            &&& !consent.drain_pending
            &&& current is None ==> {
                &&& consent.revision == 1
                &&& consent.source == actor.source
                &&& consent.workspace_id == actor.workspace_id
                &&& consent.user_id == actor.user_id
            }
            &&& current is Some ==> {
                let row = current->0;
                &&& consent.revision == row.revision + (if row.enabled && row.expires_at == Some(
                    expires_at,
                ) {
                    0int
                } else {
                    1int
                })
                &&& consent.source == row.source
                &&& consent.workspace_id == row.workspace_id
                &&& consent.user_id == row.user_id
            }
        },
{
}

/// When a grant is refused, and with what: while a drain is open; where the caller
/// expects another revision than the recorded one, which is zero for none; and where
/// the revision cannot be counted further. Otherwise it succeeds.
pub proof fn law_grant_conditions(
    current: Option<MetadataTraceConsent>,
    actor: MetadataTraceActor,
    expires_at: Timestamp,
    expected_revision: Option<i64>,
)
    ensures
        ({
            let answer = granted(current, actor, expires_at, expected_revision);
            let row = current->0;
            let recorded = if current is Some {
                row.revision
            } else {
                0
            };
            let draining = current is Some && row.drain_pending;
            let unexpected = expected_revision is Some && expected_revision->0 != recorded;
            let unchanged = current is Some && row.enabled && row.expires_at == Some(expires_at);
            &&& draining ==> answer == Err::<MetadataTraceConsent, SessionStoreError>(
                SessionStoreError::MetadataTraceDrainPending,
            )
            &&& !draining && unexpected ==> answer == Err::<
                MetadataTraceConsent,
                SessionStoreError,
            >(SessionStoreError::MetadataTraceConsentRevisionChanged)
            &&& !draining && !unexpected && !unchanged && recorded == i64::MAX ==> answer == Err::<
                MetadataTraceConsent,
                SessionStoreError,
            >(SessionStoreError::OutOfRange)
            &&& !draining && !unexpected && (unchanged || recorded < i64::MAX) ==> answer is Ok
        }),
{
}

/// A request is answered from its record if it was stored before, and only if it is
/// the same request: with another hash it conflicts, without a whole record it is
/// incomplete, and where the consent has moved on since, or is over, it is fenced.
pub proof fn law_grant_reply_conditions(
    inserted: bool,
    request: MetadataTraceConsentRequestRow,
    current: Option<MetadataTraceConsent>,
    actor: MetadataTraceActor,
    expires_at: Timestamp,
    expected_revision: Option<i64>,
    hash: Seq<char>,
    now: Timestamp,
)
    ensures
        ({
            let reply = grant_replied(
                inserted,
                request,
                current,
                actor,
                expires_at,
                expected_revision,
                hash,
                now,
            );
            let whole = request.result_enabled is Some && request.result_revision is Some
                && request.result_drain_pending is Some && (request.result_enabled->0
                <==> request.result_expires_at is Some);
            let same = current is Some && request.result_enabled == Some(current->0.enabled)
                && request.result_expires_at == current->0.expires_at && request.result_revision
                == Some(current->0.revision) && request.result_drain_pending == Some(
                current->0.drain_pending,
            ) && (current->0.enabled ==> current->0.expires_at is Some
                && current->0.expires_at->0 > now);
            &&& request.request_hash@ != hash ==> reply == Err::<GrantReply, SessionStoreError>(
                SessionStoreError::MetadataTraceIdempotencyConflict,
            )
            &&& request.request_hash@ == hash && !inserted && !whole ==> reply == Err::<
                GrantReply,
                SessionStoreError,
            >(SessionStoreError::MetadataTraceIdempotencyIncomplete)
            &&& request.request_hash@ == hash && !inserted && whole && !same ==> reply == Err::<
                GrantReply,
                SessionStoreError,
            >(SessionStoreError::MetadataTraceIdempotencyReplayFenced)
            &&& request.request_hash@ == hash && !inserted && whole && same ==> {
                &&& reply matches Ok(GrantReply::Replayed(consent))
                &&& consent.source == actor.source
                &&& consent.workspace_id == actor.workspace_id
                &&& consent.user_id == actor.user_id
                &&& consent.enabled == request.result_enabled->0
                &&& consent.expires_at == request.result_expires_at
                &&& consent.revision == request.result_revision->0
                &&& consent.drain_pending == request.result_drain_pending->0
            }
        }),
{
}

/// A grant that is applied for a request records its answer with it: on, until the
/// expiry asked for, under the revision granted, with nothing to drain.
pub proof fn law_applied_grant_is_recorded(
    request: MetadataTraceConsentRequestRow,
    current: Option<MetadataTraceConsent>,
    actor: MetadataTraceActor,
    expires_at: Timestamp,
    expected_revision: Option<i64>,
    hash: Seq<char>,
    now: Timestamp,
)
    requires
        request.request_hash@ == hash,
    ensures
        ({
            let reply = grant_replied(
                true,
                request,
                current,
                actor,
                expires_at,
                expected_revision,
                hash,
                now,
            );
            &&& reply is Ok <==> granted(current, actor, expires_at, expected_revision) is Ok
            &&& reply is Err ==> granted(current, actor, expires_at, expected_revision) == Err::<
                MetadataTraceConsent,
                SessionStoreError,
            >(reply->Err_0)
            &&& reply is Ok ==> {
                &&& reply matches Ok(GrantReply::Applied { consent, request: recorded })
                &&& granted(current, actor, expires_at, expected_revision) == Ok::<
                    MetadataTraceConsent,
                    SessionStoreError,
                >(consent)
                &&& recorded.request_hash == request.request_hash
                &&& recorded.result_enabled == Some(true)
                &&& recorded.result_expires_at == Some(expires_at)
                &&& recorded.result_revision == Some(consent.revision)
                &&& recorded.result_drain_pending == Some(false)
                &&& recorded.drain_assignment_revision is None
            }
        }),
{
}

/// What a request records is the consent as it was left, column by column, beside the
/// revision to be drained; and what is read back is the same.
pub proof fn law_recorded_result_columns(
    actor: MetadataTraceActor,
    request: MetadataTraceConsentRequestRow,
    consent: MetadataTraceConsent,
    drained: Option<i64>,
)
    ensures
        ({
            let recorded = with_result(request, consent, drained);
            &&& recorded.request_hash == request.request_hash
            &&& recorded.result_enabled == Some(consent.enabled)
            &&& recorded.result_expires_at == consent.expires_at
            &&& recorded.result_revision == Some(consent.revision)
            &&& recorded.result_drain_pending == Some(consent.drain_pending)
            &&& recorded.drain_assignment_revision == drained
        }),
        recorded_result(actor, request) is Ok <==> {
            &&& request.result_enabled is Some
            &&& request.result_revision is Some
            &&& request.result_drain_pending is Some
            &&& request.result_enabled->0 <==> request.result_expires_at is Some
        },
        recorded_result(actor, request) is Err ==> recorded_result(actor, request) == Err::<
            MetadataTraceConsent,
            SessionStoreError,
        >(SessionStoreError::MetadataTraceIdempotencyIncomplete),
        recorded_result(actor, request) matches Ok(read) ==> {
            &&& read.source == actor.source
            &&& read.workspace_id == actor.workspace_id
            &&& read.user_id == actor.user_id
            &&& Some(read.enabled) == request.result_enabled
            &&& read.expires_at == request.result_expires_at
            &&& Some(read.revision) == request.result_revision
            &&& Some(read.drain_pending) == request.result_drain_pending
        },
{
}

/// A recorded answer still holds exactly if the consent has all its columns as
/// recorded, and is not over.
pub proof fn law_current_result_conditions(
    current: Option<MetadataTraceConsent>,
    result: MetadataTraceConsent,
    now: Timestamp,
)
    ensures
        result_is_current(current, result, now) <==> {
            &&& current is Some
            &&& current->0.enabled == result.enabled
            &&& current->0.expires_at == result.expires_at
            &&& current->0.revision == result.revision
            &&& current->0.drain_pending == result.drain_pending
            &&& result.enabled ==> result.expires_at is Some && result.expires_at->0 > now
        },
{
}

// ---------------------------------------------------------------------------
// Revoking and expiring
// ---------------------------------------------------------------------------

/// A revoke leaves the consent off and without expiry. The revision moves by one if
/// the consent was on, stays if it was off, and starts at one where there was none. A
/// drain that was open stays open.
pub proof fn law_revoke_columns(
    current: Option<MetadataTraceConsent>,
    actor: MetadataTraceActor,
)
    requires
        !(current is Some && current->0.enabled && current->0.revision == i64::MAX),
    ensures
        !revoke_overflows(current),
        ({
            let consent = revoked_consent(current, actor);
            &&& !consent.enabled
            &&& consent.expires_at is None
            &&& current is None ==> {
                &&& consent.revision == 1
                &&& !consent.drain_pending
                &&& consent.source == actor.source
                &&& consent.workspace_id == actor.workspace_id
                &&& consent.user_id == actor.user_id
            }
            &&& current is Some ==> {
                let row = current->0;
                &&& row.enabled ==> consent.revision == row.revision + 1
                &&& !row.enabled ==> consent.revision == row.revision
                &&& consent.drain_pending == row.drain_pending
                &&& consent.source == row.source
                &&& consent.workspace_id == row.workspace_id
                &&& consent.user_id == row.user_id
            }
        }),
{
}

/// A revoke overflows exactly where a consent that is on has the last revision.
pub proof fn law_revoke_overflow(current: Option<MetadataTraceConsent>)
    ensures
        revoke_overflows(current) <==> current is Some && current->0.enabled
            && current->0.revision == i64::MAX,
{
}

/// A revoke drains the sandboxes of the revision before the one that it leaves, opens
/// a drain if there is any, or any whose actor is not known, and never closes one.
pub proof fn law_revoked_drain(
    made: RevokedConsent,
    consent: MetadataTraceConsent,
    rows: Seq<TracedAssignmentRow>,
    actor: MetadataTraceActor,
)
    requires
        i64::MIN < consent.revision,
        revoke_is(
            Ok::<RevokedConsent, SessionStoreError>(made),
            consent,
            revision_before(consent.revision),
            drain_targets_at(rows, actor, revision_before(consent.revision)),
            rows,
        ),
    ensures
        made.drain_assignment_revision == Some((consent.revision - 1) as i64),
        drain_targets(rows, actor, (consent.revision - 1) as i64) == Ok::<
            Seq<MetadataTraceDrainTarget>,
            SessionStoreError,
        >(made.targets@),
        made.consent.enabled == consent.enabled,
        made.consent.expires_at == consent.expires_at,
        made.consent.revision == consent.revision,
        made.consent.source == consent.source,
        made.consent.workspace_id == consent.workspace_id,
        made.consent.user_id == consent.user_id,
        consent.drain_pending ==> made.consent.drain_pending,
        made.targets@.len() > 0 ==> made.consent.drain_pending,
        (exists|i: int|
            0 <= i < rows.len() && (#[trigger] rows[i]).trace.enabled == Some(true)
                && rows[i].sandbox_id is Some && (rows[i].trace.source is None
                || rows[i].trace.workspace_id is None || rows[i].trace.user_id is None
                || rows[i].trace.assignment_epoch is None || rows[i].trace.resource_uid is None))
            ==> made.consent.drain_pending,
        made.consent.drain_pending ==> consent.drain_pending || made.targets@.len() > 0
            || exists|i: int|
            0 <= i < rows.len() && (#[trigger] rows[i]).trace.enabled == Some(true)
                && rows[i].sandbox_id is Some && (rows[i].trace.source is None
                || rows[i].trace.workspace_id is None || rows[i].trace.user_id is None
                || rows[i].trace.assignment_epoch is None || rows[i].trace.resource_uid is None),
{
    law_unknown_assignments(rows);
}

/// A sandbox is traced for an actor that is not known exactly if it is there and
/// traced, and any part of the actor, its epoch or its resource is missing.
pub proof fn law_unknown_assignments(rows: Seq<TracedAssignmentRow>)
    ensures
        unknown_assignment_exists(rows) <==> exists|i: int|
            0 <= i < rows.len() && (#[trigger] rows[i]).trace.enabled == Some(true)
                && rows[i].sandbox_id is Some && (rows[i].trace.source is None
                || rows[i].trace.workspace_id is None || rows[i].trace.user_id is None
                || rows[i].trace.assignment_epoch is None || rows[i].trace.resource_uid is None),
{
    if unknown_assignment_exists(rows) {
        let i = choose|i: int| 0 <= i < rows.len() && traced_for_unknown(#[trigger] rows[i]);
        assert(rows[i].trace.enabled == Some(true));
    }
    if exists|i: int|
        0 <= i < rows.len() && (#[trigger] rows[i]).trace.enabled == Some(true)
            && rows[i].sandbox_id is Some && (rows[i].trace.source is None
            || rows[i].trace.workspace_id is None || rows[i].trace.user_id is None
            || rows[i].trace.assignment_epoch is None || rows[i].trace.resource_uid is None) {
        let i = choose|i: int|
            0 <= i < rows.len() && (#[trigger] rows[i]).trace.enabled == Some(true)
                && rows[i].sandbox_id is Some && (rows[i].trace.source is None
                || rows[i].trace.workspace_id is None || rows[i].trace.user_id is None
                || rows[i].trace.assignment_epoch is None || rows[i].trace.resource_uid is None);
        assert(traced_for_unknown(rows[i]));
    }
}

/// The revision before another is one less; the first has none before it.
pub proof fn law_revision_before(revision: i64)
    ensures
        revision_before(revision) is None <==> revision == i64::MIN,
        revision > i64::MIN ==> revision_before(revision) is Some && revision_before(revision)->0
            + 1 == revision && revision_before_saturating(revision) + 1 == revision,
        revision_before_saturating(i64::MIN) == i64::MIN,
{
}

/// A stored revoke is answered from its record, with what is still left to drain of
/// the recorded revision, whatever the consent is by then; with another hash it
/// conflicts.
pub proof fn law_revoke_reply_conditions(
    reply: Result<RevokeReply, SessionStoreError>,
    inserted: bool,
    request: MetadataTraceConsentRequestRow,
    current: Option<MetadataTraceConsent>,
    rows: Seq<TracedAssignmentRow>,
    actor: MetadataTraceActor,
    hash: Seq<char>,
)
    requires
        revoke_replied(reply, inserted, request, current, rows, actor, hash),
    ensures
        request.request_hash@ != hash ==> reply == Err::<RevokeReply, SessionStoreError>(
            SessionStoreError::MetadataTraceIdempotencyConflict,
        ),
        request.request_hash@ == hash && !inserted && reply is Ok ==> {
            &&& reply matches Ok(RevokeReply::Replayed { consent, targets })
            &&& Some(consent.enabled) == request.result_enabled
            &&& consent.expires_at == request.result_expires_at
            &&& Some(consent.revision) == request.result_revision
            &&& Some(consent.drain_pending) == request.result_drain_pending
            &&& request.drain_assignment_revision is None ==> targets@.len() == 0
            &&& request.drain_assignment_revision is Some ==> drain_targets(
                rows,
                actor,
                request.drain_assignment_revision->0,
            ) == Ok::<Seq<MetadataTraceDrainTarget>, SessionStoreError>(targets@)
        },
        request.request_hash@ == hash && inserted && reply is Ok ==> {
            &&& reply matches Ok(RevokeReply::Applied { revoked, request: recorded })
            &&& !revoked.consent.enabled
            &&& revoked.consent.expires_at is None
            &&& recorded.result_enabled == Some(false)
            &&& recorded.result_expires_at is None
            &&& recorded.result_revision == Some(revoked.consent.revision)
            &&& recorded.result_drain_pending == Some(revoked.consent.drain_pending)
            &&& recorded.request_hash == request.request_hash
            &&& recorded.drain_assignment_revision == revoked.drain_assignment_revision
        },
        request.request_hash@ == hash && inserted && current is Some && current->0.enabled
            && current->0.revision == i64::MAX ==> reply == Err::<RevokeReply, SessionStoreError>(
            SessionStoreError::OutOfRange,
        ),
{
}

/// A consent has elapsed exactly if it is on and its expiry is not later. What becomes
/// of it then: off, without expiry, one revision further, and with a drain exactly if
/// a sandbox is traced for its actor at the revision that it had.
pub proof fn law_expiry_columns(
    consent: MetadataTraceConsent,
    rows: Seq<TracedAssignmentRow>,
    at: Timestamp,
)
    requires
        consent.revision < i64::MAX,
    ensures
        is_elapsed(consent, at) <==> consent.enabled && consent.expires_at is Some
            && consent.expires_at->0 <= at,
        ({
            let after = expired_consent(consent, rows);
            &&& !after.enabled
            &&& after.expires_at is None
            &&& after.revision == consent.revision + 1
            &&& after.source == consent.source
            &&& after.workspace_id == consent.workspace_id
            &&& after.user_id == consent.user_id
            &&& after.drain_pending <==> exists|i: int|
                0 <= i < rows.len() && (#[trigger] rows[i]).trace.enabled == Some(true)
                    && rows[i].sandbox_id is Some && rows[i].trace.source is Some
                    && rows[i].trace.source->0@ == consent.source@
                    && rows[i].trace.workspace_id is Some && rows[i].trace.workspace_id->0@
                    == consent.workspace_id@ && rows[i].trace.user_id is Some
                    && rows[i].trace.user_id->0@ == consent.user_id@
                    && rows[i].trace.consent_revision == Some(consent.revision)
        }),
{
    if expired_consent(consent, rows).drain_pending {
        let i = choose|i: int|
            0 <= i < rows.len() && traced_under(
                #[trigger] rows[i],
                consent,
            );
        assert(rows[i].trace.enabled == Some(true));
    }
    if exists|i: int|
        0 <= i < rows.len() && (#[trigger] rows[i]).trace.enabled == Some(true)
            && rows[i].sandbox_id is Some && rows[i].trace.source is Some
            && rows[i].trace.source->0@ == consent.source@ && rows[i].trace.workspace_id is Some
            && rows[i].trace.workspace_id->0@ == consent.workspace_id@
            && rows[i].trace.user_id is Some && rows[i].trace.user_id->0@ == consent.user_id@
            && rows[i].trace.consent_revision == Some(consent.revision) {
        let i = choose|i: int|
            0 <= i < rows.len() && (#[trigger] rows[i]).trace.enabled == Some(true)
                && rows[i].sandbox_id is Some && rows[i].trace.source is Some
                && rows[i].trace.source->0@ == consent.source@
                && rows[i].trace.workspace_id is Some && rows[i].trace.workspace_id->0@
                == consent.workspace_id@ && rows[i].trace.user_id is Some
                && rows[i].trace.user_id->0@ == consent.user_id@
                && rows[i].trace.consent_revision == Some(consent.revision);
        assert(traced_under(rows[i], consent));
    }
}

/// A sweep changes exactly the consents that are on and whose expiry is not later, and
/// each of them as it should.
pub proof fn law_sweep_takes_the_elapsed(
    consents: Seq<MetadataTraceConsent>,
    rows: Seq<TracedAssignmentRow>,
    at: Timestamp,
)
    ensures
        forall|i: int|
            0 <= i < consents.len() && (#[trigger] consents[i]).enabled
                && consents[i].expires_at is Some && consents[i].expires_at->0 <= at
                ==> expired_consents(consents, rows, at).contains(
                expired_consent(consents[i], rows),
            ),
        forall|k: int|
            0 <= k < expired_consents(consents, rows, at).len() ==> exists|i: int|
                0 <= i < consents.len() && (#[trigger] consents[i]).enabled
                    && consents[i].expires_at is Some && consents[i].expires_at->0 <= at
                    && expired_consent(consents[i], rows) == #[trigger] expired_consents(
                    consents,
                    rows,
                    at,
                )[k],
        expiry_overflows(consents, at) <==> exists|i: int|
            0 <= i < consents.len() && (#[trigger] consents[i]).enabled
                && consents[i].expires_at is Some && consents[i].expires_at->0 <= at
                && consents[i].revision == i64::MAX,
    decreases consents.len(),
{
    if expiry_overflows(consents, at) {
        let i = choose|i: int|
            0 <= i < consents.len() && is_elapsed(#[trigger] consents[i], at)
                && consents[i].revision == i64::MAX;
        assert(consents[i].enabled);
    }
    if exists|i: int|
        0 <= i < consents.len() && (#[trigger] consents[i]).enabled
            && consents[i].expires_at is Some && consents[i].expires_at->0 <= at
            && consents[i].revision == i64::MAX {
        let i = choose|i: int|
            0 <= i < consents.len() && (#[trigger] consents[i]).enabled
                && consents[i].expires_at is Some && consents[i].expires_at->0 <= at
                && consents[i].revision == i64::MAX;
        assert(is_elapsed(consents[i], at));
    }
    if consents.len() > 0 {
        let front = consents.drop_last();
        law_sweep_takes_the_elapsed(front, rows, at);
        let before = expired_consents(front, rows, at);
        let after = expired_consents(consents, rows, at);
        assert forall|i: int|
            0 <= i < consents.len() && (#[trigger] consents[i]).enabled
                && consents[i].expires_at is Some && consents[i].expires_at->0
                <= at implies after.contains(expired_consent(consents[i], rows)) by {
            if i < front.len() {
                assert(front[i] == consents[i]);
                let k = choose|k: int|
                    0 <= k < before.len() && before[k] == expired_consent(consents[i], rows);
                assert(after[k] == before[k]);
            } else {
                assert(after[after.len() - 1] == expired_consent(consents[i], rows));
            }
        }
        assert forall|k: int| 0 <= k < after.len() implies exists|i: int|
            0 <= i < consents.len() && (#[trigger] consents[i]).enabled
                && consents[i].expires_at is Some && consents[i].expires_at->0 <= at
                && expired_consent(consents[i], rows) == #[trigger] after[k] by {
            if k < before.len() {
                assert(after[k] == before[k]);
                let i = choose|i: int|
                    0 <= i < front.len() && (#[trigger] front[i]).enabled
                        && front[i].expires_at is Some && front[i].expires_at->0 <= at
                        && expired_consent(front[i], rows) == before[k];
                assert(consents[i] == front[i]);
            } else {
                assert(consents[consents.len() - 1] == consents.last());
            }
        }
    }
}

/// What is reported of a consent: off at revision zero where there is none; off from
/// the moment it expires; else as it is recorded.
pub proof fn law_reported_columns(
    row: Option<MetadataTraceConsent>,
    actor: MetadataTraceActor,
    now: Timestamp,
)
    ensures
        ({
            let told = consent_reported(row, actor, now);
            &&& row is None ==> {
                &&& !told.enabled
                &&& told.expires_at is None
                &&& told.revision == 0
                &&& !told.drain_pending
                &&& told.source == actor.source
                &&& told.workspace_id == actor.workspace_id
                &&& told.user_id == actor.user_id
            }
            &&& row is Some ==> {
                let live = row->0.enabled && row->0.expires_at is Some && row->0.expires_at->0
                    > now;
                &&& told.enabled <==> live
                &&& live ==> told.expires_at == row->0.expires_at
                &&& row->0.enabled && !live ==> told.expires_at is None
                &&& !row->0.enabled ==> told.expires_at == row->0.expires_at
                &&& told.revision == row->0.revision
                &&& told.drain_pending == row->0.drain_pending
                &&& told.source == row->0.source
                &&& told.workspace_id == row->0.workspace_id
                &&& told.user_id == row->0.user_id
            }
        }),
{
}

/// The drains that are reported are exactly those that are pending.
pub proof fn law_pending_drains(rows: Seq<MetadataTraceConsent>, row: MetadataTraceConsent)
    ensures
        pending_drains(rows).contains(row) <==> rows.contains(row) && row.drain_pending,
{
    let is_pending = |row: MetadataTraceConsent| row.drain_pending;
    if pending_drains(rows).contains(row) {
        let k = choose|k: int|
            0 <= k < pending_drains(rows).len() && pending_drains(rows)[k] == row;
        rows.lemma_filter_pred(is_pending, k);
        rows.lemma_filter_contains_rev(is_pending, row);
    }
    if rows.contains(row) && row.drain_pending {
        let i = choose|i: int| 0 <= i < rows.len() && rows[i] == row;
        assert(is_pending(rows[i]));
        rows.lemma_filter_contains(is_pending, i);
    }
}

// ---------------------------------------------------------------------------
// Drains
// ---------------------------------------------------------------------------

/// What a row must be to be drained for an actor at a revision, and all that it must
/// be; and what its target names.
pub proof fn law_drain_target_columns(
    row: TracedAssignmentRow,
    actor: MetadataTraceActor,
    revision: i64,
    thread_key: ThreadKey,
)
    ensures
        is_drain_target(row, actor, revision) <==> {
            &&& row.trace.enabled == Some(true)
            &&& row.sandbox_id is Some
            &&& row.trace.source is Some && row.trace.source->0@ == actor.source@
            &&& row.trace.workspace_id is Some && row.trace.workspace_id->0@
                == actor.workspace_id@
            &&& row.trace.user_id is Some && row.trace.user_id->0@ == actor.user_id@
            &&& row.trace.consent_revision == Some(revision)
            &&& row.trace.assignment_epoch is Some
            &&& row.trace.resource_uid is Some
        },
        is_drain_target(row, actor, revision) ==> {
            let target = drain_target_of(row, thread_key);
            &&& target.thread_key == thread_key
            &&& Some(target.sandbox_id) == row.sandbox_id
            &&& Some(target.assignment_epoch) == row.trace.assignment_epoch
            &&& target.revision == revision
            &&& Some(target.resource_uid) == row.trace.resource_uid
        },
{
}

/// A drain stays open while a traced sandbox is there for the actor, at whatever
/// revision, or for an actor that is not known; and is done when there is none.
pub proof fn law_drain_end_conditions(
    rows: Seq<TracedAssignmentRow>,
    actor: MetadataTraceActor,
    i: int,
)
    requires
        0 <= i < rows.len(),
    ensures
        keeps_drain_open(rows[i], actor) <==> {
            &&& rows[i].trace.enabled == Some(true)
            &&& rows[i].sandbox_id is Some
            &&& {
                ||| rows[i].trace.source is None
                ||| rows[i].trace.workspace_id is None
                ||| rows[i].trace.user_id is None
                ||| rows[i].trace.assignment_epoch is None
                ||| rows[i].trace.resource_uid is None
                ||| rows[i].trace.source->0@ == actor.source@ && rows[i].trace.workspace_id->0@
                    == actor.workspace_id@ && rows[i].trace.user_id->0@ == actor.user_id@
            }
        },
        drain_is_empty(rows, actor) ==> !keeps_drain_open(rows[i], actor),
        !drain_is_empty(rows, actor) ==> exists|j: int|
            0 <= j < rows.len() && keeps_drain_open(#[trigger] rows[j], actor),
{
}

/// A drain is current for a revision exactly if the consent is off at that very
/// revision and still draining.
pub proof fn law_current_drain_conditions(current: Option<MetadataTraceConsent>, revision: i64)
    ensures
        drain_is_current(current, revision) <==> {
            &&& current is Some
            &&& current->0.revision == revision
            &&& !current->0.enabled
            &&& current->0.drain_pending
        },
{
}

/// The drain flag that a revoke leaves: set if it was, if there is a target, or if
/// some traced sandbox belongs to nobody known; no other column changes.
pub proof fn law_drain_flag(
    consent: MetadataTraceConsent,
    targets: Seq<MetadataTraceDrainTarget>,
    rows: Seq<TracedAssignmentRow>,
)
    ensures
        ({
            let after = with_drain(consent, targets, rows);
            &&& consent.drain_pending || targets.len() > 0 ==> after.drain_pending
            &&& (exists|i: int|
                0 <= i < rows.len() && (#[trigger] rows[i]).trace.enabled == Some(true)
                    && rows[i].sandbox_id is Some && (rows[i].trace.source is None
                    || rows[i].trace.workspace_id is None || rows[i].trace.user_id is None
                    || rows[i].trace.assignment_epoch is None
                    || rows[i].trace.resource_uid is None)) ==> after.drain_pending
            &&& after == (MetadataTraceConsent { drain_pending: after.drain_pending, ..consent })
        }),
{
    law_unknown_assignments(rows);
}

// ---------------------------------------------------------------------------
// Actors
// ---------------------------------------------------------------------------

/// The actor of an assignment is known exactly if all five columns are there, and is
/// what they say; it is told only for the sandbox asked for, and only while traced.
pub proof fn law_actor_columns(
    sandbox_id: Option<String>,
    trace: TraceColumns,
    asked: Seq<char>,
    actor: MetadataTraceAssignmentActor,
)
    ensures
        recorded_actor(trace) == Some(actor) <==> {
            &&& trace.source == Some(actor.source)
            &&& trace.workspace_id == Some(actor.workspace_id)
            &&& trace.user_id == Some(actor.user_id)
            &&& trace.assignment_epoch == Some(actor.assignment_epoch)
            &&& trace.resource_uid == Some(actor.resource_uid)
        },
        assignment_actor(sandbox_id, trace, asked) == Some(actor) <==> {
            &&& sandbox_id is Some && sandbox_id->0@ == asked
            &&& trace.enabled == Some(true)
            &&& trace.source == Some(actor.source)
            &&& trace.workspace_id == Some(actor.workspace_id)
            &&& trace.user_id == Some(actor.user_id)
            &&& trace.assignment_epoch == Some(actor.assignment_epoch)
            &&& trace.resource_uid == Some(actor.resource_uid)
        },
{
}

/// A consent is an actor's exactly if it is there and names the same source, workspace
/// and user.
pub proof fn law_consent_owner_conditions(
    consent: Option<MetadataTraceConsent>,
    actor: MetadataTraceAssignmentActor,
    named: MetadataTraceActor,
    enabled: bool,
    expires_at: Option<Timestamp>,
    revision: i64,
    drain_pending: bool,
)
    ensures
        consent_belongs(consent, actor) <==> {
            &&& consent is Some
            &&& consent->0.source@ == actor.source@
            &&& consent->0.workspace_id@ == actor.workspace_id@
            &&& consent->0.user_id@ == actor.user_id@
        },
        ({
            let made = consent_of(named, enabled, expires_at, revision, drain_pending);
            &&& made.source == named.source
            &&& made.workspace_id == named.workspace_id
            &&& made.user_id == named.user_id
            &&& made.enabled == enabled
            &&& made.expires_at == expires_at
            &&& made.revision == revision
            &&& made.drain_pending == drain_pending
        }),
{
}

/// A session holds trace state exactly if it is traced, or keeps a generation, an
/// epoch or a resource of a trace.
pub proof fn law_trace_state_columns(trace: TraceColumns)
    ensures
        holds_trace_state(trace) <==> {
            ||| trace.enabled == Some(true)
            ||| trace.config_generation is Some
            ||| trace.assignment_epoch is Some
            ||| trace.resource_uid is Some
        },
{
}

// ---------------------------------------------------------------------------
// Configuration
// ---------------------------------------------------------------------------

/// A configuration is the active one exactly if both generation and fingerprint are
/// its own.
pub proof fn law_active_config_conditions(
    row: MetadataTraceConfigStateRow,
    identity: MetadataTraceConfigIdentity,
    lease: MetadataTraceReconcilerLease,
    owner: Seq<char>,
    now: Timestamp,
)
    ensures
        row.is_active(identity) <==> row.generation == identity.generation
            && row.config_fingerprint@ == identity.fingerprint@,
        row.lease_available(owner, now) <==> {
            ||| row.reconciler_lease_expires_at is None
            ||| row.reconciler_lease_expires_at->0 <= now
            ||| row.reconciler_owner_id is Some && row.reconciler_owner_id->0@ == owner
        },
        row.lease_active(identity, lease, now) <==> {
            &&& row.generation == identity.generation
            &&& row.config_fingerprint@ == identity.fingerprint@
            &&& row.reconciler_owner_id is Some && row.reconciler_owner_id->0@ == lease.owner_id@
            &&& row.reconciler_fence == lease.fence
            &&& row.reconciler_lease_expires_at is Some && row.reconciler_lease_expires_at->0
                > now
        },
{
}

/// What a new generation and a new lease write. A new generation takes the lease away
/// and both move the fence by one.
pub proof fn law_config_columns(
    row: MetadataTraceConfigStateRow,
    identity: MetadataTraceConfigIdentity,
    owner: String,
    until: Timestamp,
    now: Timestamp,
)
    requires
        row.reconciler_fence < i64::MAX,
    ensures
        ({
            let after = row.advanced(identity, now);
            &&& after.generation == identity.generation
            &&& after.config_fingerprint == identity.fingerprint
            &&& after.reconciler_owner_id is None
            &&& after.reconciler_lease_expires_at is None
            &&& after.reconciler_fence == row.reconciler_fence + 1
            &&& after.activated_at == now
            &&& after.updated_at == now
        }),
        ({
            let after = row.leased(owner, until, now);
            &&& after.generation == row.generation
            &&& after.config_fingerprint == row.config_fingerprint
            &&& after.reconciler_owner_id == Some(owner)
            &&& after.reconciler_lease_expires_at == Some(until)
            &&& after.reconciler_fence == row.reconciler_fence + 1
            &&& after.activated_at == row.activated_at
            &&& after.updated_at == now
        }),
{
}

/// The configuration lets a boundary write exactly if there is one and both its
/// generation and its fingerprint are the boundary's; it cannot say where the boundary
/// leaves one of the two open and the other is not refuted.
pub proof fn law_boundary_config_conditions(
    config: Option<MetadataTraceConfigStateRow>,
    generation: Option<i64>,
    fingerprint: Option<String>,
)
    ensures
        boundary_config(config, generation, fingerprint) == Truth::True <==> {
            &&& config is Some
            &&& generation == Some(config->0.generation)
            &&& fingerprint is Some && fingerprint->0@ == config->0.config_fingerprint@
        },
        boundary_config(config, generation, fingerprint) == Truth::False <==> {
            ||| config is None
            ||| generation is Some && generation->0 != config->0.generation
            ||| fingerprint is Some && fingerprint->0@ != config->0.config_fingerprint@
        },
{
}

/// Targets are found row by row, in the order of the rows: a row adds its target exactly
/// if it is to be drained, and the first such row whose key cannot be read refuses all.
pub proof fn law_targets_row_by_row(
    rows: Seq<TracedAssignmentRow>,
    row: TracedAssignmentRow,
    actor: MetadataTraceActor,
    revision: i64,
)
    ensures
        ({
            let before = drain_targets(rows, actor, revision);
            let after = drain_targets(rows.push(row), actor, revision);
            let wanted = row.trace.enabled == Some(true) && row.sandbox_id is Some
                && row.trace.source is Some && row.trace.source->0@ == actor.source@
                && row.trace.workspace_id is Some && row.trace.workspace_id->0@
                == actor.workspace_id@ && row.trace.user_id is Some && row.trace.user_id->0@
                == actor.user_id@ && row.trace.consent_revision == Some(revision)
                && row.trace.assignment_epoch is Some && row.trace.resource_uid is Some;
            &&& drain_targets(Seq::empty(), actor, revision) == Ok::<
                Seq<MetadataTraceDrainTarget>,
                SessionStoreError,
            >(Seq::empty())
            &&& before is Err ==> after == before
            &&& before is Ok && !wanted ==> after == before
            &&& before is Ok && wanted && row.thread_key is Err ==> after == Err::<
                Seq<MetadataTraceDrainTarget>,
                SessionStoreError,
            >(SessionStoreError::InvalidPersistedValue(row.thread_key->Err_0))
            &&& before is Ok && wanted && row.thread_key is Ok ==> after == Ok::<
                Seq<MetadataTraceDrainTarget>,
                SessionStoreError,
            >(
                before->Ok_0.push(
                    MetadataTraceDrainTarget {
                        thread_key: row.thread_key->Ok_0,
                        sandbox_id: row.sandbox_id->0,
                        assignment_epoch: row.trace.assignment_epoch->0,
                        revision,
                        resource_uid: row.trace.resource_uid->0,
                    },
                ),
            )
        }),
{
    assert(rows.push(row).drop_last() =~= rows);
}

/// A sweep goes through the consents in their order.
pub proof fn law_sweep_consent_by_consent(
    consents: Seq<MetadataTraceConsent>,
    consent: MetadataTraceConsent,
    rows: Seq<TracedAssignmentRow>,
    at: Timestamp,
)
    ensures
        expired_consents(Seq::empty(), rows, at).len() == 0,
        consent.enabled && consent.expires_at is Some && consent.expires_at->0 <= at
            ==> expired_consents(consents.push(consent), rows, at) == expired_consents(
            consents,
            rows,
            at,
        ).push(expired_consent(consent, rows)),
        !(consent.enabled && consent.expires_at is Some && consent.expires_at->0 <= at)
            ==> expired_consents(consents.push(consent), rows, at) == expired_consents(
            consents,
            rows,
            at,
        ),
{
    assert(consents.push(consent).drop_last() =~= consents);
}

/// When a revoke is refused: a stored one without a whole record is incomplete; a new one
/// is refused only where the revision cannot be counted further, or where the key of a
/// row to be drained cannot be read.
pub proof fn law_revoke_refusals(
    reply: Result<RevokeReply, SessionStoreError>,
    inserted: bool,
    request: MetadataTraceConsentRequestRow,
    current: Option<MetadataTraceConsent>,
    rows: Seq<TracedAssignmentRow>,
    actor: MetadataTraceActor,
    hash: Seq<char>,
)
    requires
        revoke_replied(reply, inserted, request, current, rows, actor, hash),
        request.request_hash@ == hash,
    ensures
        ({
            let whole = request.result_enabled is Some && request.result_revision is Some
                && request.result_drain_pending is Some && (request.result_enabled->0
                <==> request.result_expires_at is Some);
            let overflows = current is Some && current->0.enabled && current->0.revision
                == i64::MAX;
            let keys_read = forall|i: int|
                0 <= i < rows.len() ==> (#[trigger] rows[i]).thread_key is Ok;
            &&& !inserted && !whole ==> reply == Err::<RevokeReply, SessionStoreError>(
                SessionStoreError::MetadataTraceIdempotencyIncomplete,
            )
            &&& !inserted && whole && keys_read ==> reply is Ok
            &&& inserted && !overflows && keys_read ==> reply is Ok
        }),
{
    if forall|i: int| 0 <= i < rows.len() ==> (#[trigger] rows[i]).thread_key is Ok {
        lemma_targets_of_readable_rows(rows, actor);
    }
}

proof fn lemma_targets_of_readable_rows(rows: Seq<TracedAssignmentRow>, actor: MetadataTraceActor)
    requires
        forall|i: int| 0 <= i < rows.len() ==> (#[trigger] rows[i]).thread_key is Ok,
    ensures
        forall|revision: i64| (#[trigger] drain_targets(rows, actor, revision)) is Ok,
    decreases rows.len(),
{
    if rows.len() > 0 {
        let front = rows.drop_last();
        assert forall|i: int| 0 <= i
            < front.len() implies (#[trigger] front[i]).thread_key is Ok by {
            assert(front[i] == rows[i]);
        }
        lemma_targets_of_readable_rows(front, actor);
        assert(rows.last() == rows[rows.len() - 1]);
        assert forall|revision: i64| (#[trigger] drain_targets(rows, actor, revision)) is Ok by {
            assert(drain_targets(front, actor, revision) is Ok);
        }
    }
}

} // verus!
