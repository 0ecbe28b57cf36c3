//! What holds of consents across grants, revokes, expiries and drains.
use crate::consent::{
    consent_of, consent_reported, drain_target_of, drain_targets, is_drain_target, traced_for,
    GrantReply, MetadataTraceActor, MetadataTraceConsent, MetadataTraceConsentRequestRow,
    MetadataTraceDrainTarget, TracedAssignmentRow,
};
use crate::consent_change::{
    drain_is_current, drain_is_empty, drain_targets_at, expired_consent, grant_replied, granted,
    is_elapsed, keeps_drain_open, recorded_result, revision_before, revoke_overflows,
    revoked_consent, with_drain, with_result,
};
use crate::error::SessionStoreError;
use crate::model::Timestamp;
use vstd::prelude::*;

verus! {

/// No boundary moves a consent's revision back, and each change of whether it is
/// enabled moves it forward.
pub proof fn law_revision_never_moves_back(
    row: MetadataTraceConsent,
    actor: MetadataTraceActor,
    expires_at: Timestamp,
    expected_revision: Option<i64>,
    rows: Seq<TracedAssignmentRow>,
)
    requires
        row.revision < i64::MAX,
    ensures
        granted(Some(row), actor, expires_at, expected_revision) matches Ok(consent) ==> {
            &&& consent.revision >= row.revision
            &&& !row.enabled ==> consent.revision > row.revision
            &&& consent.revision == row.revision ==> consent == row
        },
        revoked_consent(Some(row), actor).revision >= row.revision,
        row.enabled ==> revoked_consent(Some(row), actor).revision > row.revision,
        expired_consent(row, rows).revision > row.revision,
{
}

/// Granting again what is already granted changes nothing.
pub proof fn law_repeated_grant_changes_nothing(
    row: MetadataTraceConsent,
    actor: MetadataTraceActor,
    expires_at: Timestamp,
)
    requires
        row.enabled,
        row.expires_at == Some(expires_at),
        !row.drain_pending,
    ensures
        granted(Some(row), actor, expires_at, None) == Ok::<MetadataTraceConsent, SessionStoreError>(
            row,
        ),
{
}

/// Revoking twice is revoking once.
pub proof fn law_repeated_revoke_changes_nothing(
    current: Option<MetadataTraceConsent>,
    actor: MetadataTraceActor,
)
    ensures
        revoked_consent(Some(revoked_consent(current, actor)), actor) == revoked_consent(
            current,
            actor,
        ),
{
}

/// While a drain is pending no grant is given, whatever revision is expected; a
/// revoke leaves the drain pending.
pub proof fn law_pending_drain_blocks_grants(
    row: MetadataTraceConsent,
    actor: MetadataTraceActor,
    expires_at: Timestamp,
    expected_revision: Option<i64>,
)
    requires
        row.drain_pending,
    ensures
        granted(Some(row), actor, expires_at, expected_revision) == Err::<
            MetadataTraceConsent,
            SessionStoreError,
        >(SessionStoreError::MetadataTraceDrainPending),
        revoked_consent(Some(row), actor).drain_pending,
{
}

/// A grant that expects a revision is given only at that revision, an absent row
/// being at revision zero.
pub proof fn law_grant_is_fenced_by_revision(
    current: Option<MetadataTraceConsent>,
    actor: MetadataTraceActor,
    expires_at: Timestamp,
    expected: i64,
)
    ensures
        granted(current, actor, expires_at, Some(expected)) is Ok ==> expected == match current {
            Some(row) => row.revision,
            None => 0,
        },
{
}

/// An elapsed grant is reported as off at the same revision before any sweep has
/// run, and the sweep records just that at the next revision.
pub proof fn law_elapsed_grant_is_off(
    row: MetadataTraceConsent,
    actor: MetadataTraceActor,
    rows: Seq<TracedAssignmentRow>,
    at: Timestamp,
)
    requires
        is_elapsed(row, at),
        row.revision < i64::MAX,
    ensures
        !consent_reported(Some(row), actor, at).enabled,
        consent_reported(Some(row), actor, at).expires_at is None,
        consent_reported(Some(row), actor, at).revision == row.revision,
        expired_consent(row, rows) == (MetadataTraceConsent {
            revision: (row.revision + 1) as i64,
            drain_pending: expired_consent(row, rows).drain_pending,
            ..consent_reported(Some(row), actor, at)
        }),
{
}

/// The answer that a grant recorded is the answer that a repetition gets, as long
/// as the consent is still the granted one and has time left.
pub proof fn law_grant_replay_gives_the_recorded_answer(
    request: MetadataTraceConsentRequestRow,
    current: Option<MetadataTraceConsent>,
    actor: MetadataTraceActor,
    expires_at: Timestamp,
    expected_revision: Option<i64>,
    later_expires_at: Timestamp,
    later_expected: Option<i64>,
    hash: Seq<char>,
    at: Timestamp,
    later: Timestamp,
)
    requires
        grant_replied(
            true,
            request,
            current,
            actor,
            expires_at,
            expected_revision,
            hash,
            at,
        ) is Ok,
        later < expires_at,
    ensures
        ({
            let first = grant_replied(
                true,
                request,
                current,
                actor,
                expires_at,
                expected_revision,
                hash,
                at,
            );
            &&& first matches Ok(GrantReply::Applied { consent, request: recorded })
            &&& grant_replied(
                false,
                recorded,
                Some(consent),
                actor,
                later_expires_at,
                later_expected,
                hash,
                later,
            ) matches Ok(GrantReply::Replayed(again))
            &&& again.enabled == consent.enabled
            &&& again.expires_at == consent.expires_at
            &&& again.revision == consent.revision
            &&& again.drain_pending == consent.drain_pending
        }),
{
}

/// Once the consent has crossed another boundary, or has run out of time, the
/// recorded answer of a grant is not given again.
pub proof fn law_grant_replay_is_fenced_by_later_boundaries(
    recorded: MetadataTraceConsentRequestRow,
    request: MetadataTraceConsentRequestRow,
    consent: MetadataTraceConsent,
    current: Option<MetadataTraceConsent>,
    actor: MetadataTraceActor,
    expires_at: Timestamp,
    expected_revision: Option<i64>,
    hash: Seq<char>,
    later: Timestamp,
)
    requires
        consent.enabled,
        consent.expires_at is Some,
        recorded == with_result(request, consent, None),
        recorded.request_hash@ == hash,
        current matches Some(row) ==> row.revision != consent.revision || row.drain_pending
            != consent.drain_pending || consent.expires_at->0 <= later,
    ensures
        grant_replied(
            false,
            recorded,
            current,
            actor,
            expires_at,
            expected_revision,
            hash,
            later,
        ) == Err::<GrantReply, SessionStoreError>(
            SessionStoreError::MetadataTraceIdempotencyReplayFenced,
        ),
{
}

/// Every listed target is one of the rows to be drained, and every row to be
/// drained is listed.
pub proof fn law_targets_are_exactly_the_rows_to_drain(
    rows: Seq<TracedAssignmentRow>,
    actor: MetadataTraceActor,
    revision: i64,
)
    ensures
        drain_targets(rows, actor, revision) matches Ok(targets) ==> {
            &&& forall|i: int|
                0 <= i < rows.len() && is_drain_target(#[trigger] rows[i], actor, revision) ==> {
                    &&& rows[i].thread_key is Ok
                    &&& targets.contains(drain_target_of(rows[i], rows[i].thread_key->Ok_0))
                }
            &&& forall|t: MetadataTraceDrainTarget| #[trigger]
                targets.contains(t) ==> exists|i: int|
                    0 <= i < rows.len() && is_drain_target(#[trigger] rows[i], actor, revision)
                        && rows[i].thread_key is Ok && t == drain_target_of(
                        rows[i],
                        rows[i].thread_key->Ok_0,
                    )
        },
        (exists|i: int|
            0 <= i < rows.len() && is_drain_target(#[trigger] rows[i], actor, revision)
                && rows[i].thread_key is Err) ==> drain_targets(rows, actor, revision) is Err,
    decreases rows.len(),
{
    if rows.len() > 0 {
        let front = rows.drop_last();
        law_targets_are_exactly_the_rows_to_drain(front, actor, revision);
        assert forall|i: int| 0 <= i < front.len() implies #[trigger] rows[i] == front[i] by {}
        if let Ok(targets) = drain_targets(rows, actor, revision) {
            let before = drain_targets(front, actor, revision)->Ok_0;
            let last = rows.last();
            if is_drain_target(last, actor, revision) {
                let t = drain_target_of(last, last.thread_key->Ok_0);
                assert(targets == before.push(t));
                assert(targets[targets.len() - 1] == t);
                assert forall|u: MetadataTraceDrainTarget| before.contains(u) implies #[trigger]
                    targets.contains(u) by {
                    let k = choose|k: int| 0 <= k < before.len() && before[k] == u;
                    assert(targets[k] == u);
                }
            }
            assert forall|i: int|
                0 <= i < rows.len() && is_drain_target(#[trigger] rows[i], actor, revision) implies {
                &&& rows[i].thread_key is Ok
                &&& targets.contains(drain_target_of(rows[i], rows[i].thread_key->Ok_0))
            } by {
                if i < front.len() {
                    assert(front[i] == rows[i]);
                    assert(before.contains(drain_target_of(front[i], front[i].thread_key->Ok_0)));
                }
            }
            assert forall|t: MetadataTraceDrainTarget| #[trigger] targets.contains(t) implies exists|
                i: int,
            |
                0 <= i < rows.len() && is_drain_target(#[trigger] rows[i], actor, revision)
                    && rows[i].thread_key is Ok && t == drain_target_of(
                    rows[i],
                    rows[i].thread_key->Ok_0,
                ) by {
                let k = choose|k: int| 0 <= k < targets.len() && targets[k] == t;
                if k < before.len() {
                    assert(before[k] == t);
                    assert(before.contains(t));
                    let i = choose|i: int|
                        0 <= i < front.len() && is_drain_target(#[trigger] front[i], actor, revision)
                            && front[i].thread_key is Ok && t == drain_target_of(
                            front[i],
                            front[i].thread_key->Ok_0,
                        );
                    assert(rows[i] == front[i]);
                } else {
                    assert(rows[rows.len() - 1] == last);
                }
            }
        }
        if exists|i: int|
            0 <= i < rows.len() && is_drain_target(#[trigger] rows[i], actor, revision)
                && rows[i].thread_key is Err {
            let i = choose|i: int|
                0 <= i < rows.len() && is_drain_target(#[trigger] rows[i], actor, revision)
                    && rows[i].thread_key is Err;
            if i < front.len() {
                assert(front[i] == rows[i]);
            }
        }
    }
}

/// A revoke of an enabled consent drains exactly the sandboxes that carry the
/// revision of the grant that it ends.
pub proof fn law_revoke_drains_the_granted_revision(
    row: MetadataTraceConsent,
    rows: Seq<TracedAssignmentRow>,
    actor: MetadataTraceActor,
)
    requires
        row.enabled,
        i64::MIN < row.revision < i64::MAX,
    ensures
        revision_before(revoked_consent(Some(row), actor).revision) == Some(row.revision),
        drain_targets_at(
            rows,
            actor,
            revision_before(revoked_consent(Some(row), actor).revision),
        ) == drain_targets(rows, actor, row.revision),
{
}

/// If a sandbox of the actor is still traced under the revoked grant, the revoke
/// leaves the drain pending, and no grant is given until it is over.
pub proof fn law_traced_sandbox_blocks_grants_after_revoke(
    row: MetadataTraceConsent,
    rows: Seq<TracedAssignmentRow>,
    actor: MetadataTraceActor,
    targets: Seq<MetadataTraceDrainTarget>,
    i: int,
    expires_at: Timestamp,
    expected_revision: Option<i64>,
)
    requires
        row.enabled,
        i64::MIN < row.revision < i64::MAX,
        0 <= i < rows.len(),
        traced_for(rows[i], actor),
        rows[i].trace.consent_revision == Some(row.revision),
        drain_targets(rows, actor, row.revision) == Ok::<
            Seq<MetadataTraceDrainTarget>,
            SessionStoreError,
        >(targets),
    ensures
        ({
            let after = with_drain(revoked_consent(Some(row), actor), targets, rows);
            &&& after.drain_pending
            &&& granted(Some(after), actor, expires_at, expected_revision) == Err::<
                MetadataTraceConsent,
                SessionStoreError,
            >(SessionStoreError::MetadataTraceDrainPending)
            &&& drain_is_current(Some(after), after.revision)
            &&& !drain_is_empty(rows, actor)
        }),
{
    law_targets_are_exactly_the_rows_to_drain(rows, actor, row.revision);
    assert(keeps_drain_open(rows[i], actor));
    if is_drain_target(rows[i], actor, row.revision) {
        assert(targets.contains(drain_target_of(rows[i], rows[i].thread_key->Ok_0)));
    } else {
        assert(crate::consent::traced_for_unknown(rows[i]));
    }
}

/// What a revoke recorded is what a repetition reads, whatever was granted or
/// drained in between.
pub proof fn law_revoke_replay_reads_the_recorded_answer(
    request: MetadataTraceConsentRequestRow,
    current: Option<MetadataTraceConsent>,
    actor: MetadataTraceActor,
    targets: Seq<MetadataTraceDrainTarget>,
    rows: Seq<TracedAssignmentRow>,
    revision: Option<i64>,
)
    ensures
        ({
            let consent = with_drain(revoked_consent(current, actor), targets, rows);
            let recorded = with_result(request, consent, revision);
            &&& recorded.drain_assignment_revision == revision
            &&& recorded_result(actor, recorded) == Ok::<MetadataTraceConsent, SessionStoreError>(
                consent_of(actor, false, None, consent.revision, consent.drain_pending),
            )
        }),
{
}

/// A repeated revoke never targets a sandbox of a later grant: such a sandbox
/// carries a revision beyond the one that was recorded for the drain.
pub proof fn law_revoke_replay_never_targets_a_later_grant(
    current: Option<MetadataTraceConsent>,
    completed: MetadataTraceConsent,
    actor: MetadataTraceActor,
    expires_at: Timestamp,
    expected_revision: Option<i64>,
    row: TracedAssignmentRow,
)
    requires
        !revoke_overflows(current),
        completed.revision >= revoked_consent(current, actor).revision,
        granted(Some(completed), actor, expires_at, expected_revision) is Ok,
        row.trace.consent_revision == Some(
            granted(Some(completed), actor, expires_at, expected_revision)->Ok_0.revision,
        ),
    ensures
        revision_before(revoked_consent(current, actor).revision) matches Some(drained)
            ==> !is_drain_target(row, actor, drained),
{
}

/// A reconciler that still remembers an earlier disabled revision can neither
/// find targets nor end a drain once a later grant was given.
pub proof fn law_stale_drain_cannot_touch_a_later_grant(
    completed: MetadataTraceConsent,
    actor: MetadataTraceActor,
    expires_at: Timestamp,
    expected_revision: Option<i64>,
    remembered: i64,
)
    ensures
        granted(Some(completed), actor, expires_at, expected_revision) matches Ok(consent)
            ==> !drain_is_current(Some(consent), remembered),
{
}

/// A drain ends only for the revision it was started for: after another revoke the
/// earlier revision is no longer the current one.
pub proof fn law_drain_belongs_to_one_revision(
    current: Option<MetadataTraceConsent>,
    a: i64,
    b: i64,
)
    requires
        drain_is_current(current, a),
        drain_is_current(current, b),
    ensures
        a == b,
{
}

} // verus!
