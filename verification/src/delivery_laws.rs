//! What holds of deliveries across claims, flushes and failures.
use crate::claim::{comes_before, delivery_taken, eligible, oldest_eligible, ClaimCandidate};
use crate::consent::{consent_belongs, recorded_actor};
use crate::delivery::{
    failed, flushed, held, law_state_names_are_distinct, lease_live, owed_to, prepared_as,
    recoverable, released, row_matches_prepared, unresolved, InputDeliveryState, NewInputDelivery,
    PreparedInputDelivery,
};
use crate::execution::delivery_renewed;
use crate::flush::{
    assignment_matches, flush_begun, flush_consent, flush_may_begin, trace_matches, FlushRequest,
    FlushRows, FlushStart, InputDeliveryFlushGuard, FLUSH_WINDOW,
};
use crate::json::json_text_list;
use crate::model::{Clock, SandboxCapabilities, Timestamp};
use crate::rows::SessionInputDeliveryRow;
use crate::text::{holds, texts};
use vstd::prelude::*;

verus! {

/// What a delivery is to deliver, and where it stands in its execution.
pub open spec fn same_payload(a: SessionInputDeliveryRow, b: SessionInputDeliveryRow) -> bool {
    &&& a.delivery_id == b.delivery_id
    &&& a.thread_key == b.thread_key
    &&& a.execution_id == b.execution_id
    &&& a.sequence == b.sequence
    &&& a.idempotency_key == b.idempotency_key
    &&& a.message_ids == b.message_ids
    &&& a.input_sha256 == b.input_sha256
    &&& a.input_line_count == b.input_line_count
}

/// A row is the one inserted for a new delivery: pending, in nobody's hands.
pub open spec fn inserted_as(row: SessionInputDeliveryRow, new: NewInputDelivery) -> bool {
    &&& row.delivery_id == new.delivery_id
    &&& row.execution_id == new.execution_id
    &&& row.sequence == new.sequence
    &&& row.idempotency_key == new.idempotency_key
    &&& json_text_list(row.message_ids) == Some(texts(new.message_ids@))
    &&& json_text_list(row.input_lines) == Some(texts(new.input_lines@))
    &&& row.input_sha256 == new.input_sha256
    &&& row.input_line_count == new.input_line_count
    &&& row.boundary_fingerprint == new.boundary_fingerprint
    &&& row.state@ == InputDeliveryState::Pending.name()
    &&& row.owner_id is None
    &&& row.owner_lease_expires_at is None
}

/// Exactly the first three states are unresolved.
pub proof fn law_unresolved_states(state: InputDeliveryState)
    ensures
        unresolved(state.name()) == state.is_unresolved(),
{
    law_state_names_are_distinct(state, InputDeliveryState::Pending);
    law_state_names_are_distinct(state, InputDeliveryState::Claimed);
    law_state_names_are_distinct(state, InputDeliveryState::Ambiguous);
}

/// A stored delivery carries exactly the payload it was prepared from, so that a
/// repetition of the request finds it.
pub proof fn law_stored_delivery_matches_its_payload(
    row: SessionInputDeliveryRow,
    new: NewInputDelivery,
    delivery_id: String,
    thread_key: String,
    execution_id: String,
    sequence: i64,
    prepared: PreparedInputDelivery,
)
    requires
        prepared_as(new, delivery_id, thread_key, execution_id, sequence, prepared),
        inserted_as(row, new),
    ensures
        row_matches_prepared(row, prepared),
        owed_to(row, execution_id@),
{
}

/// While a delivery is unresolved it matches one payload only: the same message
/// ids, the same lines and the same boundary, text by text.
pub proof fn law_unresolved_delivery_matches_one_payload(
    row: SessionInputDeliveryRow,
    a: PreparedInputDelivery,
    b: PreparedInputDelivery,
)
    requires
        unresolved(row.state@),
        row_matches_prepared(row, a),
        row_matches_prepared(row, b),
    ensures
        texts(a.message_ids@) == texts(b.message_ids@),
        texts(a.input_lines@) == texts(b.input_lines@),
        a.boundary_fingerprint@ == b.boundary_fingerprint@,
{
}

/// A delivery that is over has no lines any more, keeps their fingerprint and
/// count, and still matches the payload that it was prepared from.
pub proof fn law_finished_delivery_is_scrubbed_and_still_matches(
    before: SessionInputDeliveryRow,
    after: SessionInputDeliveryRow,
    prepared: PreparedInputDelivery,
    words: Seq<char>,
    clock: Clock,
)
    requires
        flushed(before, after, clock) || failed(before, after, words, clock),
        row_matches_prepared(before, prepared),
        unresolved(before.state@),
    ensures
        json_text_list(after.input_lines) == Some(Seq::<Seq<char>>::empty()),
        same_payload(before, after),
        row_matches_prepared(after, prepared),
{
    law_unresolved_states(InputDeliveryState::Flushed);
    law_unresolved_states(InputDeliveryState::Failed);
    assert(json_text_list(after.input_lines)->0 =~= Seq::<Seq<char>>::empty());
}

/// A delivery that is over is owed to nobody, can be claimed by nobody and held by
/// nobody, at any time.
pub proof fn law_finished_delivery_is_final(
    before: SessionInputDeliveryRow,
    after: SessionInputDeliveryRow,
    words: Seq<char>,
    clock: Clock,
    owner: Seq<char>,
    generation: i64,
    execution_id: Seq<char>,
    at: Timestamp,
)
    requires
        flushed(before, after, clock) || failed(before, after, words, clock),
    ensures
        !owed_to(after, execution_id),
        !recoverable(after, at),
        !held(after, owner, generation, at),
{
    law_unresolved_states(InputDeliveryState::Flushed);
    law_unresolved_states(InputDeliveryState::Failed);
    law_state_names_are_distinct(InputDeliveryState::Flushed, InputDeliveryState::Claimed);
    law_state_names_are_distinct(InputDeliveryState::Failed, InputDeliveryState::Claimed);
}

/// A claim moves generation and attempts forward and keeps the payload: what an
/// ambiguous delivery replays is exactly what was stored.
pub proof fn law_claim_keeps_the_payload(
    before: SessionInputDeliveryRow,
    after: SessionInputDeliveryRow,
    owner: String,
    until: Timestamp,
    clock: Clock,
    prepared: PreparedInputDelivery,
)
    requires
        delivery_taken(before, after, owner, until, clock),
        before.owner_generation < i64::MAX,
        before.attempts < i32::MAX,
        unresolved(before.state@),
    ensures
        after.owner_generation == before.owner_generation + 1,
        after.attempts == before.attempts + 1,
        same_payload(before, after),
        after.input_lines == before.input_lines,
        after.boundary_fingerprint == before.boundary_fingerprint,
        row_matches_prepared(before, prepared) <==> row_matches_prepared(after, prepared),
{
}

/// A claim gives the delivery to its owner until the lease runs out, under the new
/// generation only: no earlier generation holds it, whoever asks and whenever.
pub proof fn law_claim_fences_earlier_generations(
    before: SessionInputDeliveryRow,
    after: SessionInputDeliveryRow,
    owner: String,
    until: Timestamp,
    clock: Clock,
    other: Seq<char>,
    generation: i64,
    at: Timestamp,
)
    requires
        delivery_taken(before, after, owner, until, clock),
        before.owner_generation < i64::MAX,
    ensures
        at < until ==> held(after, owner@, after.owner_generation, at),
        generation <= before.owner_generation ==> !held(after, other, generation, at),
        other != owner@ ==> !held(after, other, generation, at),
        at >= until ==> !held(after, other, generation, at),
{
}

/// Nobody holds a delivery whose lease has run out, and it stays so.
pub proof fn law_expired_lease_holds_nothing(
    row: SessionInputDeliveryRow,
    owner: Seq<char>,
    generation: i64,
    at: Timestamp,
    later: Timestamp,
)
    requires
        !lease_live(row, at),
        at <= later,
    ensures
        !held(row, owner, generation, later),
{
}

/// A delivery that is held cannot be claimed; once the lease has run out it can.
pub proof fn law_held_delivery_cannot_be_claimed(
    row: SessionInputDeliveryRow,
    owner: Seq<char>,
    generation: i64,
    at: Timestamp,
    later: Timestamp,
)
    requires
        held(row, owner, generation, at),
    ensures
        !recoverable(row, at),
        row.owner_lease_expires_at->0 <= later ==> recoverable(row, later),
{
    law_state_names_are_distinct(InputDeliveryState::Claimed, InputDeliveryState::Pending);
    law_state_names_are_distinct(InputDeliveryState::Claimed, InputDeliveryState::Ambiguous);
}

/// A delivery that was given up is still owed, with its whole payload, can be
/// claimed at once, and is held by nobody.
pub proof fn law_released_delivery_can_be_claimed(
    before: SessionInputDeliveryRow,
    after: SessionInputDeliveryRow,
    words: Seq<char>,
    now: Timestamp,
    owner: Seq<char>,
    generation: i64,
    at: Timestamp,
)
    requires
        released(before, after, words, now),
    ensures
        owed_to(after, before.execution_id@),
        recoverable(after, at),
        same_payload(before, after),
        after.input_lines == before.input_lines,
        after.owner_generation == before.owner_generation,
        !held(after, owner, generation, at),
{
}

/// Renewing a lease changes neither payload nor generation, and never revives a
/// lease that has run out.
pub proof fn law_renewal_keeps_the_claim(
    row: SessionInputDeliveryRow,
    execution_id: Seq<char>,
    owner: Seq<char>,
    until: Timestamp,
    clock: Clock,
)
    ensures
        ({
            let after = delivery_renewed(row, execution_id, owner, until, clock);
            &&& same_payload(row, after)
            &&& after.input_lines == row.input_lines
            &&& after.state == row.state
            &&& after.owner_id == row.owner_id
            &&& after.owner_generation == row.owner_generation
            &&& !lease_live(row, clock.wall) ==> after == row
        }),
{
}

/// Deliveries of one execution are claimed in their sequence: of two that may be
/// claimed at the same time, neither comes before the other.
pub proof fn law_deliveries_are_claimed_in_order(
    a: ClaimCandidate,
    b: ClaimCandidate,
    deliveries: Seq<SessionInputDeliveryRow>,
    i: int,
    j: int,
    owner_a: Seq<char>,
    owner_b: Seq<char>,
    at: Timestamp,
)
    requires
        0 <= i < deliveries.len(),
        0 <= j < deliveries.len(),
        a.delivery == deliveries[i],
        b.delivery == deliveries[j],
        a.delivery.execution_id@ == b.delivery.execution_id@,
        eligible(a, deliveries, owner_a, None, None, at),
        eligible(b, deliveries, owner_b, None, None, at),
    ensures
        a.delivery.sequence == b.delivery.sequence,
{
    assert(!comes_before(deliveries[i], b.delivery));
    assert(!comes_before(deliveries[j], a.delivery));
}

/// The delivery that is claimed is as old as any that may be claimed.
pub proof fn law_oldest_delivery_is_claimed(
    candidates: Seq<ClaimCandidate>,
    k: int,
    deliveries: Seq<SessionInputDeliveryRow>,
    owner: Seq<char>,
    execution_id: Option<&str>,
    delivery_id: Option<&str>,
    at: Timestamp,
    i: int,
)
    requires
        0 <= k < candidates.len(),
        oldest_eligible(candidates, k, deliveries, owner, execution_id, delivery_id, at),
        0 <= i < candidates.len(),
        eligible(candidates[i], deliveries, owner, execution_id, delivery_id, at),
    ensures
        candidates[k].delivery.created_at <= candidates[i].delivery.created_at,
{
}

/// A flush that may begin is for a delivery held under the caller's generation and
/// for exactly the caller's assignment and boundary; into a traced sandbox it needs
/// the live consent of the actor for whom the sandbox is traced.
pub proof fn law_flush_needs_every_fence(
    rows: FlushRows,
    request: FlushRequest,
    expected: SandboxCapabilities,
    at: Timestamp,
)
    requires
        flush_may_begin(rows, request, expected, at),
    ensures
        rows.delivery matches Some(delivery) && held(
            delivery,
            request.owner_id@,
            request.owner_generation,
            at,
        ) && delivery.boundary_fingerprint@ == request.boundary_fingerprint@,
        rows.session matches Some(session) && assignment_matches(session.sandbox, request)
            && trace_matches(session.sandbox, expected),
        expected.metadata_trace_enabled ==> (flush_consent(rows, expected) matches Some(consent)
            && consent.enabled && !consent.drain_pending && (
        consent.expires_at matches Some(expiry) && expiry > at) && (recorded_actor(
            rows.session->0.sandbox.trace,
        ) matches Some(actor) && consent_belongs(Some(consent), actor))),
{
}

/// The deadline of a flush lies within the window and within the consent, and what
/// the guard may commit is the delivery that was begun.
pub proof fn law_flush_is_bounded(
    start: FlushStart,
    rows: FlushRows,
    request: FlushRequest,
    expected: SandboxCapabilities,
    started_at: Timestamp,
    at: Timestamp,
    now: Timestamp,
)
    requires
        started_at <= i128::MAX - FLUSH_WINDOW,
        flush_may_begin(rows, request, expected, at),
        flush_begun(start, rows, request, expected, started_at, at, now),
    ensures
        start.guard.deadline <= started_at + FLUSH_WINDOW,
        expected.metadata_trace_enabled ==> (flush_consent(rows, expected) matches Some(consent)
            && start.guard.deadline <= consent.expires_at->0),
        start.guard.may_commit(start.delivery, at),
        start.guard.execution_id@ == start.delivery.execution_id@,
        start.guard.thread_key@ == start.delivery.thread_key@,
        holds(start.delivery.sandbox_id, request.sandbox_id@),
        holds(start.delivery.sandbox_assignment_epoch, request.assignment.assignment_epoch@),
{
}

/// A guard commits at most once, and not at all once the delivery was claimed
/// again.
pub proof fn law_flush_commits_at_most_once(
    guard: InputDeliveryFlushGuard,
    before: SessionInputDeliveryRow,
    after: SessionInputDeliveryRow,
    owner: String,
    until: Timestamp,
    clock: Clock,
    at: Timestamp,
)
    requires
        guard.may_commit(before, clock.wall),
        before.owner_generation < i64::MAX,
        flushed(before, after, clock) || delivery_taken(before, after, owner, until, clock),
    ensures
        !guard.may_commit(after, at),
{
    law_state_names_are_distinct(InputDeliveryState::Flushed, InputDeliveryState::Claimed);
}

} // verus!
