//! What the rules on deliveries come to, column by column: each law names the columns
//! of the rows and the persisted texts in them, and relates them to the answer.
use crate::claim::{
    can_be_counted, delivery_taken, eligible, execution_taken, oldest_eligible, targets,
    ClaimCandidate,
};
use crate::consent::MetadataTraceConsent;
use crate::delivery::{
    claimed_live_by, delivery_is, delivery_read, failed, flushed, held,
    law_state_names_are_distinct, matches_prepared, names_state, owed_to, prepared_as,
    recorded_line_count, recoverable, released, row_matches_prepared, unresolved, unresolved_for,
    InputDeliveryState, NewInputDelivery, PreparedInputDelivery, SessionInputDelivery,
};
use crate::digest::lines_fingerprint;
use crate::error::SessionStoreError;
use crate::execution::delivery_renewed;
use crate::flush::{
    consent_deadline, flush_begun, flush_config, flush_may_begin, flushed_event, FlushRequest,
    FlushRows, FlushStart, InputDeliveryFlushGuard,
};
use crate::json::{
    json_contents, json_member, json_text_list, text_list_refusal, JsonContents,
};
use crate::model::{Clock, SandboxCapabilities, ThreadKey, Timestamp};
use crate::rows::{NewSessionEvent, SessionInputDeliveryRow};
use crate::text::texts;
use crate::truth::Truth;
use vstd::prelude::*;

verus! {

// ---------------------------------------------------------------------------
// Claims
// ---------------------------------------------------------------------------

/// A delivery is never claimed before an earlier one of its execution that is still
/// pending, claimed (whatever its lease) or ambiguous.
pub proof fn law_earlier_delivery_is_claimed_first(
    candidate: ClaimCandidate,
    deliveries: Seq<SessionInputDeliveryRow>,
    owner: Seq<char>,
    execution_id: Option<&str>,
    delivery_id: Option<&str>,
    at: Timestamp,
    i: int,
)
    requires
        0 <= i < deliveries.len(),
        deliveries[i].execution_id@ == candidate.delivery.execution_id@,
        deliveries[i].sequence < candidate.delivery.sequence,
        deliveries[i].state@ == "pending"@ || deliveries[i].state@ == "claimed"@
            || deliveries[i].state@ == "ambiguous"@,
    ensures
        !eligible(candidate, deliveries, owner, execution_id, delivery_id, at),
{
}

/// A delivery is claimed in its turn: no other of its execution with a lower sequence
/// is pending, claimed or ambiguous; and none that could be claimed as well is older.
pub proof fn law_claimed_delivery_is_in_its_turn(
    candidates: Seq<ClaimCandidate>,
    k: int,
    deliveries: Seq<SessionInputDeliveryRow>,
    owner: Seq<char>,
    execution_id: Option<&str>,
    delivery_id: Option<&str>,
    at: Timestamp,
)
    requires
        0 <= k < candidates.len(),
        oldest_eligible(candidates, k, deliveries, owner, execution_id, delivery_id, at),
    ensures
        forall|i: int|
            0 <= i < deliveries.len() && (#[trigger] deliveries[i]).execution_id@
                == candidates[k].delivery.execution_id@ && deliveries[i].sequence
                < candidates[k].delivery.sequence ==> deliveries[i].state@ != "pending"@
                && deliveries[i].state@ != "claimed"@ && deliveries[i].state@ != "ambiguous"@,
        forall|i: int|
            0 <= i < candidates.len() && eligible(
                #[trigger] candidates[i],
                deliveries,
                owner,
                execution_id,
                delivery_id,
                at,
            ) ==> candidates[k].delivery.created_at <= candidates[i].delivery.created_at && (
            candidates[k].delivery.created_at == candidates[i].delivery.created_at ==> k <= i),
{
    assert forall|i: int|
        0 <= i < deliveries.len() && (#[trigger] deliveries[i]).execution_id@
            == candidates[k].delivery.execution_id@ && deliveries[i].sequence
            < candidates[k].delivery.sequence implies deliveries[i].state@ != "pending"@
        && deliveries[i].state@ != "claimed"@ && deliveries[i].state@ != "ambiguous"@ by {
        if deliveries[i].state@ == "pending"@ || deliveries[i].state@ == "claimed"@
            || deliveries[i].state@ == "ambiguous"@ {
            law_earlier_delivery_is_claimed_first(
                candidates[k],
                deliveries,
                owner,
                execution_id,
                delivery_id,
                at,
                i,
            );
        }
    }
}

/// What a delivery must be to be claimed, and all that it must be: the one that was
/// named, if one was; of an execution that is queued or running and in nobody else's
/// live hands; itself pending, ambiguous, or claimed under a lease that has run out;
/// and first in line.
pub proof fn law_claim_conditions(
    candidate: ClaimCandidate,
    deliveries: Seq<SessionInputDeliveryRow>,
    owner: Seq<char>,
    execution_id: Option<&str>,
    delivery_id: Option<&str>,
    at: Timestamp,
)
    ensures
        eligible(candidate, deliveries, owner, execution_id, delivery_id, at) <==> {
            &&& execution_id is Some ==> candidate.delivery.execution_id@ == execution_id->0@
            &&& delivery_id is Some ==> candidate.delivery.delivery_id@ == delivery_id->0@
            &&& candidate.execution.execution_id@ == candidate.delivery.execution_id@
            &&& candidate.execution.status@ == "queued"@ || candidate.execution.status@
                == "running"@
            &&& {
                ||| candidate.execution.stdout_owner_id is None
                ||| candidate.execution.stdout_owner_id->0@ == owner
                ||| candidate.execution.stdout_owner_lease_expires_at is None
                ||| candidate.execution.stdout_owner_lease_expires_at->0 <= at
            }
            &&& {
                ||| candidate.delivery.state@ == "pending"@
                ||| candidate.delivery.state@ == "ambiguous"@
                ||| candidate.delivery.state@ == "claimed"@
                    && candidate.delivery.owner_lease_expires_at is Some
                    && candidate.delivery.owner_lease_expires_at->0 <= at
            }
            &&& forall|i: int|
                0 <= i < deliveries.len() && (#[trigger] deliveries[i]).execution_id@
                    == candidate.delivery.execution_id@ && deliveries[i].sequence
                    < candidate.delivery.sequence ==> deliveries[i].state@ != "pending"@
                    && deliveries[i].state@ != "claimed"@ && deliveries[i].state@ != "ambiguous"@
        },
{
}

/// A target that is not named takes any id, and one that is takes only its own.
pub proof fn law_targets_are_exact(asked: Option<&str>, id: Seq<char>)
    ensures
        asked is None ==> targets(asked, id),
        asked matches Some(text) ==> (targets(asked, id) <==> text@ == id),
{
}

/// What a claim writes: the execution runs in the owner's hands until the lease ends
/// and keeps the start that it had; the delivery is claimed one generation and one
/// attempt further. Nothing else changes.
pub proof fn law_claim_columns(
    before: ClaimCandidate,
    after: ClaimCandidate,
    owner: String,
    until: Timestamp,
    clock: Clock,
)
    requires
        execution_taken(before.execution, after.execution, owner, until, clock),
        delivery_taken(before.delivery, after.delivery, owner, until, clock),
        before.delivery.owner_generation < i64::MAX,
        before.delivery.attempts < i32::MAX,
    ensures
        after.execution.status@ == "running"@,
        after.execution.started_at is Some,
        before.execution.started_at is Some ==> after.execution.started_at
            == before.execution.started_at,
        before.execution.started_at is None ==> after.execution.started_at == Some(clock.wall),
        after.execution.stdout_owner_id == Some(owner),
        after.execution.stdout_owner_lease_expires_at == Some(until),
        after.execution.updated_at == clock.now,
        after.execution.execution_id == before.execution.execution_id,
        after.execution.thread_key == before.execution.thread_key,
        after.execution.idempotency_key == before.execution.idempotency_key,
        after.execution.metadata == before.execution.metadata,
        after.execution.error == before.execution.error,
        after.execution.created_at == before.execution.created_at,
        after.execution.completed_at == before.execution.completed_at,
        after.delivery.state@ == "claimed"@,
        after.delivery.owner_id == Some(owner),
        after.delivery.owner_lease_expires_at == Some(until),
        after.delivery.owner_generation == before.delivery.owner_generation + 1,
        after.delivery.attempts == before.delivery.attempts + 1,
        after.delivery.claimed_at == Some(clock.wall),
        after.delivery.updated_at == clock.now,
        after.delivery.delivery_id == before.delivery.delivery_id,
        after.delivery.thread_key == before.delivery.thread_key,
        after.delivery.execution_id == before.delivery.execution_id,
        after.delivery.sequence == before.delivery.sequence,
        after.delivery.idempotency_key == before.delivery.idempotency_key,
        after.delivery.message_ids == before.delivery.message_ids,
        after.delivery.input_lines == before.delivery.input_lines,
        after.delivery.input_sha256 == before.delivery.input_sha256,
        after.delivery.input_line_count == before.delivery.input_line_count,
        after.delivery.boundary_fingerprint == before.delivery.boundary_fingerprint,
        after.delivery.sandbox_id == before.delivery.sandbox_id,
        after.delivery.sandbox_resource_uid == before.delivery.sandbox_resource_uid,
        after.delivery.sandbox_assignment_epoch == before.delivery.sandbox_assignment_epoch,
        after.delivery.last_error == before.delivery.last_error,
        after.delivery.created_at == before.delivery.created_at,
        after.delivery.flushed_at == before.delivery.flushed_at,
        after.delivery.failed_at == before.delivery.failed_at,
{
}

// ---------------------------------------------------------------------------
// States and holds
// ---------------------------------------------------------------------------

/// Which states are which: a delivery is owed while it is pending, claimed or
/// ambiguous, and no longer once it is flushed or failed. It can be claimed anew if it
/// is pending or ambiguous, or if the lease of its claim has run out.
pub proof fn law_delivery_states(row: SessionInputDeliveryRow, at: Timestamp)
    ensures
        unresolved(row.state@) <==> row.state@ == "pending"@ || row.state@ == "claimed"@
            || row.state@ == "ambiguous"@,
        row.state@ == "flushed"@ || row.state@ == "failed"@ ==> !unresolved(row.state@)
            && !recoverable(row, at),
        row.state@ == "pending"@ || row.state@ == "ambiguous"@ ==> recoverable(row, at),
        row.state@ == "claimed"@ ==> (recoverable(row, at) <==> row.owner_lease_expires_at is Some
            && row.owner_lease_expires_at->0 <= at),
        recoverable(row, at) ==> unresolved(row.state@),
        InputDeliveryState::Pending.name() == "pending"@,
        InputDeliveryState::Claimed.name() == "claimed"@,
        InputDeliveryState::Ambiguous.name() == "ambiguous"@,
        InputDeliveryState::Flushed.name() == "flushed"@,
        InputDeliveryState::Failed.name() == "failed"@,
        InputDeliveryState::Pending.is_unresolved() && InputDeliveryState::Claimed.is_unresolved()
            && InputDeliveryState::Ambiguous.is_unresolved(),
        !InputDeliveryState::Flushed.is_unresolved() && !InputDeliveryState::Failed.is_unresolved(),
{
    reveal_strlit("pending");
    reveal_strlit("claimed");
    reveal_strlit("ambiguous");
    reveal_strlit("flushed");
    reveal_strlit("failed");
    assert("pending"@.len() == 7 && "claimed"@.len() == 7 && "flushed"@.len() == 7);
    assert("pending"@[0] == 'p' && "claimed"@[0] == 'c' && "flushed"@[0] == 'f');
    assert("ambiguous"@.len() == 9 && "failed"@.len() == 6);
}

/// An owner holds a delivery exactly if it is claimed, the owner and the generation are
/// those of the claim, and the lease ends later.
pub proof fn law_hold_conditions(
    row: SessionInputDeliveryRow,
    owner: Seq<char>,
    generation: i64,
    execution_id: Seq<char>,
    at: Timestamp,
)
    ensures
        held(row, owner, generation, at) <==> {
            &&& row.state@ == "claimed"@
            &&& row.owner_id is Some && row.owner_id->0@ == owner
            &&& row.owner_generation == generation
            &&& row.owner_lease_expires_at is Some && row.owner_lease_expires_at->0 > at
        },
        claimed_live_by(row, execution_id, owner, at) <==> {
            &&& row.execution_id@ == execution_id
            &&& row.state@ == "claimed"@
            &&& row.owner_id is Some && row.owner_id->0@ == owner
            &&& row.owner_lease_expires_at is Some && row.owner_lease_expires_at->0 > at
        },
{
}

/// A delivery is owed to an execution exactly if one of its own is pending, claimed or
/// ambiguous; deliveries of others do not count.
pub proof fn law_owed_deliveries(deliveries: Seq<SessionInputDeliveryRow>, execution_id: Seq<char>)
    ensures
        unresolved_for(deliveries, execution_id) <==> exists|i: int|
            0 <= i < deliveries.len() && (#[trigger] deliveries[i]).execution_id@ == execution_id
                && (deliveries[i].state@ == "pending"@ || deliveries[i].state@ == "claimed"@
                || deliveries[i].state@ == "ambiguous"@),
{
    if unresolved_for(deliveries, execution_id) {
        let i = choose|i: int|
            0 <= i < deliveries.len() && owed_to(
                #[trigger] deliveries[i],
                execution_id,
            );
        assert(deliveries[i].execution_id@ == execution_id);
    }
    if exists|i: int|
        0 <= i < deliveries.len() && (#[trigger] deliveries[i]).execution_id@ == execution_id && (
        deliveries[i].state@ == "pending"@ || deliveries[i].state@ == "claimed"@
            || deliveries[i].state@ == "ambiguous"@) {
        let i = choose|i: int|
            0 <= i < deliveries.len() && (#[trigger] deliveries[i]).execution_id@ == execution_id
                && (deliveries[i].state@ == "pending"@ || deliveries[i].state@ == "claimed"@
                || deliveries[i].state@ == "ambiguous"@);
        assert(owed_to(deliveries[i], execution_id));
    }
}

/// What giving up, failing and flushing write. All three take the delivery out of its
/// owner's hands and keep what it carries; only a delivery that is over loses its
/// lines, and only the two that go wrong record words.
pub proof fn law_outcome_columns(
    before: SessionInputDeliveryRow,
    after: SessionInputDeliveryRow,
    words: Seq<char>,
    clock: Clock,
)
    ensures
        released(before, after, words, clock.now) ==> after.state@ == "ambiguous"@
            && after.input_lines == before.input_lines && after.flushed_at == before.flushed_at
            && after.failed_at == before.failed_at,
        failed(before, after, words, clock) ==> after.state@ == "failed"@ && json_text_list(
            after.input_lines,
        ) == Some(Seq::<Seq<char>>::empty()) && after.failed_at == Some(clock.wall)
            && after.flushed_at == before.flushed_at,
        flushed(before, after, clock) ==> after.state@ == "flushed"@ && json_text_list(
            after.input_lines,
        ) == Some(Seq::<Seq<char>>::empty()) && after.flushed_at == Some(clock.wall)
            && after.failed_at == before.failed_at && after.last_error == before.last_error,
        released(before, after, words, clock.now) || failed(before, after, words, clock)
            ==> after.last_error is Some && after.last_error->0@ == words,
        released(before, after, words, clock.now) || failed(before, after, words, clock) || flushed(
            before,
            after,
            clock,
        ) ==> {
            &&& after.owner_id is None
            &&& after.owner_lease_expires_at is None
            &&& after.updated_at == clock.now
            &&& after.owner_generation == before.owner_generation
            &&& after.attempts == before.attempts
            &&& after.claimed_at == before.claimed_at
            &&& after.delivery_id == before.delivery_id
            &&& after.thread_key == before.thread_key
            &&& after.execution_id == before.execution_id
            &&& after.sequence == before.sequence
            &&& after.idempotency_key == before.idempotency_key
            &&& after.message_ids == before.message_ids
            &&& after.input_sha256 == before.input_sha256
            &&& after.input_line_count == before.input_line_count
            &&& after.boundary_fingerprint == before.boundary_fingerprint
            &&& after.sandbox_id == before.sandbox_id
            &&& after.sandbox_resource_uid == before.sandbox_resource_uid
            &&& after.sandbox_assignment_epoch == before.sandbox_assignment_epoch
            &&& after.created_at == before.created_at
        },
{
    if failed(before, after, words, clock) || flushed(before, after, clock) {
        assert(json_text_list(after.input_lines)->0 =~= Seq::<Seq<char>>::empty());
    }
}

/// A renewal moves the end of the lease of a delivery that its owner holds for the
/// execution, and touches no other delivery and no other column.
pub proof fn law_renewal_columns(
    row: SessionInputDeliveryRow,
    execution_id: Seq<char>,
    owner: Seq<char>,
    until: Timestamp,
    clock: Clock,
)
    ensures
        ({
            let after = delivery_renewed(row, execution_id, owner, until, clock);
            let its_own = row.execution_id@ == execution_id && row.state@ == "claimed"@
                && row.owner_id is Some && row.owner_id->0@ == owner
                && row.owner_lease_expires_at is Some && row.owner_lease_expires_at->0
                > clock.wall;
            &&& its_own ==> after.owner_lease_expires_at == Some(until) && after.updated_at
                == clock.now && after == (SessionInputDeliveryRow {
                owner_lease_expires_at: Some(until),
                updated_at: clock.now,
                ..row
            })
            &&& !its_own ==> after == row
        }),
{
}

// ---------------------------------------------------------------------------
// Payload
// ---------------------------------------------------------------------------

/// A delivery answers for a prepared payload exactly if it has the same message ids,
/// boundary, fingerprint and count of lines; and the same lines while it is owed, or
/// none once it is over.
pub proof fn law_payload_conditions(
    delivery: SessionInputDelivery,
    prepared: PreparedInputDelivery,
)
    ensures
        matches_prepared(delivery, prepared) <==> {
            &&& texts(delivery.message_ids@) == texts(prepared.message_ids@)
            &&& delivery.boundary_fingerprint@ == prepared.boundary_fingerprint@
            &&& delivery.input_sha256@ == lines_fingerprint(texts(prepared.input_lines@))
            &&& prepared.input_lines@.len() <= i32::MAX ==> delivery.input_line_count
                == prepared.input_lines@.len()
            &&& prepared.input_lines@.len() > i32::MAX ==> delivery.input_line_count == i32::MAX
            &&& delivery.state is Pending || delivery.state is Claimed
                || delivery.state is Ambiguous ==> texts(delivery.input_lines@) == texts(
                prepared.input_lines@,
            )
            &&& delivery.state is Flushed || delivery.state is Failed
                ==> delivery.input_lines@.len() == 0
        },
{
}

/// The same of a row, by the name of its state.
pub proof fn law_row_payload_conditions(
    row: SessionInputDeliveryRow,
    prepared: PreparedInputDelivery,
)
    requires
        row_matches_prepared(row, prepared),
    ensures
        json_text_list(row.message_ids) == Some(texts(prepared.message_ids@)),
        row.boundary_fingerprint@ == prepared.boundary_fingerprint@,
        row.input_sha256@ == lines_fingerprint(texts(prepared.input_lines@)),
        prepared.input_lines@.len() <= i32::MAX ==> row.input_line_count
            == prepared.input_lines@.len(),
        row.state@ == "pending"@ || row.state@ == "claimed"@ || row.state@ == "ambiguous"@
            ==> json_text_list(row.input_lines) == Some(texts(prepared.input_lines@)),
        row.state@ == "flushed"@ || row.state@ == "failed"@ ==> json_text_list(row.input_lines)
            == Some(Seq::<Seq<char>>::empty()),
{
    law_delivery_states(row, 0);
}

/// What a new delivery holds: what was prepared, under the ids it is given.
pub proof fn law_new_delivery_columns(
    new: NewInputDelivery,
    delivery_id: String,
    thread_key: String,
    execution_id: String,
    sequence: i64,
    prepared: PreparedInputDelivery,
)
    requires
        prepared_as(new, delivery_id, thread_key, execution_id, sequence, prepared),
    ensures
        new.delivery_id == delivery_id,
        new.thread_key == thread_key,
        new.execution_id == execution_id,
        new.sequence == sequence,
        new.idempotency_key == prepared.idempotency_key,
        new.message_ids@ == prepared.message_ids@,
        new.input_lines@ == prepared.input_lines@,
        new.input_sha256@ == lines_fingerprint(texts(prepared.input_lines@)),
        prepared.input_lines@.len() <= i32::MAX ==> new.input_line_count
            == prepared.input_lines@.len(),
        new.boundary_fingerprint == prepared.boundary_fingerprint,
{
}

/// The recorded count of lines is the count itself, as long as it can be recorded.
pub proof fn law_line_count_is_recorded(lines: nat)
    ensures
        lines <= i32::MAX ==> recorded_line_count(lines) == lines,
        lines > i32::MAX ==> recorded_line_count(lines) == i32::MAX,
{
}

// ---------------------------------------------------------------------------
// Flush
// ---------------------------------------------------------------------------

/// A flush that begins finds the trace boundary of the session as the caller expects
/// it, in each of its columns, whether the sandbox is traced or not.
pub proof fn law_flush_finds_the_expected_trace(
    rows: FlushRows,
    request: FlushRequest,
    expected: SandboxCapabilities,
    at: Timestamp,
)
    requires
        flush_may_begin(rows, request, expected, at),
    ensures
        rows.session is Some,
        ({
            let trace = rows.session->0.sandbox.trace;
            &&& trace.enabled == Some(expected.metadata_trace_enabled)
            &&& trace.expires_at == expected.metadata_trace_expires_at
            &&& trace.subject_hash is Some <==> expected.metadata_trace_subject_hash is Some
            &&& trace.subject_hash is Some ==> trace.subject_hash->0@
                == expected.metadata_trace_subject_hash->0@
            &&& trace.consent_revision == expected.metadata_trace_consent_revision
            &&& trace.config_fingerprint is Some
                <==> expected.metadata_trace_config_fingerprint is Some
            &&& trace.config_fingerprint is Some ==> trace.config_fingerprint->0@
                == expected.metadata_trace_config_fingerprint->0@
            &&& trace.config_generation == expected.metadata_trace_config_generation
        }),
{
}

/// What must hold for a flush to begin, and all that must: the rows are those of the
/// delivery asked for; the execution runs; the owner holds the delivery under its
/// generation with time left, for the boundary expected; the session has exactly that
/// assignment and that trace boundary; and a traced sandbox has the live consent of
/// the actor that it was assigned to, at the expected revision and expiry.
pub proof fn law_flush_conditions(
    rows: FlushRows,
    request: FlushRequest,
    expected: SandboxCapabilities,
    at: Timestamp,
)
    ensures
        flush_may_begin(rows, request, expected, at) <==> {
            let session = rows.session->0;
            let execution = rows.execution->0;
            let delivery = rows.delivery->0;
            let sandbox = session.sandbox;
            let trace = sandbox.trace;
            let consent = rows.trace->0.consent->0;
            &&& rows.session is Some && rows.execution is Some && rows.delivery is Some
            &&& delivery.delivery_id@ == request.delivery_id@
            &&& execution.execution_id@ == delivery.execution_id@
            &&& session.thread_key@ == delivery.thread_key@
            &&& execution.status@ == "running"@
            &&& delivery.state@ == "claimed"@
            &&& delivery.owner_id is Some && delivery.owner_id->0@ == request.owner_id@
            &&& delivery.owner_generation == request.owner_generation
            &&& delivery.owner_lease_expires_at is Some && delivery.owner_lease_expires_at->0 > at
            &&& delivery.boundary_fingerprint@ == request.boundary_fingerprint@
            &&& sandbox.sandbox_id is Some && sandbox.sandbox_id->0@ == request.sandbox_id@
            &&& sandbox.assignment_epoch is Some && sandbox.assignment_epoch->0@
                == request.assignment.assignment_epoch@
            &&& sandbox.resource_uid is Some <==> request.assignment.resource_uid is Some
            &&& sandbox.resource_uid is Some ==> sandbox.resource_uid->0@
                == request.assignment.resource_uid->0@
            &&& trace.enabled == Some(expected.metadata_trace_enabled)
            &&& trace.expires_at == expected.metadata_trace_expires_at
            &&& trace.subject_hash is Some <==> expected.metadata_trace_subject_hash is Some
            &&& trace.subject_hash is Some ==> trace.subject_hash->0@
                == expected.metadata_trace_subject_hash->0@
            &&& trace.consent_revision == expected.metadata_trace_consent_revision
            &&& trace.config_fingerprint is Some
                <==> expected.metadata_trace_config_fingerprint is Some
            &&& trace.config_fingerprint is Some ==> trace.config_fingerprint->0@
                == expected.metadata_trace_config_fingerprint->0@
            &&& trace.config_generation == expected.metadata_trace_config_generation
            &&& expected.metadata_trace_enabled ==> {
                &&& rows.trace is Some && rows.trace->0.consent is Some
                &&& consent.enabled
                &&& !consent.drain_pending
                &&& expected.metadata_trace_consent_revision is Some ==> consent.revision
                    == expected.metadata_trace_consent_revision->0
                &&& expected.metadata_trace_consent_revision is None ==> consent.revision == 0
                &&& consent.expires_at == expected.metadata_trace_expires_at
                &&& consent.expires_at is Some && consent.expires_at->0 > at
                &&& trace.source is Some && consent.source@ == trace.source->0@
                &&& trace.workspace_id is Some && consent.workspace_id@ == trace.workspace_id->0@
                &&& trace.user_id is Some && consent.user_id@ == trace.user_id->0@
                &&& trace.assignment_epoch is Some
                &&& trace.resource_uid is Some
            }
        },
{
}

/// An untraced flush asks for no configuration. A traced one is let through by it
/// exactly if the session, if found, records the whole actor, and the active
/// configuration has the expected generation and fingerprint.
pub proof fn law_flush_configuration(rows: FlushRows, expected: SandboxCapabilities)
    ensures
        !expected.metadata_trace_enabled ==> flush_config(rows, expected) == Truth::True,
        expected.metadata_trace_enabled && rows.session is Some && (
        rows.session->0.sandbox.trace.source is None
            || rows.session->0.sandbox.trace.workspace_id is None
            || rows.session->0.sandbox.trace.user_id is None
            || rows.session->0.sandbox.trace.assignment_epoch is None
            || rows.session->0.sandbox.trace.resource_uid is None) ==> flush_config(rows, expected)
            == Truth::Unknown,
        expected.metadata_trace_enabled && flush_config(rows, expected) == Truth::True ==> {
            &&& rows.trace is Some && rows.trace->0.config is Some
            &&& expected.metadata_trace_config_generation == Some(
                rows.trace->0.config->0.generation,
            )
            &&& expected.metadata_trace_config_fingerprint is Some
            &&& expected.metadata_trace_config_fingerprint->0@
                == rows.trace->0.config->0.config_fingerprint@
            &&& rows.session is Some ==> {
                &&& rows.session->0.sandbox.trace.source is Some
                &&& rows.session->0.sandbox.trace.workspace_id is Some
                &&& rows.session->0.sandbox.trace.user_id is Some
                &&& rows.session->0.sandbox.trace.assignment_epoch is Some
                &&& rows.session->0.sandbox.trace.resource_uid is Some
            }
        },
        ({
            &&& expected.metadata_trace_enabled
            &&& rows.trace is Some && rows.trace->0.config is Some
            &&& expected.metadata_trace_config_generation == Some(
                rows.trace->0.config->0.generation,
            )
            &&& expected.metadata_trace_config_fingerprint is Some
            &&& expected.metadata_trace_config_fingerprint->0@
                == rows.trace->0.config->0.config_fingerprint@
            &&& rows.session is Some ==> {
                &&& rows.session->0.sandbox.trace.source is Some
                &&& rows.session->0.sandbox.trace.workspace_id is Some
                &&& rows.session->0.sandbox.trace.user_id is Some
                &&& rows.session->0.sandbox.trace.assignment_epoch is Some
                &&& rows.session->0.sandbox.trace.resource_uid is Some
            }
        }) ==> flush_config(rows, expected) == Truth::True,
{
}

/// The configuration cannot say whether a traced flush may begin exactly if the session
/// lacks part of the actor, or the boundary lacks its generation or fingerprint and the
/// other is not refuted.
pub proof fn law_flush_configuration_is_unknown(rows: FlushRows, expected: SandboxCapabilities)
    ensures
        ({
            let trace = rows.session->0.sandbox.trace;
            let config = rows.trace->0.config->0;
            let generation = expected.metadata_trace_config_generation;
            let fingerprint = expected.metadata_trace_config_fingerprint;
            let no_actor = rows.session is Some && (trace.source is None
                || trace.workspace_id is None || trace.user_id is None
                || trace.assignment_epoch is None || trace.resource_uid is None);
            let open = rows.trace is Some && rows.trace->0.config is Some && (generation is None
                || fingerprint is None) && (generation is Some ==> generation->0
                == config.generation) && (fingerprint is Some ==> fingerprint->0@
                == config.config_fingerprint@);
            flush_config(rows, expected) == Truth::Unknown <==> expected.metadata_trace_enabled
                && (no_actor || open)
        }),
{
}

/// What a flush that begins holds: the delivery records the assignment that the caller
/// named and is otherwise as it was; the guard is for that delivery, owner and
/// generation; and it ends after thirty seconds, or with the consent if that is
/// earlier.
pub proof fn law_begun_flush_columns(
    start: FlushStart,
    rows: FlushRows,
    request: FlushRequest,
    expected: SandboxCapabilities,
    started_at: Timestamp,
    at: Timestamp,
    now: Timestamp,
)
    requires
        started_at <= i128::MAX - 30_000_000_000,
        flush_may_begin(rows, request, expected, at),
        flush_begun(start, rows, request, expected, started_at, at, now),
    ensures
        start.delivery == (SessionInputDeliveryRow {
            sandbox_id: start.delivery.sandbox_id,
            sandbox_resource_uid: start.delivery.sandbox_resource_uid,
            sandbox_assignment_epoch: start.delivery.sandbox_assignment_epoch,
            updated_at: now,
            ..rows.delivery->0
        }),
        start.delivery.sandbox_id is Some && start.delivery.sandbox_id->0@ == request.sandbox_id@,
        start.delivery.sandbox_assignment_epoch is Some
            && start.delivery.sandbox_assignment_epoch->0@ == request.assignment.assignment_epoch@,
        start.delivery.sandbox_resource_uid is Some <==> request.assignment.resource_uid is Some,
        start.delivery.sandbox_resource_uid is Some ==> start.delivery.sandbox_resource_uid->0@
            == request.assignment.resource_uid->0@,
        start.guard.delivery_id == request.delivery_id,
        start.guard.owner_id == request.owner_id,
        start.guard.owner_generation == request.owner_generation,
        start.guard.thread_key@ == start.delivery.thread_key@,
        start.guard.execution_id@ == start.delivery.execution_id@,
        !expected.metadata_trace_enabled ==> start.guard.deadline == started_at + 30_000_000_000,
        expected.metadata_trace_enabled ==> {
            let expiry = rows.trace->0.consent->0.expires_at->0;
            &&& start.guard.deadline <= expiry
            &&& start.guard.deadline <= started_at + 30_000_000_000
            &&& start.guard.deadline == expiry || start.guard.deadline == started_at
                + 30_000_000_000
        },
{
}

/// A consent lets the expected boundary write exactly if it is on, not draining, of
/// the expected revision (none stands for revision zero) and expiry, and not over;
/// and then until it expires.
pub proof fn law_consent_deadline_conditions(
    consent: Option<MetadataTraceConsent>,
    expected: SandboxCapabilities,
    at: Timestamp,
)
    ensures
        consent_deadline(consent, expected, at) is Some <==> {
            &&& consent is Some
            &&& consent->0.enabled
            &&& !consent->0.drain_pending
            &&& expected.metadata_trace_consent_revision is Some ==> consent->0.revision
                == expected.metadata_trace_consent_revision->0
            &&& expected.metadata_trace_consent_revision is None ==> consent->0.revision == 0
            &&& consent->0.expires_at is Some && consent->0.expires_at->0 > at
            &&& expected.metadata_trace_expires_at == consent->0.expires_at
        },
        consent_deadline(consent, expected, at) is Some ==> consent_deadline(consent, expected, at)
            == consent->0.expires_at,
{
}

/// A guard commits exactly while its own delivery is claimed by its owner under its
/// generation with time left.
pub proof fn law_commit_conditions(
    guard: InputDeliveryFlushGuard,
    row: SessionInputDeliveryRow,
    at: Timestamp,
)
    ensures
        guard.may_commit(row, at) <==> {
            &&& row.delivery_id@ == guard.delivery_id@
            &&& row.state@ == "claimed"@
            &&& row.owner_id is Some && row.owner_id->0@ == guard.owner_id@
            &&& row.owner_generation == guard.owner_generation
            &&& row.owner_lease_expires_at is Some && row.owner_lease_expires_at->0 > at
        },
{
}

/// The event of a flush tells of the delivery, the fingerprint and the count of its
/// lines, and of nothing else; above all not of the lines.
pub proof fn law_flushed_event_tells_of_the_delivery(
    event: NewSessionEvent,
    guard: InputDeliveryFlushGuard,
    delivery: SessionInputDeliveryRow,
    key: Seq<char>,
)
    requires
        flushed_event(event, guard, delivery),
    ensures
        event.thread_key == guard.thread_key,
        event.execution_id == Some(guard.execution_id),
        event.event_type@ == "session.input_flushed"@,
        json_member(event.payload, key) is Some <==> key == "delivery_id"@ || key
            == "input_sha256"@ || key == "input_line_count"@,
        json_contents(json_member(event.payload, "delivery_id"@)->0) == JsonContents::Text(
            delivery.delivery_id@,
        ),
        json_contents(json_member(event.payload, "input_sha256"@)->0) == JsonContents::Text(
            delivery.input_sha256@,
        ),
        delivery.input_line_count >= 0 ==> json_contents(
            json_member(event.payload, "input_line_count"@)->0,
        ) == JsonContents::Unsigned(delivery.input_line_count as u64),
{
}

// ---------------------------------------------------------------------------
// Reading
// ---------------------------------------------------------------------------

/// A delivery row can be read exactly if its key can, both its lists are lists of texts,
/// and its state is one of the five. Where it cannot, the first of these in that order
/// refuses it: the key with the words of its parser, a state with its own text.
pub proof fn law_delivery_read_conditions(
    read: Result<SessionInputDelivery, SessionStoreError>,
    row: SessionInputDeliveryRow,
    thread_key: Result<ThreadKey, String>,
)
    requires
        delivery_read(read, row, thread_key),
    ensures
        read is Ok <==> {
            &&& thread_key is Ok
            &&& json_text_list(row.message_ids) is Some
            &&& json_text_list(row.input_lines) is Some
            &&& row.state@ == "pending"@ || row.state@ == "claimed"@ || row.state@ == "ambiguous"@
                || row.state@ == "flushed"@ || row.state@ == "failed"@
        },
        thread_key matches Err(words) ==> read == Err::<SessionInputDelivery, SessionStoreError>(
            SessionStoreError::InvalidPersistedValue(words),
        ),
        thread_key is Ok && json_text_list(row.message_ids) is Some && json_text_list(
            row.input_lines,
        ) is Some && read is Err ==> {
            &&& read matches Err(SessionStoreError::InvalidPersistedValue(words))
            &&& words@ == "invalid persisted value: "@ + row.state@
        },
        thread_key is Ok && json_text_list(row.message_ids) is None ==> {
            &&& read matches Err(SessionStoreError::InvalidPersistedValue(words))
            &&& words@ == text_list_refusal(row.message_ids)
        },
        thread_key is Ok && json_text_list(row.message_ids) is Some && json_text_list(
            row.input_lines,
        ) is None ==> {
            &&& read matches Err(SessionStoreError::InvalidPersistedValue(words))
            &&& words@ == text_list_refusal(row.input_lines)
        },
{
    if row.state@ == "pending"@ || row.state@ == "claimed"@ || row.state@ == "ambiguous"@
        || row.state@ == "flushed"@ || row.state@ == "failed"@ {
        assert("pending"@ == InputDeliveryState::Pending.name());
        assert("claimed"@ == InputDeliveryState::Claimed.name());
        assert("ambiguous"@ == InputDeliveryState::Ambiguous.name());
        assert("flushed"@ == InputDeliveryState::Flushed.name());
        assert("failed"@ == InputDeliveryState::Failed.name());
        assert(names_state(row.state@));
    }
}

/// What a delivery row reads as, column by column.
pub proof fn law_delivery_read_columns(
    delivery: SessionInputDelivery,
    row: SessionInputDeliveryRow,
    thread_key: ThreadKey,
)
    requires
        delivery_is(delivery, row, thread_key),
    ensures
        delivery.thread_key == thread_key,
        delivery.delivery_id == row.delivery_id,
        delivery.execution_id == row.execution_id,
        delivery.sequence == row.sequence,
        delivery.idempotency_key == row.idempotency_key,
        json_text_list(row.message_ids) == Some(texts(delivery.message_ids@)),
        json_text_list(row.input_lines) == Some(texts(delivery.input_lines@)),
        delivery.input_sha256 == row.input_sha256,
        delivery.input_line_count == row.input_line_count,
        delivery.boundary_fingerprint == row.boundary_fingerprint,
        delivery.state is Pending <==> row.state@ == "pending"@,
        delivery.state is Claimed <==> row.state@ == "claimed"@,
        delivery.state is Ambiguous <==> row.state@ == "ambiguous"@,
        delivery.state is Flushed <==> row.state@ == "flushed"@,
        delivery.state is Failed <==> row.state@ == "failed"@,
        delivery.owner_id == row.owner_id,
        delivery.owner_generation == row.owner_generation,
        delivery.owner_lease_expires_at == row.owner_lease_expires_at,
        delivery.sandbox_id == row.sandbox_id,
        delivery.sandbox_resource_uid == row.sandbox_resource_uid,
        delivery.sandbox_assignment_epoch == row.sandbox_assignment_epoch,
        delivery.attempts == row.attempts,
        delivery.last_error == row.last_error,
        delivery.created_at == row.created_at,
        delivery.claimed_at == row.claimed_at,
        delivery.flushed_at == row.flushed_at,
        delivery.failed_at == row.failed_at,
        delivery.updated_at == row.updated_at,
{
    law_state_names_are_distinct(delivery.state, InputDeliveryState::Pending);
    law_state_names_are_distinct(delivery.state, InputDeliveryState::Claimed);
    law_state_names_are_distinct(delivery.state, InputDeliveryState::Ambiguous);
    law_state_names_are_distinct(delivery.state, InputDeliveryState::Flushed);
    law_state_names_are_distinct(delivery.state, InputDeliveryState::Failed);
}

/// A claim is counted as long as neither the generation nor the attempts are the last
/// that can be.
pub proof fn law_countable_claims(row: SessionInputDeliveryRow)
    ensures
        can_be_counted(row) <==> row.owner_generation != i64::MAX && row.attempts != i32::MAX,
{
}

} // verus!
