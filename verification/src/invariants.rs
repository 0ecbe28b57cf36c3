//! What holds of deliveries, executions, consents and their requests, the trace
//! configuration, sandbox assignments and warm sandboxes, whatever has been done to
//! them.
//!
//! For each of them there is a predicate that a new one meets and that every change
//! keeps.
use crate::assignment::{assigned, no_sandbox, no_trace};
use crate::claim::{delivery_taken, execution_taken};
use crate::consent::{
    MetadataTraceActor, MetadataTraceConsent, MetadataTraceConsentRequestRow,
    MetadataTraceDrainTarget, TracedAssignmentRow,
};
use crate::consent_change::{
    expired_consent, granted, recorded_result, revoked_consent, with_drain, with_result,
};
use crate::delivery::{
    failed, flushed, law_state_names_are_distinct, names_state, prepared_as,
    recorded_line_count, released, unresolved, InputDeliveryState, NewInputDelivery,
    PreparedInputDelivery,
};
use crate::delivery_laws::{inserted_as, law_unresolved_states};
use crate::digest::lines_fingerprint;
use crate::execution::{active, delivery_renewed, finished, metadata_merged};
use crate::execution_laws::law_statuses_are_active_or_finished;
use crate::json::json_text_list;
use crate::model::{Clock, ExecutionStatus, SandboxCapabilities, Timestamp};
use crate::rows::{SandboxColumns, SessionExecutionRow, SessionInputDeliveryRow, TraceColumns};
use crate::terminal::{after_shutdown, concluded, ended, OwnedTerminalEvent};
use crate::text::texts;
use crate::trace_config::{MetadataTraceConfigIdentity, MetadataTraceConfigStateRow};
use crate::warm::{
    claimed, claimed_for, evicting, law_warm_statuses_exclude_each_other, ready, reserved, retired,
    WarmSandboxRow,
};
use serde_json::Value;
use vstd::prelude::*;

verus! {

// ---------------------------------------------------------------------------
// Deliveries
// ---------------------------------------------------------------------------

/// A delivery is in one of its states; exactly a claimed one has an owner and a
/// lease; one that is owed has the very lines that its fingerprint and count are
/// of, and one that is over has none.
pub open spec fn delivery_well_formed(row: SessionInputDeliveryRow) -> bool {
    &&& names_state(row.state@)
    &&& json_text_list(row.message_ids) is Some
    &&& json_text_list(row.input_lines) matches Some(lines)
    &&& if unresolved(row.state@) {
        &&& row.input_sha256@ == lines_fingerprint(lines)
        &&& row.input_line_count == recorded_line_count(lines.len())
    } else {
        lines.len() == 0
    }
    &&& row.owner_id is Some == (row.state@ == InputDeliveryState::Claimed.name())
    &&& row.owner_lease_expires_at is Some == row.owner_id is Some
}

/// A delivery that was inserted for a prepared payload is well formed.
pub proof fn law_new_delivery_is_well_formed(
    row: SessionInputDeliveryRow,
    new: NewInputDelivery,
    delivery_id: String,
    thread_key: String,
    execution_id: String,
    sequence: i64,
    prepared: PreparedInputDelivery,
)
    requires
        prepared_as(new, delivery_id, thread_key, execution_id, sequence, prepared),
        inserted_as(row, new),
    ensures
        delivery_well_formed(row),
{
    assert(InputDeliveryState::Pending.name() == row.state@);
    law_state_names_are_distinct(InputDeliveryState::Pending, InputDeliveryState::Claimed);
    assert(texts(new.input_lines@).len() == prepared.input_lines@.len());
}

/// A change of a delivery: it is claimed, given up, flushed or failed by its
/// holder, its lease is renewed, it is bound to another boundary, or the
/// assignment that it goes to is recorded.
pub open spec fn delivery_changed(
    before: SessionInputDeliveryRow,
    after: SessionInputDeliveryRow,
    owner: String,
    words: Seq<char>,
    until: Timestamp,
    clock: Clock,
) -> bool {
    ||| delivery_taken(before, after, owner, until, clock) && unresolved(before.state@)
    ||| released(before, after, words, clock.now) && before.state@
        == InputDeliveryState::Claimed.name()
    ||| flushed(before, after, clock)
    ||| failed(before, after, words, clock)
    ||| after == delivery_renewed(before, before.execution_id@, owner@, until, clock)
    ||| exists|fingerprint: String|
        after == (SessionInputDeliveryRow {
            boundary_fingerprint: fingerprint,
            updated_at: clock.now,
            ..before
        })
    ||| exists|id: Option<String>, uid: Option<String>, epoch: Option<String>|
        after == (SessionInputDeliveryRow {
            sandbox_id: id,
            sandbox_resource_uid: uid,
            sandbox_assignment_epoch: epoch,
            updated_at: clock.now,
            ..before
        })
}

/// Every change keeps a delivery well formed.
pub proof fn law_deliveries_stay_well_formed(
    before: SessionInputDeliveryRow,
    after: SessionInputDeliveryRow,
    owner: String,
    words: Seq<char>,
    until: Timestamp,
    clock: Clock,
)
    requires
        delivery_well_formed(before),
        delivery_changed(before, after, owner, words, until, clock),
    ensures
        delivery_well_formed(after),
{
    law_unresolved_states(InputDeliveryState::Pending);
    law_unresolved_states(InputDeliveryState::Claimed);
    law_unresolved_states(InputDeliveryState::Ambiguous);
    law_unresolved_states(InputDeliveryState::Flushed);
    law_unresolved_states(InputDeliveryState::Failed);
    law_state_names_are_distinct(InputDeliveryState::Ambiguous, InputDeliveryState::Claimed);
    law_state_names_are_distinct(InputDeliveryState::Flushed, InputDeliveryState::Claimed);
    law_state_names_are_distinct(InputDeliveryState::Failed, InputDeliveryState::Claimed);
    assert(names_state(InputDeliveryState::Claimed.name()));
    assert(names_state(InputDeliveryState::Ambiguous.name()));
    assert(names_state(InputDeliveryState::Flushed.name()));
    assert(names_state(InputDeliveryState::Failed.name()));
}

// ---------------------------------------------------------------------------
// Executions
// ---------------------------------------------------------------------------

/// An execution is active and has no end, or is finished and has one.
pub open spec fn execution_well_formed(row: SessionExecutionRow) -> bool {
    ||| active(row.status@) && !finished(row.status@) && row.completed_at is None
    ||| finished(row.status@) && !active(row.status@) && row.completed_at is Some
}

/// A new execution, queued and without an end, is well formed.
pub proof fn law_new_execution_is_well_formed(row: SessionExecutionRow)
    requires
        row.status@ == ExecutionStatus::Queued.name(),
        row.completed_at is None,
    ensures
        execution_well_formed(row),
{
    law_statuses_are_active_or_finished(ExecutionStatus::Queued);
}

/// A change of an execution: it is started, taken with a delivery, owned, renewed
/// or released, a document is laid over its metadata, it is touched, it ends, or it
/// is concluded.
pub open spec fn execution_changed(
    before: SessionExecutionRow,
    after: SessionExecutionRow,
    owner: String,
    terminal: OwnedTerminalEvent,
    status: ExecutionStatus,
    error: Option<String>,
    metadata: Value,
    until: Timestamp,
    clock: Clock,
) -> bool {
    ||| execution_taken(before, after, owner, until, clock) && before.is_active()
    ||| {
        &&& before.is_active()
        &&& after.status@ == ExecutionStatus::Running.name()
        &&& after.completed_at == before.completed_at
    }
    ||| after == before.owned(owner, until, clock.now)
    ||| after == before.renewed(until, clock.now)
    ||| after == before.unowned(clock.now)
    ||| after == after_shutdown(before, owner@, clock.now)
    ||| metadata_merged(before, after, metadata, clock.now)
    ||| after == (SessionExecutionRow { updated_at: clock.now, ..before })
    ||| ended(before, after, terminal, clock.now)
    ||| concluded(before, after, status, error, clock.now) && (status
        == ExecutionStatus::Completed || status == ExecutionStatus::Failed)
}

/// Every change keeps an execution well formed, and none makes a finished one
/// active again.
pub proof fn law_executions_stay_well_formed(
    before: SessionExecutionRow,
    after: SessionExecutionRow,
    owner: String,
    terminal: OwnedTerminalEvent,
    status: ExecutionStatus,
    error: Option<String>,
    metadata: Value,
    until: Timestamp,
    clock: Clock,
)
    requires
        execution_well_formed(before),
        execution_changed(
            before,
            after,
            owner,
            terminal,
            status,
            error,
            metadata,
            until,
            clock,
        ),
    ensures
        execution_well_formed(after),
        finished(before.status@) ==> finished(after.status@),
{
    law_statuses_are_active_or_finished(terminal.status());
    law_statuses_are_active_or_finished(status);
    law_statuses_are_active_or_finished(ExecutionStatus::Running);
    law_statuses_are_active_or_finished(ExecutionStatus::Queued);
}

// ---------------------------------------------------------------------------
// Consents
// ---------------------------------------------------------------------------

/// A consent has an expiry exactly while it is enabled, and waits for a drain only
/// while it is not.
pub open spec fn consent_well_formed(consent: MetadataTraceConsent) -> bool {
    &&& consent.enabled == consent.expires_at is Some
    &&& consent.drain_pending ==> !consent.enabled
}

/// A consent is well formed once it was granted, revoked, recorded as expired, or
/// had its drain completed; for a grant and a drain the row before is.
pub proof fn law_consents_stay_well_formed(
    current: Option<MetadataTraceConsent>,
    actor: MetadataTraceActor,
    expires_at: Timestamp,
    expected_revision: Option<i64>,
    targets: Seq<MetadataTraceDrainTarget>,
    rows: Seq<TracedAssignmentRow>,
)
    requires
        current matches Some(row) ==> consent_well_formed(row),
    ensures
        granted(current, actor, expires_at, expected_revision) matches Ok(consent)
            ==> consent_well_formed(consent),
        consent_well_formed(with_drain(revoked_consent(current, actor), targets, rows)),
        current matches Some(row) ==> consent_well_formed(expired_consent(row, rows))
            && consent_well_formed(MetadataTraceConsent { drain_pending: false, ..row }),
{
}

/// The answer recorded for a well-formed consent is whole, so that it can be
/// replayed.
pub proof fn law_recorded_answers_are_whole(
    request: MetadataTraceConsentRequestRow,
    consent: MetadataTraceConsent,
    actor: MetadataTraceActor,
    revision: Option<i64>,
)
    requires
        consent_well_formed(consent),
    ensures
        recorded_result(actor, with_result(request, consent, revision)) is Ok,
{
}

// ---------------------------------------------------------------------------
// The trace configuration
// ---------------------------------------------------------------------------

/// The configuration has a positive generation, and an owner of its lease exactly
/// while there is a lease.
pub open spec fn config_well_formed(row: MetadataTraceConfigStateRow) -> bool {
    &&& row.generation > 0
    &&& row.reconciler_owner_id is Some == row.reconciler_lease_expires_at is Some
}

/// A newer generation and a lease keep the configuration well formed.
pub proof fn law_config_stays_well_formed(
    row: MetadataTraceConfigStateRow,
    identity: MetadataTraceConfigIdentity,
    owner: String,
    until: Timestamp,
    now: Timestamp,
)
    requires
        config_well_formed(row),
    ensures
        row.generation < identity.generation ==> config_well_formed(row.advanced(identity, now)),
        config_well_formed(row.leased(owner, until, now)),
{
}

// ---------------------------------------------------------------------------
// Assignments
// ---------------------------------------------------------------------------

/// A session without a sandbox has no identity, no trace boundary and no activity
/// of one.
pub open spec fn assignment_well_formed(sandbox: SandboxColumns) -> bool {
    sandbox.sandbox_id is None ==> {
        &&& sandbox.resource_uid is None
        &&& sandbox.assignment_epoch is None
        &&& sandbox.trace == no_trace()
        &&& sandbox.last_active_at is None
    }
}

/// Assigning, naming, clearing, draining, identifying and touching a sandbox all
/// leave a well-formed assignment.
pub proof fn law_assignments_stay_well_formed(
    sandbox: SandboxColumns,
    named: Option<String>,
    sandbox_id: String,
    resource_uid: Option<String>,
    epoch: String,
    capabilities: SandboxCapabilities,
    trace: TraceColumns,
    now: Timestamp,
)
    requires
        assignment_well_formed(sandbox),
    ensures
        assignment_well_formed(
            assigned(sandbox_id, resource_uid, epoch, capabilities, trace, now),
        ),
        assignment_well_formed(no_sandbox()),
        assignment_well_formed(
            SandboxColumns {
                sandbox_id: named,
                last_active_at: if named is Some {
                    Some(now)
                } else {
                    None
                },
                ..no_sandbox()
            },
        ),
        assignment_well_formed(
            SandboxColumns {
                sandbox_id: None,
                resource_uid: None,
                assignment_epoch: None,
                trace: no_trace(),
                last_active_at: None,
                ..sandbox
            },
        ),
        sandbox.sandbox_id is Some ==> assignment_well_formed(
            SandboxColumns { resource_uid, assignment_epoch: Some(epoch), ..sandbox },
        ) && assignment_well_formed(SandboxColumns { last_active_at: Some(now), ..sandbox }),
{
}

// ---------------------------------------------------------------------------
// The warm pool
// ---------------------------------------------------------------------------

/// A warm sandbox is in one of its states, and a claimed one knows its claimant.
pub open spec fn warm_well_formed(row: WarmSandboxRow) -> bool {
    &&& ready(row) || claimed(row) || evicting(row) || row.status@ == "failed"@
    &&& claimed(row) ==> row.claimed_thread_key is Some && row.claimed_at is Some
}

/// Claiming, reserving and retiring keep a warm sandbox well formed.
pub proof fn law_warm_sandboxes_stay_well_formed(
    before: WarmSandboxRow,
    after: WarmSandboxRow,
    thread_key: String,
    error: String,
    now: Timestamp,
)
    requires
        warm_well_formed(before),
        claimed_for(before, after, thread_key, now) || reserved(before, after, now) || retired(
            before,
            after,
            error,
            now,
        ),
    ensures
        warm_well_formed(after),
{
    law_warm_statuses_exclude_each_other(after);
}

} // verus!
