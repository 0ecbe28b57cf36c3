//! The flush of a claimed delivery into a sandbox's stdin.
//!
//! A flush begins only if the delivery, its execution, the sandbox assignment and
//! the trace boundary are all what the caller expects; the rows stay locked until
//! the flush commits or is rolled back, and both the wait and the write are
//! bounded by a deadline.
use crate::assignment::SandboxAssignmentIdentity;
use crate::consent::{
    consent_belongs, is_consent_of, read_recorded_actor, recorded_actor,
    MetadataTraceAssignmentActor, MetadataTraceConsent,
};
use crate::delivery::{flushed, held, is_held, mark_flushed};
use crate::error::SessionStoreError;
use crate::json::{
    integer_document, json_contents, members_map, object_document, text_document, JsonContents,
};
use crate::model::{Clock, ExecutionStatus, SandboxCapabilities, Timestamp};
use crate::rows::{
    NewSessionEvent, SandboxColumns, SessionExecutionRow, SessionInputDeliveryRow, SessionRow,
};
use crate::text::{copy_opt, holds, opt_text_is, same_opt, same_opt_text, same_text};
use crate::time::{remaining, time_left};
use crate::trace_config::{boundary_config, boundary_config_is_active, MetadataTraceConfigStateRow};
use crate::truth::Truth;
use vstd::prelude::*;

verus! {

/// The longest time a flush may take, in nanoseconds: thirty seconds.
pub const FLUSH_WINDOW: i128 = 30_000_000_000;

/// What the caller holds and expects.
#[derive(Clone, Debug)]
pub struct FlushRequest {
    pub delivery_id: String,
    pub owner_id: String,
    pub owner_generation: i64,
    pub sandbox_id: String,
    pub boundary_fingerprint: String,
    pub assignment: SandboxAssignmentIdentity,
}

/// The consent of the traced actor, if there is one, and the active configuration.
#[derive(Debug)]
pub struct TraceFence {
    pub consent: Option<MetadataTraceConsent>,
    pub config: Option<MetadataTraceConfigStateRow>,
}

/// The rows of a flush, each if it was found. The trace fence is looked up only
/// for a traced sandbox, and only if the delivery's session was found.
#[derive(Debug)]
pub struct FlushRows {
    pub trace: Option<TraceFence>,
    pub session: Option<SessionRow>,
    pub execution: Option<SessionExecutionRow>,
    pub delivery: Option<SessionInputDeliveryRow>,
}

/// Holds what a flush may commit, and until when.
#[derive(Debug)]
pub struct InputDeliveryFlushGuard {
    pub delivery_id: String,
    pub owner_id: String,
    pub owner_generation: i64,
    pub thread_key: String,
    pub execution_id: String,
    pub deadline: Timestamp,
}

/// A flush that has begun: the delivery row to be written, and the guard.
#[derive(Debug)]
pub struct FlushStart {
    pub delivery: SessionInputDeliveryRow,
    pub guard: InputDeliveryFlushGuard,
}

/// The session's trace boundary is the expected one, column by column.
pub open spec fn trace_matches(sandbox: SandboxColumns, expected: SandboxCapabilities) -> bool {
    &&& sandbox.trace.enabled == Some(expected.metadata_trace_enabled)
    &&& sandbox.trace.expires_at == expected.metadata_trace_expires_at
    &&& same_opt(sandbox.trace.subject_hash, expected.metadata_trace_subject_hash)
    &&& sandbox.trace.consent_revision == expected.metadata_trace_consent_revision
    &&& same_opt(sandbox.trace.config_fingerprint, expected.metadata_trace_config_fingerprint)
    &&& sandbox.trace.config_generation == expected.metadata_trace_config_generation
}

/// The session's assignment is exactly the one whose pipe the caller has.
pub open spec fn assignment_matches(sandbox: SandboxColumns, request: FlushRequest) -> bool {
    &&& holds(sandbox.sandbox_id, request.sandbox_id@)
    &&& holds(sandbox.assignment_epoch, request.assignment.assignment_epoch@)
    &&& same_opt(sandbox.resource_uid, request.assignment.resource_uid)
}

/// The rows belong together: they are the delivery that the caller asked for, its
/// execution and its session.
pub open spec fn rows_belong(
    session: SessionRow,
    execution: SessionExecutionRow,
    delivery: SessionInputDeliveryRow,
    request: FlushRequest,
) -> bool {
    &&& delivery.delivery_id@ == request.delivery_id@
    &&& execution.execution_id@ == delivery.execution_id@
    &&& session.thread_key@ == delivery.thread_key@
}

/// Delivery, execution, assignment and trace boundary are what the caller expects.
pub open spec fn flush_valid(
    session: SessionRow,
    execution: SessionExecutionRow,
    delivery: SessionInputDeliveryRow,
    request: FlushRequest,
    expected: SandboxCapabilities,
    at: Timestamp,
) -> bool {
    &&& rows_belong(session, execution, delivery, request)
    &&& execution.status@ == ExecutionStatus::Running.name()
    &&& held(delivery, request.owner_id@, request.owner_generation, at)
    &&& delivery.boundary_fingerprint@ == request.boundary_fingerprint@
    &&& assignment_matches(session.sandbox, request)
    &&& trace_matches(session.sandbox, expected)
}

/// The time until which a consent lets the expected boundary write, if it does.
pub open spec fn consent_deadline(
    consent: Option<MetadataTraceConsent>,
    expected: SandboxCapabilities,
    at: Timestamp,
) -> Option<Timestamp> {
    match consent {
        None => None,
        Some(row) => if row.enabled && !row.drain_pending && row.revision == (
        match expected.metadata_trace_consent_revision {
            Some(revision) => revision,
            None => 0,
        }) && row.expires_at == expected.metadata_trace_expires_at && (
        row.expires_at matches Some(expiry) && expiry > at) {
            row.expires_at
        } else {
            None
        },
    }
}

/// The earlier of the flush window's end and the consent's, if there is one.
pub open spec fn flush_deadline(started_at: Timestamp, consent: Option<Timestamp>) -> Timestamp {
    let window = (started_at + FLUSH_WINDOW) as i128;
    match consent {
        Some(expiry) => if expiry < window {
            expiry
        } else {
            window
        },
        None => window,
    }
}

/// The consent that a flush depends on: that of a traced sandbox.
pub open spec fn flush_consent(rows: FlushRows, expected: SandboxCapabilities) -> Option<
    MetadataTraceConsent,
> {
    match rows.trace {
        Some(fence) if expected.metadata_trace_enabled => fence.consent,
        _ => None,
    }
}

/// The session of a traced sandbox does not record the whole actor.
pub open spec fn lacks_actor(rows: FlushRows, expected: SandboxCapabilities) -> bool {
    expected.metadata_trace_enabled && (rows.session matches Some(session) && recorded_actor(
        session.sandbox.trace,
    ) is None)
}

/// The configuration lets a traced sandbox write, or the sandbox is not traced. It
/// is not looked at while the actor is not known.
pub open spec fn flush_config(rows: FlushRows, expected: SandboxCapabilities) -> Truth {
    if !expected.metadata_trace_enabled {
        Truth::True
    } else if lacks_actor(rows, expected) {
        Truth::Unknown
    } else {
        match rows.trace {
            None => Truth::False,
            Some(fence) => boundary_config(
                fence.config,
                expected.metadata_trace_config_generation,
                expected.metadata_trace_config_fingerprint,
            ),
        }
    }
}

/// A flush may begin: everything is what the caller expects, and a traced sandbox
/// has the live consent of its own actor.
pub open spec fn flush_may_begin(
    rows: FlushRows,
    request: FlushRequest,
    expected: SandboxCapabilities,
    at: Timestamp,
) -> bool {
    match (rows.session, rows.execution, rows.delivery) {
        (Some(session), Some(execution), Some(delivery)) => {
            &&& flush_valid(session, execution, delivery, request, expected, at)
            &&& expected.metadata_trace_enabled ==> {
                &&& consent_deadline(flush_consent(rows, expected), expected, at) is Some
                &&& recorded_actor(session.sandbox.trace) matches Some(actor)
                &&& consent_belongs(flush_consent(rows, expected), actor)
            }
        },
        _ => false,
    }
}

/// The flush that begins: the delivery records the assignment that it goes to, and
/// the guard holds what was asked for.
pub open spec fn flush_begun(
    start: FlushStart,
    rows: FlushRows,
    request: FlushRequest,
    expected: SandboxCapabilities,
    started_at: Timestamp,
    at: Timestamp,
    now: Timestamp,
) -> bool {
    let session = rows.session->0;
    &&& start.delivery == (SessionInputDeliveryRow {
        sandbox_id: session.sandbox.sandbox_id,
        sandbox_resource_uid: session.sandbox.resource_uid,
        sandbox_assignment_epoch: session.sandbox.assignment_epoch,
        updated_at: now,
        ..rows.delivery->0
    })
    &&& start.guard == (InputDeliveryFlushGuard {
        delivery_id: request.delivery_id,
        owner_id: request.owner_id,
        owner_generation: request.owner_generation,
        thread_key: session.thread_key,
        execution_id: rows.execution->0.execution_id,
        deadline: flush_deadline(
            started_at,
            consent_deadline(flush_consent(rows, expected), expected, at),
        ),
    })
}

fn is_trace_matching(sandbox: &SandboxColumns, expected: &SandboxCapabilities) -> (is: bool)
    ensures
        is == trace_matches(*sandbox, *expected),
{
    sandbox.trace.enabled == Some(expected.metadata_trace_enabled) && sandbox.trace.expires_at
        == expected.metadata_trace_expires_at && same_opt_text(
        &sandbox.trace.subject_hash,
        &expected.metadata_trace_subject_hash,
    ) && sandbox.trace.consent_revision == expected.metadata_trace_consent_revision
        && same_opt_text(
        &sandbox.trace.config_fingerprint,
        &expected.metadata_trace_config_fingerprint,
    ) && sandbox.trace.config_generation == expected.metadata_trace_config_generation
}

fn is_assignment_matching(sandbox: &SandboxColumns, request: &FlushRequest) -> (is: bool)
    ensures
        is == assignment_matches(*sandbox, *request),
{
    opt_text_is(&sandbox.sandbox_id, request.sandbox_id.as_str()) && opt_text_is(
        &sandbox.assignment_epoch,
        request.assignment.assignment_epoch.as_str(),
    ) && same_opt_text(&sandbox.resource_uid, &request.assignment.resource_uid)
}

/// The time until which a consent lets the expected boundary write, if it does.
pub fn consent_write_deadline(
    consent: &Option<MetadataTraceConsent>,
    expected: &SandboxCapabilities,
    at: Timestamp,
) -> (deadline: Option<Timestamp>)
    ensures
        deadline == consent_deadline(*consent, *expected, at),
{
    match consent {
        None => None,
        Some(row) => {
            let revision: i64 = match expected.metadata_trace_consent_revision {
                Some(revision) => revision,
                None => 0,
            };
            let live = match row.expires_at {
                Some(expiry) => expiry > at,
                None => false,
            };
            if row.enabled && !row.drain_pending && row.revision == revision && row.expires_at
                == expected.metadata_trace_expires_at && live {
                row.expires_at
            } else {
                None
            }
        },
    }
}

/// Begins a flush on the locked rows. Without one of them, with a configuration
/// that is not the boundary's, or with anything else than the caller expects,
/// there is none. A traced session without its whole actor is an error, and so is a
/// boundary whose configuration cannot be compared.
/// `started_at` and `observed_at` are the caller's own clock before and after the
/// locks were taken.
pub fn begin_input_delivery_flush(
    rows: FlushRows,
    request: FlushRequest,
    expected: &SandboxCapabilities,
    started_at: Timestamp,
    observed_at: Timestamp,
    now: Timestamp,
) -> (start: Result<Option<FlushStart>, SessionStoreError>)
    requires
        started_at <= i128::MAX - FLUSH_WINDOW,
    ensures
        match flush_config(rows, *expected) {
            Truth::Unknown => start == Err::<Option<FlushStart>, SessionStoreError>(
                SessionStoreError::UnexpectedNull,
            ),
            Truth::False => start == Ok::<Option<FlushStart>, SessionStoreError>(None),
            Truth::True => if flush_may_begin(rows, request, *expected, observed_at) {
                &&& start matches Ok(Some(begun))
                &&& flush_begun(begun, rows, request, *expected, started_at, observed_at, now)
            } else {
                start == Ok::<Option<FlushStart>, SessionStoreError>(None)
            },
        },
        start matches Ok(Some(_)) ==> {
            let trace = rows.session->0.sandbox.trace;
            &&& trace.enabled == Some(expected.metadata_trace_enabled)
            &&& trace.expires_at == expected.metadata_trace_expires_at
            &&& trace.subject_hash is Some <==> expected.metadata_trace_subject_hash is Some
            &&& trace.subject_hash is Some ==> trace.subject_hash->0@
                == expected.metadata_trace_subject_hash->0@
            &&& trace.consent_revision == expected.metadata_trace_consent_revision
            &&& trace.config_fingerprint is Some
                <==> expected.metadata_trace_config_fingerprint is Some
            &&& trace.config_fingerprint is Some ==> trace.config_fingerprint->0@
                == expected.metadata_trace_config_fingerprint->0@
            &&& trace.config_generation == expected.metadata_trace_config_generation
        },
        start is Err ==> expected.metadata_trace_enabled,
        expected.metadata_trace_enabled && rows.session is Some && (
        rows.session->0.sandbox.trace.source is None
            || rows.session->0.sandbox.trace.workspace_id is None
            || rows.session->0.sandbox.trace.user_id is None
            || rows.session->0.sandbox.trace.assignment_epoch is None
            || rows.session->0.sandbox.trace.resource_uid is None) ==> start is Err,
        !expected.metadata_trace_enabled && flush_may_begin(rows, request, *expected, observed_at)
            ==> start matches Ok(Some(_)),
        start matches Ok(Some(begun)) ==> {
            let execution = rows.execution->0;
            let delivery = rows.delivery->0;
            &&& execution.status@ == "running"@
            &&& execution.execution_id@ == delivery.execution_id@
            &&& delivery.delivery_id@ == request.delivery_id@
            &&& delivery.state@ == "claimed"@
            &&& delivery.owner_id is Some && delivery.owner_id->0@ == request.owner_id@
            &&& delivery.owner_generation == request.owner_generation
            &&& delivery.owner_lease_expires_at is Some && delivery.owner_lease_expires_at->0
                > observed_at
            &&& delivery.boundary_fingerprint@ == request.boundary_fingerprint@
            &&& begun.delivery.sandbox_id is Some && begun.delivery.sandbox_id->0@
                == request.sandbox_id@
            &&& begun.guard.delivery_id == request.delivery_id
            &&& begun.guard.deadline <= started_at + FLUSH_WINDOW
            &&& !expected.metadata_trace_enabled
                ==> begun.guard.deadline == started_at + FLUSH_WINDOW
            &&& expected.metadata_trace_enabled ==> (rows.trace is Some
                && rows.trace->0.consent is Some
                && rows.trace->0.consent->0.enabled && !rows.trace->0.consent->0.drain_pending
                && rows.trace->0.consent->0.expires_at is Some && begun.guard.deadline
                <= rows.trace->0.consent->0.expires_at->0)
        },
        expected.metadata_trace_enabled && rows.trace is Some && rows.trace->0.config is Some
            && (expected.metadata_trace_config_generation is Some
            ==> expected.metadata_trace_config_generation->0
            == rows.trace->0.config->0.generation) && (
        expected.metadata_trace_config_generation is None
            || expected.metadata_trace_config_fingerprint is None) && (
        expected.metadata_trace_config_fingerprint is Some
            ==> expected.metadata_trace_config_fingerprint->0@
            == rows.trace->0.config->0.config_fingerprint@) ==> start is Err,
        start is Err ==> start == Err::<Option<FlushStart>, SessionStoreError>(
            SessionStoreError::UnexpectedNull,
        ),
        start matches Ok(Some(_)) ==> (expected.metadata_trace_enabled ==> rows.trace is Some
            && rows.trace->0.config is Some && expected.metadata_trace_config_generation == Some(
            rows.trace->0.config->0.generation,
        )),
{
    let mut consent: Option<MetadataTraceConsent> = None;
    let mut actor: Option<MetadataTraceAssignmentActor> = None;
    if expected.metadata_trace_enabled {
        if let Some(session) = &rows.session {
            actor = read_recorded_actor(&session.sandbox.trace);
            if actor.is_none() {
                return Err(SessionStoreError::UnexpectedNull);
            }
        }
        match rows.trace {
            None => return Ok(None),
            Some(fence) => {
                match boundary_config_is_active(
                    &fence.config,
                    expected.metadata_trace_config_generation,
                    &expected.metadata_trace_config_fingerprint,
                ) {
                    Truth::Unknown => return Err(SessionStoreError::UnexpectedNull),
                    Truth::False => return Ok(None),
                    Truth::True => {},
                }
                consent = fence.consent;
            },
        }
    }
    let (session, execution, delivery) = match (rows.session, rows.execution, rows.delivery) {
        (Some(session), Some(execution), Some(delivery)) => (session, execution, delivery),
        _ => return Ok(None),
    };
    let belong = same_text(delivery.delivery_id.as_str(), request.delivery_id.as_str())
        && same_text(execution.execution_id.as_str(), delivery.execution_id.as_str()) && same_text(
        session.thread_key.as_str(),
        delivery.thread_key.as_str(),
    );
    let valid = belong && same_text(execution.status.as_str(), ExecutionStatus::Running.as_ref()) && is_held(
        &delivery,
        request.owner_id.as_str(),
        request.owner_generation,
        observed_at,
    ) && same_text(
        delivery.boundary_fingerprint.as_str(),
        request.boundary_fingerprint.as_str(),
    ) && is_assignment_matching(&session.sandbox, &request) && is_trace_matching(
        &session.sandbox,
        expected,
    );
    let until = consent_write_deadline(&consent, expected, observed_at);
    let consented = match &actor {
        None => true,
        Some(actor) => until.is_some() && is_consent_of(&consent, actor),
    };
    if !valid || !consented {
        return Ok(None);
    }
    let window: i128 = started_at + FLUSH_WINDOW;
    let deadline: i128 = match until {
        Some(expiry) => if expiry < window {
            expiry
        } else {
            window
        },
        None => window,
    };
    let mut delivery = delivery;
    delivery.sandbox_id = copy_opt(&session.sandbox.sandbox_id);
    delivery.sandbox_resource_uid = copy_opt(&session.sandbox.resource_uid);
    delivery.sandbox_assignment_epoch = copy_opt(&session.sandbox.assignment_epoch);
    delivery.updated_at = now;
    Ok(
        Some(
            FlushStart {
                delivery,
                guard: InputDeliveryFlushGuard {
                    delivery_id: request.delivery_id,
                    owner_id: request.owner_id,
                    owner_generation: request.owner_generation,
                    thread_key: session.thread_key,
                    execution_id: execution.execution_id,
                    deadline,
                },
            },
        ),
    )
}

/// The event of a committed flush: which delivery it was, and the fingerprint and
/// count of its lines.
pub open spec fn flushed_event(
    event: NewSessionEvent,
    guard: InputDeliveryFlushGuard,
    delivery: SessionInputDeliveryRow,
) -> bool {
    &&& event.thread_key == guard.thread_key
    &&& event.execution_id == Some(guard.execution_id)
    &&& event.event_type@ == "session.input_flushed"@
    &&& json_contents(event.payload) matches JsonContents::Object(members)
    &&& members.dom() == set!["delivery_id"@, "input_sha256"@, "input_line_count"@]
    &&& json_contents(members["delivery_id"@]) == JsonContents::Text(delivery.delivery_id@)
    &&& json_contents(members["input_sha256"@]) == JsonContents::Text(delivery.input_sha256@)
    &&& json_contents(members["input_line_count"@]) == if delivery.input_line_count >= 0 {
        JsonContents::Unsigned(delivery.input_line_count as u64)
    } else {
        JsonContents::OtherNumber
    }
}

impl InputDeliveryFlushGuard {
    /// The whole seconds that are left, if any time is left.
    pub fn remaining(&self, now: Timestamp) -> (left: Option<u64>)
        ensures
            left == time_left(self.deadline, now),
    {
        remaining(self.deadline, now)
    }

    /// The guard may commit: the row is its delivery, still held under the
    /// generation of the claim with time left.
    pub open spec fn may_commit(self, row: SessionInputDeliveryRow, at: Timestamp) -> bool {
        row.delivery_id@ == self.delivery_id@ && held(row, self.owner_id@, self.owner_generation, at)
    }

    /// Makes the exact delivery durable and gives the replayable event of it, to be
    /// inserted in the same transaction. A stale owner or generation gets neither.
    pub fn commit(&self, row: &mut SessionInputDeliveryRow, clock: Clock) -> (event: Option<
        NewSessionEvent,
    >)
        ensures
            if self.may_commit(*old(row), clock.wall) {
                &&& flushed(*old(row), *final(row), clock)
                &&& event matches Some(made)
                &&& flushed_event(made, *self, *old(row))
            } else {
                event is None && *final(row) == *old(row)
            },
            event is Some <==> old(row).delivery_id@ == self.delivery_id@
                && old(row).state@ == "claimed"@
                && old(row).owner_id is Some && old(row).owner_id->0@ == self.owner_id@
                && old(row).owner_generation == self.owner_generation
                && old(row).owner_lease_expires_at is Some && old(row).owner_lease_expires_at->0
                > clock.wall,
            event is Some ==> final(row).state@ == "flushed"@ && final(row).owner_id is None
                && final(row).flushed_at == Some(clock.wall)
                    && json_contents(final(row).input_lines)
                == JsonContents::Array(Seq::empty()),
    {
        if !same_text(row.delivery_id.as_str(), self.delivery_id.as_str()) || !is_held(
            row,
            self.owner_id.as_str(),
            self.owner_generation,
            clock.wall,
        ) {
            return None;
        }
        mark_flushed(row, clock);
        let delivery_id = text_document(row.delivery_id.clone());
        let input_sha256 = text_document(row.input_sha256.clone());
        let input_line_count = integer_document(row.input_line_count);
        let mut members = Vec::new();
        members.push(("delivery_id".to_owned(), delivery_id));
        members.push(("input_sha256".to_owned(), input_sha256));
        members.push(("input_line_count".to_owned(), input_line_count));
        proof {
            reveal_strlit("delivery_id");
            reveal_strlit("input_sha256");
            reveal_strlit("input_line_count");
            assert("delivery_id"@.len() == 11 && "input_sha256"@.len() == 12
                && "input_line_count"@.len() == 16);
            assert(members@.drop_last().drop_last().drop_last() =~= Seq::empty());
            reveal_with_fuel(members_map, 4);
            assert(members_map(members@).dom() =~= set![
                "delivery_id"@,
                "input_sha256"@,
                "input_line_count"@,
            ]);
        }
        Some(
            NewSessionEvent {
                thread_key: self.thread_key.clone(),
                execution_id: Some(self.execution_id.clone()),
                event_type: "session.input_flushed".to_owned(),
                payload: object_document(members),
            },
        )
    }
}

} // verus!
