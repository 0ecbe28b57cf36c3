//! What the rules on messages, on enqueueing input and on writing to a traced sandbox
//! come to, column by column.
use crate::consent::MetadataTraceConsent;
use crate::creation::{
    enqueue_step_is, initial_delivery_is, is_active_of, is_next_sequence, replace_step_is,
    sequence_overflows, EnqueueStep, InitialDelivery, ReplaceStep,
};
use crate::delivery::{readable, row_matches_prepared, FoundDelivery, PreparedInputDelivery};
use crate::delivery_columns::law_owed_deliveries;
use crate::error::SessionStoreError;
use crate::execution_columns::law_end_conditions;
use crate::json::{json_array, json_equal, json_items};
use crate::messages::{
    all_parts, documents_of, is_message, is_written_by, message_row, stored_as, untitled,
    PersistedPreparedMessageRow,
};
use crate::model::{
    MessageRole, SandboxCapabilities, SessionEvent, SessionMessage, SessionMessageInput, ThreadKey,
    Timestamp,
};
use crate::notification::{notification_read, SessionEventNotification};
use crate::ordering::{in_order, law_order_is_by_time, law_order_keeps_the_values};
use crate::rows::{
    event_read, message_read, SessionEventRow, SessionExecutionRow, SessionInputDeliveryRow,
    SessionMessageRow, SessionMessageRowParses, SessionRow,
};
use crate::trace_config::MetadataTraceConfigStateRow;
use crate::trace_input::{
    boundary_is, is_traced_pipe, may_write_input, pipe_actor, trace_input_locked,
    ExecutionTraceBoundary, MetadataTraceInputGuard, TraceInputRequest,
};
use serde_json::Value;
use vstd::prelude::*;

verus! {

// ---------------------------------------------------------------------------
// Writing to a traced sandbox
// ---------------------------------------------------------------------------

/// A pipe is the one asked for exactly if the session and its queued or running
/// execution are those named, the session has that sandbox traced under that epoch
/// and resource, and its trace boundary is the expected one in each column.
pub proof fn law_traced_pipe_conditions(
    session: SessionRow,
    execution: SessionExecutionRow,
    request: TraceInputRequest,
    expected: SandboxCapabilities,
)
    ensures
        ({
            let trace = session.sandbox.trace;
            is_traced_pipe(session, execution, request, expected) <==> {
                &&& execution.execution_id@ == request.execution_id@
                &&& execution.thread_key@ == session.thread_key@
                &&& session.thread_key@ == request.thread_key.value@
                &&& execution.status@ == "queued"@ || execution.status@ == "running"@
                &&& session.sandbox.sandbox_id is Some && session.sandbox.sandbox_id->0@
                    == request.sandbox_id@
                &&& trace.enabled == Some(true)
                &&& trace.assignment_epoch is Some && trace.assignment_epoch->0@
                    == request.assignment_epoch@
                &&& trace.resource_uid is Some && trace.resource_uid->0@ == request.resource_uid@
                &&& trace.subject_hash is Some <==> expected.metadata_trace_subject_hash is Some
                &&& trace.subject_hash is Some ==> trace.subject_hash->0@
                    == expected.metadata_trace_subject_hash->0@
                &&& trace.consent_revision == expected.metadata_trace_consent_revision
                &&& trace.expires_at == expected.metadata_trace_expires_at
                &&& trace.config_fingerprint is Some
                    <==> expected.metadata_trace_config_fingerprint is Some
                &&& trace.config_fingerprint is Some ==> trace.config_fingerprint->0@
                    == expected.metadata_trace_config_fingerprint->0@
                &&& trace.config_generation == expected.metadata_trace_config_generation
            }
        }),
{
}

/// A lock on a traced pipe is given exactly if the pipe is the one asked for with its
/// whole actor recorded, that actor's consent is on, not draining, of the expected
/// revision and expiry and not over, and the active configuration is the boundary's.
/// It lasts until the consent expires, and names the epoch and resource of the pipe.
pub proof fn law_trace_lock_conditions(
    session: Option<SessionRow>,
    execution: Option<SessionExecutionRow>,
    consent: Option<MetadataTraceConsent>,
    config: Option<MetadataTraceConfigStateRow>,
    request: TraceInputRequest,
    expected: SandboxCapabilities,
    at: Timestamp,
)
    ensures
        ({
            let locked = trace_input_locked(
                session,
                execution,
                consent,
                config,
                request,
                expected,
                at,
            );
            let trace = session->0.sandbox.trace;
            let pipe = session is Some && execution is Some && is_traced_pipe(
                session->0,
                execution->0,
                request,
                expected,
            ) && trace.source is Some && trace.workspace_id is Some && trace.user_id is Some;
            let consented = consent is Some && consent->0.enabled && !consent->0.drain_pending
                && consent->0.revision == (if expected.metadata_trace_consent_revision is Some {
                expected.metadata_trace_consent_revision->0
            } else {
                0
            }) && consent->0.expires_at == expected.metadata_trace_expires_at
                && consent->0.expires_at is Some && consent->0.expires_at->0 > at
                && consent->0.source@ == trace.source->0@ && consent->0.workspace_id@
                == trace.workspace_id->0@ && consent->0.user_id@ == trace.user_id->0@;
            let generation = expected.metadata_trace_config_generation;
            let fingerprint = expected.metadata_trace_config_fingerprint;
            let configured = config is Some && generation == Some(config->0.generation)
                && fingerprint is Some && fingerprint->0@ == config->0.config_fingerprint@;
            let refuted = config is None || (generation is Some && generation->0
                != config->0.generation) || (fingerprint is Some && fingerprint->0@
                != config->0.config_fingerprint@);
            &&& pipe && consented && configured ==> locked is Ok && locked->Ok_0 is Some
            &&& !pipe || !consented || refuted ==> locked == Ok::<
                Option<MetadataTraceInputGuard>,
                SessionStoreError,
            >(None)
            &&& pipe && consented && !configured && !refuted ==> locked == Err::<
                Option<MetadataTraceInputGuard>,
                SessionStoreError,
            >(SessionStoreError::UnexpectedNull)
            &&& locked matches Ok(Some(guard)) ==> {
                &&& consent->0.expires_at == Some(guard.deadline)
                &&& guard.assignment_epoch@ == request.assignment_epoch@
                &&& guard.resource_uid@ == request.resource_uid@
            }
        }),
{
}

/// The actor of a pipe is told exactly if the pipe is the one asked for and the actor
/// is recorded, and is the recorded one.
pub proof fn law_pipe_actor_columns(
    session: Option<SessionRow>,
    execution: Option<SessionExecutionRow>,
    request: TraceInputRequest,
    expected: SandboxCapabilities,
)
    ensures
        ({
            let actor = pipe_actor(session, execution, request, expected);
            let trace = session->0.sandbox.trace;
            &&& actor is Some <==> session is Some && execution is Some && is_traced_pipe(
                session->0,
                execution->0,
                request,
                expected,
            ) && trace.source is Some && trace.workspace_id is Some && trace.user_id is Some
            &&& actor is Some ==> {
                &&& trace.source == Some(actor->0.source)
                &&& trace.workspace_id == Some(actor->0.workspace_id)
                &&& trace.user_id == Some(actor->0.user_id)
                &&& trace.assignment_epoch == Some(actor->0.assignment_epoch)
                &&& trace.resource_uid == Some(actor->0.resource_uid)
            }
        }),
{
}

/// Plain input may be written exactly if no delivery of the execution is pending,
/// claimed or ambiguous, the execution is queued or running, and its recorded boundary
/// is the expected one in each column; and for a traced one, only while the boundary
/// lasts and the active configuration is its own.
pub proof fn law_plain_input_conditions(
    execution: SessionExecutionRow,
    deliveries: Seq<SessionInputDeliveryRow>,
    boundary: ExecutionTraceBoundary,
    expected: SandboxCapabilities,
    config: Option<MetadataTraceConfigStateRow>,
    now: Timestamp,
)
    ensures
        may_write_input(execution, deliveries, boundary, expected, config, now) <==> {
            &&& forall|i: int|
                0 <= i < deliveries.len() && (#[trigger] deliveries[i]).execution_id@
                    == execution.execution_id@ ==> deliveries[i].state@ != "pending"@
                    && deliveries[i].state@ != "claimed"@ && deliveries[i].state@ != "ambiguous"@
            &&& execution.status@ == "queued"@ || execution.status@ == "running"@
            &&& boundary_is(boundary, expected)
            &&& expected.metadata_trace_enabled ==> {
                &&& boundary.expires_at is Some && boundary.expires_at->0 > now
                &&& config is Some
                &&& expected.metadata_trace_config_generation == Some(config->0.generation)
                &&& expected.metadata_trace_config_fingerprint is Some
                    && expected.metadata_trace_config_fingerprint->0@
                    == config->0.config_fingerprint@
            }
        },
        boundary_is(boundary, expected) <==> {
            &&& boundary.enabled == expected.metadata_trace_enabled
            &&& boundary.subject_hash is Some <==> expected.metadata_trace_subject_hash is Some
            &&& boundary.subject_hash is Some ==> boundary.subject_hash->0@
                == expected.metadata_trace_subject_hash->0@
            &&& boundary.consent_revision == expected.metadata_trace_consent_revision
            &&& boundary.expires_at == expected.metadata_trace_expires_at
            &&& boundary.config_fingerprint is Some
                <==> expected.metadata_trace_config_fingerprint is Some
            &&& boundary.config_fingerprint is Some ==> boundary.config_fingerprint->0@
                == expected.metadata_trace_config_fingerprint->0@
            &&& boundary.config_generation == expected.metadata_trace_config_generation
        },
{
    law_owed_deliveries(deliveries, execution.execution_id@);
}

// ---------------------------------------------------------------------------
// Creating deliveries
// ---------------------------------------------------------------------------

/// The next sequence of an execution is zero for its first delivery and one more than
/// the highest after that. There is exactly one, unless the highest is the last one
/// that can be counted.
pub proof fn law_next_sequence(
    deliveries: Seq<SessionInputDeliveryRow>,
    execution_id: Seq<char>,
    next: int,
    other: int,
)
    requires
        is_next_sequence(next, deliveries, execution_id),
    ensures
        is_next_sequence(other, deliveries, execution_id) ==> other == next,
        forall|i: int|
            0 <= i < deliveries.len() && (#[trigger] deliveries[i]).execution_id@ == execution_id
                ==> deliveries[i].sequence < next,
        (forall|i: int|
            0 <= i < deliveries.len() ==> (#[trigger] deliveries[i]).execution_id@ != execution_id)
            ==> next == 0,
        (exists|i: int|
            0 <= i < deliveries.len() && (#[trigger] deliveries[i]).execution_id@ == execution_id)
            ==> exists|i: int|
            0 <= i < deliveries.len() && (#[trigger] deliveries[i]).execution_id@ == execution_id
                && deliveries[i].sequence + 1 == next,
        sequence_overflows(deliveries, execution_id) <==> exists|i: int|
            0 <= i < deliveries.len() && (#[trigger] deliveries[i]).execution_id@ == execution_id
                && deliveries[i].sequence == i64::MAX,
{
}

/// An execution is an active one of the thread exactly if it was found under that id
/// and thread, queued or running.
pub proof fn law_active_of_conditions(
    execution: Option<SessionExecutionRow>,
    thread_key: Seq<char>,
    execution_id: Seq<char>,
)
    ensures
        is_active_of(execution, thread_key, execution_id) <==> {
            &&& execution is Some
            &&& execution->0.execution_id@ == execution_id
            &&& execution->0.thread_key@ == thread_key
            &&& execution->0.status@ == "queued"@ || execution->0.status@ == "running"@
        },
{
}

/// The first delivery of an execution: one stored before is handed out only if it is
/// the first of that very execution and carries the same payload, else the request
/// conflicts; without one, it is inserted at sequence zero for an execution just
/// created, and missing for one that was there.
pub proof fn law_initial_delivery_conditions(
    outcome: Result<InitialDelivery, SessionStoreError>,
    execution_id: String,
    created: bool,
    existing: Option<FoundDelivery>,
    thread_key: String,
    prepared: PreparedInputDelivery,
    delivery_id: String,
)
    requires
        initial_delivery_is(
            outcome,
            execution_id,
            created,
            existing,
            thread_key,
            prepared,
            delivery_id,
        ),
    ensures
        outcome matches Ok(InitialDelivery::Existing(delivery)) ==> {
            &&& existing is Some
            &&& existing->0.row.execution_id@ == execution_id@
            &&& existing->0.row.sequence == 0
            &&& row_matches_prepared(existing->0.row, prepared)
            &&& delivery.delivery_id == existing->0.row.delivery_id
            &&& delivery.sequence == 0
            &&& delivery.execution_id@ == execution_id@
        },
        outcome matches Ok(InitialDelivery::Insert(new)) ==> {
            &&& existing is None
            &&& created
            &&& new.sequence == 0
            &&& new.delivery_id == delivery_id
            &&& new.thread_key == thread_key
            &&& new.execution_id == execution_id
            &&& new.idempotency_key == prepared.idempotency_key
        },
        existing is Some && readable(existing->0.row, existing->0.thread_key) && (
        existing->0.row.execution_id@ != execution_id@ || existing->0.row.sequence != 0
            || !row_matches_prepared(existing->0.row, prepared)) ==> outcome == Err::<
            InitialDelivery,
            SessionStoreError,
        >(SessionStoreError::InputDeliveryIdempotencyConflict),
        existing is None && !created ==> outcome == Err::<InitialDelivery, SessionStoreError>(
            SessionStoreError::InputDeliveryMissingForExistingExecution { execution_id },
        ),
        existing is None && created ==> outcome is Ok,
        existing is Some && !readable(existing->0.row, existing->0.thread_key) ==> outcome is Err,
        existing is Some && readable(existing->0.row, existing->0.thread_key)
            && existing->0.row.execution_id@ == execution_id@ && existing->0.row.sequence == 0
            && row_matches_prepared(existing->0.row, prepared) ==> outcome is Ok,
{
}

/// An enqueue for an execution that is not queued or running, or not the thread's, comes
/// to nothing, whatever was stored. For one that is, a stored delivery is handed out only
/// if it is that execution's and carries the same payload, else the request conflicts;
/// without one the messages are stored.
pub proof fn law_enqueue_conditions(
    step: Result<EnqueueStep, SessionStoreError>,
    execution: Option<SessionExecutionRow>,
    thread_key: Seq<char>,
    execution_id: Seq<char>,
    existing: Option<FoundDelivery>,
    prepared: PreparedInputDelivery,
)
    requires
        enqueue_step_is(step, execution, thread_key, execution_id, existing, prepared),
    ensures
        ({
            let live = execution is Some && execution->0.execution_id@ == execution_id
                && execution->0.thread_key@ == thread_key && (execution->0.status@ == "queued"@
                || execution->0.status@ == "running"@);
            let same = existing->0.row.execution_id@ == execution_id && row_matches_prepared(
                existing->0.row,
                prepared,
            );
            let reads = readable(existing->0.row, existing->0.thread_key);
            &&& !live ==> step is Ok && step->Ok_0 is NotActive
            &&& live && existing is None ==> step is Ok && step->Ok_0 is StoreMessages
            &&& live && existing is Some && !reads ==> step is Err
            &&& live && existing is Some && reads && !same ==> step == Err::<
                EnqueueStep,
                SessionStoreError,
            >(SessionStoreError::InputDeliveryIdempotencyConflict)
            &&& live && existing is Some && reads && same ==> {
                &&& step matches Ok(EnqueueStep::Existing(delivery))
                &&& delivery.delivery_id == existing->0.row.delivery_id
                &&& delivery.execution_id@ == execution_id
                &&& delivery.sequence == existing->0.row.sequence
            }
        }),
{
}

/// A replacement that was stored before is handed out if it carries the same payload and
/// conflicts if not. A new one is made only of an execution that is queued or running
/// and owed no input.
pub proof fn law_replace_conditions(
    step: Result<ReplaceStep, SessionStoreError>,
    execution: SessionExecutionRow,
    deliveries: Seq<SessionInputDeliveryRow>,
    existing: Option<FoundDelivery>,
    prepared: PreparedInputDelivery,
)
    requires
        replace_step_is(step, execution, deliveries, existing, prepared),
    ensures
        ({
            let runs = execution.status@ == "queued"@ || execution.status@ == "running"@;
            let owed = exists|i: int|
                0 <= i < deliveries.len() && (#[trigger] deliveries[i]).execution_id@
                    == execution.execution_id@ && (deliveries[i].state@ == "pending"@
                    || deliveries[i].state@ == "claimed"@ || deliveries[i].state@ == "ambiguous"@);
            let reads = readable(existing->0.row, existing->0.thread_key);
            &&& existing is None && runs && !owed ==> step is Ok && step->Ok_0 is StoreMessages
            &&& existing is None && (!runs || owed) ==> step is Ok && step->Ok_0 is NotAllowed
            &&& existing is Some && !reads ==> step is Err
            &&& existing is Some && reads && !row_matches_prepared(existing->0.row, prepared)
                ==> step == Err::<ReplaceStep, SessionStoreError>(
                SessionStoreError::InputDeliveryIdempotencyConflict,
            )
            &&& existing is Some && reads && row_matches_prepared(existing->0.row, prepared) ==> {
                &&& step matches Ok(ReplaceStep::Existing(delivery))
                &&& delivery.delivery_id == existing->0.row.delivery_id
                &&& delivery.execution_id == existing->0.row.execution_id
            }
        }),
{
    law_end_conditions(execution, deliveries);
}

// ---------------------------------------------------------------------------
// Messages and events
// ---------------------------------------------------------------------------

/// A stored row is the message exactly if role, parts and metadata are the same; one
/// stored with these very documents is.
pub proof fn law_message_conditions(
    row: PersistedPreparedMessageRow,
    input: SessionMessageInput,
)
    ensures
        is_message(row, input) <==> {
            &&& row.role@ == input.role.name@
            &&& json_equal(row.parts, json_array(input.parts@))
            &&& json_equal(row.metadata, input.metadata)
        },
        stored_as(row, input) <==> {
            &&& row.role@ == input.role.name@
            &&& row.parts == json_array(input.parts@)
            &&& row.metadata == input.metadata
        },
{
}

/// What a message is inserted with: the ids handed in, and what its author gave.
pub proof fn law_message_row_columns(
    message_id: String,
    thread_key: String,
    input: SessionMessageInput,
)
    ensures
        ({
            let row = message_row(message_id, thread_key, input);
            &&& row.message_id == message_id
            &&& row.thread_key == thread_key
            &&& row.client_message_id == input.client_message_id
            &&& row.role == input.role.name
            &&& row.parts == json_array(input.parts@)
            &&& row.metadata == input.metadata
        }),
{
}

/// What a message row reads as: its own columns with the key and role that were read and
/// its parts one by one; or the first refusal, the key's before the role's.
pub proof fn law_message_read_columns(
    message: Result<SessionMessage, SessionStoreError>,
    row: SessionMessageRow,
    parses: SessionMessageRowParses,
)
    requires
        message_read(message, row, parses),
    ensures
        message is Ok <==> parses.thread_key is Ok && parses.role is Ok,
        parses.thread_key is Err ==> message == Err::<SessionMessage, SessionStoreError>(
            SessionStoreError::InvalidPersistedValue(parses.thread_key->Err_0),
        ),
        parses.thread_key is Ok && parses.role is Err ==> message == Err::<
            SessionMessage,
            SessionStoreError,
        >(SessionStoreError::InvalidPersistedValue(parses.role->Err_0)),
        message matches Ok(read) ==> {
            &&& parses.thread_key == Ok::<ThreadKey, String>(read.thread_key)
            &&& parses.role == Ok::<MessageRole, String>(read.role)
            &&& read.message_id == row.message_id
            &&& read.client_message_id == row.client_message_id
            &&& read.parts@ == json_items(row.parts)
            &&& read.metadata == row.metadata
            &&& read.created_at == row.created_at
        },
{
}

/// What an event row reads as: its own columns with the key that was read, or the key's
/// refusal.
pub proof fn law_event_read_columns(row: SessionEventRow, thread_key: Result<ThreadKey, String>)
    ensures
        ({
            let read = event_read(row, thread_key);
            &&& read is Ok <==> thread_key is Ok
            &&& thread_key is Err ==> read == Err::<SessionEvent, SessionStoreError>(
                SessionStoreError::InvalidPersistedValue(thread_key->Err_0),
            )
            &&& read matches Ok(event) ==> {
                &&& thread_key == Ok::<ThreadKey, String>(event.thread_key)
                &&& event.event_id == row.event_id
                &&& event.execution_id == row.execution_id
                &&& event.event_type == row.event_type
                &&& event.payload == row.payload
                &&& event.created_at == row.created_at
            }
        }),
{
}

/// A title is generated from the parts of what the given role wrote in the session's
/// own thread, all of it and the oldest first, strung together in that order; and only
/// for a session that has none.
pub proof fn law_title_documents(
    messages: Seq<SessionMessageRow>,
    session: SessionRow,
    role: Seq<char>,
    documents: Seq<Value>,
    document: Value,
)
    ensures
        untitled(Some(session)) <==> session.title is None,
        !untitled(None),
        forall|i: int|
            0 <= i < messages.len() && (#[trigger] messages[i]).thread_key@ == session.thread_key@
                && messages[i].role@ == role ==> documents_of(
                messages,
                Some(session),
                role,
            ).contains(messages[i].parts),
        documents_of(messages, Some(session), role).contains(document) ==> exists|i: int|
            0 <= i < messages.len() && (#[trigger] messages[i]).thread_key@
                == session.thread_key@ && messages[i].role@ == role && messages[i].parts
                == document,
        documents_of(messages, None, role).len() == 0,
        all_parts(Seq::empty()).len() == 0,
        all_parts(documents.push(document)) == all_parts(documents) + json_items(document),
{
    let kept = |m: SessionMessageRow| is_written_by(m, Some(session), role);
    let timed = |m: SessionMessageRow| (m.created_at, m.parts);
    let value = |d: (Timestamp, Value)| d.1;
    let written = messages.filter(kept);
    let items = written.map_values(timed);
    let found = documents_of(messages, Some(session), role);
    assert(found == in_order(items).map_values(value));
    law_order_is_by_time(items, 0);
    assert forall|i: int|
        0 <= i < messages.len() && (#[trigger] messages[i]).thread_key@ == session.thread_key@
            && messages[i].role@ == role implies found.contains(messages[i].parts) by {
        assert(kept(messages[i]));
        messages.lemma_filter_contains(kept, i);
        let w = choose|w: int| 0 <= w < written.len() && written[w] == messages[i];
        assert(items[w] == timed(messages[i]));
        law_order_keeps_the_values(items, items[w]);
        let k = choose|k: int| 0 <= k < in_order(items).len() && in_order(items)[k] == items[w];
        assert(found[k] == messages[i].parts);
    }
    if found.contains(document) {
        let k = choose|k: int| 0 <= k < found.len() && found[k] == document;
        assert(in_order(items).contains(in_order(items)[k]));
        law_order_keeps_the_values(items, in_order(items)[k]);
        let w = choose|w: int| 0 <= w < items.len() && items[w] == in_order(items)[k];
        messages.lemma_filter_pred(kept, w);
        assert(written.contains(written[w]));
        messages.lemma_filter_contains_rev(kept, written[w]);
        let i = choose|i: int| 0 <= i < messages.len() && messages[i] == written[w];
        assert(messages[i].parts == document);
    }
    let none = |m: SessionMessageRow| is_written_by(m, None, role);
    messages.lemma_all_neg_filter_empty(none);
    law_order_is_by_time(messages.filter(none).map_values(timed), 0);
    assert(documents_of(messages, None, role) == in_order(
        messages.filter(none).map_values(timed),
    ).map_values(value));
    assert(documents.push(document).drop_last() =~= documents);
}

/// A notification is taken only from the channel `centaur_session_events`. There it is
/// what was parsed, or a refusal that names the channel and the payload.
pub proof fn law_notification_conditions(
    outcome: Option<Result<SessionEventNotification, SessionStoreError>>,
    channel: Seq<char>,
    payload: Seq<char>,
    parsed: Result<SessionEventNotification, serde_json::Error>,
)
    requires
        notification_read(outcome, channel, payload, parsed),
    ensures
        outcome is Some <==> channel == "centaur_session_events"@,
        outcome matches Some(Ok(notification)) ==> parsed == Ok::<
            SessionEventNotification,
            serde_json::Error,
        >(notification),
        outcome is Some && parsed is Ok ==> outcome->0 is Ok,
        outcome is Some && parsed is Err ==> {
            &&& outcome->0 matches Err(SessionStoreError::InvalidNotification {
                channel: on,
                payload: text,
                error,
            })
            &&& on@ == channel
            &&& text@ == payload
            &&& parsed == Err::<SessionEventNotification, serde_json::Error>(error)
        },
{
}

/// The documents that a title is generated from stand in the order in which their
/// messages were created.
pub proof fn law_title_documents_are_in_order(
    messages: Seq<SessionMessageRow>,
    session: SessionRow,
    role: Seq<char>,
    j: int,
    k: int,
)
    requires
        0 <= j < k < documents_of(messages, Some(session), role).len(),
    ensures
        exists|a: int, b: int|
            0 <= a < messages.len() && 0 <= b < messages.len() && (#[trigger] messages[a]).parts
                == documents_of(messages, Some(session), role)[j] && (#[trigger] messages[b]).parts
                == documents_of(messages, Some(session), role)[k] && messages[a].created_at
                <= messages[b].created_at,
{
    let kept = |m: SessionMessageRow| is_written_by(m, Some(session), role);
    let timed = |m: SessionMessageRow| (m.created_at, m.parts);
    let value = |d: (Timestamp, Value)| d.1;
    let written = messages.filter(kept);
    let items = written.map_values(timed);
    let sorted = in_order(items);
    assert(documents_of(messages, Some(session), role) == sorted.map_values(value));
    law_order_is_by_time(items, 0);
    assert(sorted.contains(sorted[j]) && sorted.contains(sorted[k]));
    law_order_keeps_the_values(items, sorted[j]);
    law_order_keeps_the_values(items, sorted[k]);
    let v = choose|v: int| 0 <= v < items.len() && items[v] == sorted[j];
    let w = choose|w: int| 0 <= w < items.len() && items[w] == sorted[k];
    assert(written.contains(written[v]) && written.contains(written[w]));
    messages.lemma_filter_contains_rev(kept, written[v]);
    messages.lemma_filter_contains_rev(kept, written[w]);
    let a = choose|a: int| 0 <= a < messages.len() && messages[a] == written[v];
    let b = choose|b: int| 0 <= b < messages.len() && messages[b] == written[w];
    assert(messages[a].created_at <= messages[b].created_at);
}

} // verus!
