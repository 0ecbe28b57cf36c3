//! Creating executions and the deliveries that they owe.
//!
//! A delivery is inserted in the same transaction as the execution or the messages
//! that it is for, under an idempotency key. A repeated key is answered with the
//! stored delivery, and only if it carries exactly the prepared payload.
use crate::delivery::{
    delivery_from_row, delivery_is, delivery_matches_prepared, is_refusal,
    law_match_is_that_of_the_row, new_input_delivery, prepared_as, readable, row_matches_prepared,
    FoundDelivery, NewInputDelivery, PreparedInputDelivery, SessionInputDelivery,
};
use crate::delivery_columns::law_owed_deliveries;
use crate::error::SessionStoreError;
use crate::execution::{
    any_counts, counts_for, is_active, latest_at, latest_position, status_given,
};
use crate::idle_columns::{is_busy, law_busy_threads};
use crate::messages::AppendMessagesWithoutActiveExecution;
use crate::model::{ExecutionStatus, SessionExecution, SessionStatus, ThreadKey, Timestamp};
use crate::rows::{
    execution_from_row, execution_read, NewSessionExecution, SessionExecutionRow,
    SessionExecutionRowParses, SessionInputDeliveryRow, SessionRow,
};
use crate::terminal::{
    is_allowed_to_end, may_end, replace_active_execution_with_queued, successor_of, tells_of,
    OwnedTerminalEvent, Replacement,
};
use crate::text::{same_text, same_texts, texts};
use serde_json::Value;
use vstd::prelude::*;

verus! {

/// An execution, and whether this call created it.
#[derive(Clone, Debug)]
pub struct CreateExecutionResult {
    pub execution: SessionExecution,
    pub created: bool,
}

/// An execution, and whether this call started it.
#[derive(Clone, Debug)]
pub struct ClaimExecutionResult {
    pub execution: SessionExecution,
    /// True only when this call transitioned the execution from `queued` to
    /// `running`. False means another request already claimed it (or it is
    /// terminal), so the caller must not drive the execution.
    pub claimed: bool,
}

/// The first delivery of an execution: stored before, or to be inserted.
#[derive(Debug)]
pub enum InitialDelivery {
    Existing(SessionInputDelivery),
    Insert(NewInputDelivery),
}

/// What an enqueue request comes to before any message is stored.
#[derive(Debug)]
pub enum EnqueueStep {
    /// The execution is not an active one of the thread.
    NotActive,
    /// The same request was stored before.
    Existing(SessionInputDelivery),
    /// The messages are to be stored, then the delivery.
    StoreMessages,
}

/// What a replacement request comes to before any message is stored.
#[derive(Debug)]
pub enum ReplaceStep {
    /// The same request was stored before, with its successor.
    Existing(SessionInputDelivery),
    /// The execution may not end.
    NotAllowed,
    /// The messages are to be stored, then the replacement made.
    StoreMessages,
}

/// Everything that a replacement with input writes.
#[derive(Debug)]
pub struct ReplacementWithInput {
    pub replacement: Replacement,
    pub delivery: NewInputDelivery,
}

// ---------------------------------------------------------------------------
// Executions
// ---------------------------------------------------------------------------

/// Makes the row of a queued execution for a session that exists.
pub fn create_execution(
    session_found: bool,
    thread_key: &ThreadKey,
    execution_id: String,
    idempotency_key: Option<String>,
    metadata: Value,
) -> (new: Result<NewSessionExecution, SessionStoreError>)
    ensures
        if session_found {
            &&& new matches Ok(made)
            &&& made.status@ == ExecutionStatus::Queued.name()
            &&& made == (NewSessionExecution {
                execution_id,
                thread_key: thread_key.value,
                idempotency_key,
                status: made.status,
                metadata,
            })
        } else {
            new == Err::<NewSessionExecution, SessionStoreError>(
                SessionStoreError::NotFound { thread_key: thread_key.value },
            )
        },
        new is Ok <==> session_found,
        new matches Ok(made) ==> made.status@ == "queued"@ && made.thread_key == thread_key.value,
{
    if !session_found {
        return Err(SessionStoreError::NotFound { thread_key: thread_key.value.clone() });
    }
    Ok(
        NewSessionExecution {
            execution_id,
            thread_key: thread_key.value.clone(),
            idempotency_key,
            status: ExecutionStatus::Queued.as_ref().to_owned(),
            metadata,
        },
    )
}

/// Reads the row that stands after an insert under an idempotency key: it was
/// created by this call if it has the id that was proposed.
pub fn created_execution(
    row: SessionExecutionRow,
    parses: SessionExecutionRowParses,
    proposed_id: &str,
) -> (result: Result<CreateExecutionResult, SessionStoreError>)
    ensures
        match execution_read(row, parses) {
            Err(error) => result == Err::<CreateExecutionResult, SessionStoreError>(error),
            Ok(execution) => result == Ok::<CreateExecutionResult, SessionStoreError>(
                CreateExecutionResult {
                    execution,
                    created: row.execution_id@ == proposed_id@,
                },
            ),
        },
        result matches Ok(made) ==> (made.created <==> row.execution_id@ == proposed_id@)
            && made.execution.execution_id == row.execution_id,
{
    let created = same_text(row.execution_id.as_str(), proposed_id);
    match execution_from_row(row, parses) {
        Err(error) => Err(error),
        Ok(execution) => Ok(CreateExecutionResult { execution, created }),
    }
}

/// Reads the outcome of starting an execution.
pub fn claimed_execution(
    row: SessionExecutionRow,
    parses: SessionExecutionRowParses,
    claimed: bool,
) -> (result: Result<ClaimExecutionResult, SessionStoreError>)
    ensures
        match execution_read(row, parses) {
            Err(error) => result == Err::<ClaimExecutionResult, SessionStoreError>(error),
            Ok(execution) => result == Ok::<ClaimExecutionResult, SessionStoreError>(
                ClaimExecutionResult { execution, claimed },
            ),
        },
        result matches Ok(made) ==> made.claimed == claimed && made.execution.execution_id
            == row.execution_id,
{
    match execution_from_row(row, parses) {
        Err(error) => Err(error),
        Ok(execution) => Ok(ClaimExecutionResult { execution, claimed }),
    }
}

/// Finds the active execution of a thread: the latest, should there be several.
pub fn active_execution_for_thread(
    executions: &Vec<SessionExecutionRow>,
    thread_key: &str,
) -> (position: Option<usize>)
    ensures
        match position {
            None => !any_counts(executions@, thread_key@, true),
            Some(k) => latest_at(executions@, thread_key@, true, k as int),
        },
        position is None <==> !is_busy(executions@, thread_key@),
        position matches Some(k) ==> k < executions@.len() && executions@[k as int].thread_key@
            == thread_key@ && (executions@[k as int].status@ == "queued"@
            || executions@[k as int].status@ == "running"@),
{
    proof {
        law_busy_threads(executions@, thread_key@);
    }
    latest_position(executions, thread_key, true)
}

/// Whether messages may be appended without a delivery, decided while the session
/// row is locked: not if the session is absent, and not while an execution of it is
/// active. `found` is the execution that was found for it, if one was.
pub fn append_prepared_messages_if_no_active_execution(
    session_found: bool,
    thread_key: &ThreadKey,
    found: Option<(SessionExecutionRow, SessionExecutionRowParses)>,
) -> (outcome: Result<Option<AppendMessagesWithoutActiveExecution>, SessionStoreError>)
    ensures
        if !session_found {
            outcome == Err::<Option<AppendMessagesWithoutActiveExecution>, SessionStoreError>(
                SessionStoreError::NotFound { thread_key: thread_key.value },
            )
        } else {
            match found {
                Some((row, parses)) if counts_for(row, thread_key.value@, true) => {
                    match execution_read(row, parses) {
                        Err(error) => outcome == Err::<
                            Option<AppendMessagesWithoutActiveExecution>,
                            SessionStoreError,
                        >(error),
                        Ok(execution) => outcome == Ok::<
                            Option<AppendMessagesWithoutActiveExecution>,
                            SessionStoreError,
                        >(Some(AppendMessagesWithoutActiveExecution::Active(execution))),
                    }
                },
                _ => outcome == Ok::<
                    Option<AppendMessagesWithoutActiveExecution>,
                    SessionStoreError,
                >(None),
            }
        },
        session_found && outcome is Ok ==> (found matches Some((row, _)) ==> {
            let live = row.thread_key@ == thread_key.value@ && (row.status@ == "queued"@
                || row.status@ == "running"@);
            &&& live ==> (outcome matches Ok(
                Some(AppendMessagesWithoutActiveExecution::Active(execution)),
            ) && execution.execution_id == row.execution_id)
            &&& !live ==> outcome->Ok_0 is None
        }),
        session_found && found is None ==> outcome == Ok::<
            Option<AppendMessagesWithoutActiveExecution>,
            SessionStoreError,
        >(None),
{
    if !session_found {
        return Err(SessionStoreError::NotFound { thread_key: thread_key.value.clone() });
    }
    match found {
        None => Ok(None),
        Some((row, parses)) => {
            if !is_active(row.status.as_str()) || !same_text(
                row.thread_key.as_str(),
                thread_key.as_str(),
            ) {
                return Ok(None);
            }
            match execution_from_row(row, parses) {
                Err(error) => Err(error),
                Ok(execution) => Ok(Some(AppendMessagesWithoutActiveExecution::Active(execution))),
            }
        },
    }
}

// ---------------------------------------------------------------------------
// Deliveries
// ---------------------------------------------------------------------------

/// The sequence that follows all deliveries of the execution, from zero.
pub open spec fn is_next_sequence(
    next: int,
    deliveries: Seq<SessionInputDeliveryRow>,
    execution_id: Seq<char>,
) -> bool {
    &&& forall|i: int|
        0 <= i < deliveries.len() && (#[trigger] deliveries[i]).execution_id@ == execution_id
            ==> deliveries[i].sequence < next
    &&& (exists|i: int|
        0 <= i < deliveries.len() && (#[trigger] deliveries[i]).execution_id@ == execution_id
            && deliveries[i].sequence + 1 == next) || (next == 0 && forall|i: int|
        0 <= i < deliveries.len() ==> (#[trigger] deliveries[i]).execution_id@ != execution_id)
}

/// The execution has a delivery with the last sequence that there is.
pub open spec fn sequence_overflows(
    deliveries: Seq<SessionInputDeliveryRow>,
    execution_id: Seq<char>,
) -> bool {
    exists|i: int|
        0 <= i < deliveries.len() && (#[trigger] deliveries[i]).execution_id@ == execution_id
            && deliveries[i].sequence == i64::MAX
}

/// Computes the sequence that follows all deliveries of the execution; beyond the
/// last one it is out of range.
pub fn next_sequence(deliveries: &Vec<SessionInputDeliveryRow>, execution_id: &str) -> (next: Result<
    i64,
    SessionStoreError,
>)
    ensures
        if sequence_overflows(deliveries@, execution_id@) {
            next == Err::<i64, SessionStoreError>(SessionStoreError::OutOfRange)
        } else {
            next matches Ok(n) && is_next_sequence(n as int, deliveries@, execution_id@)
        },
        next matches Ok(n) ==> forall|i: int|
            0 <= i < deliveries@.len() && (#[trigger] deliveries@[i]).execution_id@ == execution_id@
                ==> deliveries@[i].sequence < n,
        (forall|i: int|
            0 <= i < deliveries@.len()
                ==> (#[trigger] deliveries@[i]).execution_id@ != execution_id@)
            ==> next == Ok::<i64, SessionStoreError>(0),
{
    let mut highest: Option<i64> = None;
    let mut i: usize = 0;
    while i < deliveries.len()
        invariant
            i <= deliveries.len(),
            match highest {
                None => forall|j: int|
                    0 <= j < i ==> (#[trigger] deliveries@[j]).execution_id@ != execution_id@,
                Some(top) => {
                    &&& forall|j: int|
                        0 <= j < i && (#[trigger] deliveries@[j]).execution_id@ == execution_id@
                            ==> deliveries@[j].sequence <= top
                    &&& exists|j: int|
                        0 <= j < i && (#[trigger] deliveries@[j]).execution_id@ == execution_id@
                            && deliveries@[j].sequence == top
                },
            },
        decreases deliveries.len() - i,
    {
        if same_text(deliveries[i].execution_id.as_str(), execution_id) {
            let sequence: i64 = deliveries[i].sequence;
            match highest {
                Some(top) if top >= sequence => {},
                _ => {
                    highest = Some(sequence);
                    assert(deliveries@[i as int].execution_id@ == execution_id@);
                },
            }
        }
        i += 1;
    }
    match highest {
        None => Ok(0),
        Some(top) => {
            if top == i64::MAX {
                Err(SessionStoreError::OutOfRange)
            } else {
                Ok(top + 1)
            }
        },
    }
}

/// The first delivery of an execution, or why there is none. A delivery stored
/// under the key must be the first of this very execution and carry exactly the
/// prepared payload. Without one, only an execution that this call created gets
/// it: a caller can never attach new input to an old execution.
pub open spec fn initial_delivery_is(
    outcome: Result<InitialDelivery, SessionStoreError>,
    execution_id: String,
    created: bool,
    existing: Option<FoundDelivery>,
    thread_key: String,
    prepared: PreparedInputDelivery,
    delivery_id: String,
) -> bool {
    match existing {
        Some(found) => if !readable(found.row, found.thread_key) {
            outcome matches Err(error) && is_refusal(error, found.row, found.thread_key)
        } else if found.row.execution_id@ == execution_id@ && found.row.sequence == 0
            && row_matches_prepared(found.row, prepared) {
            outcome matches Ok(InitialDelivery::Existing(delivery)) && delivery_is(
                delivery,
                found.row,
                found.thread_key->Ok_0,
            )
        } else {
            outcome == Err::<InitialDelivery, SessionStoreError>(
                SessionStoreError::InputDeliveryIdempotencyConflict,
            )
        },
        None => if created {
            &&& outcome matches Ok(InitialDelivery::Insert(new))
            &&& prepared_as(new, delivery_id, thread_key, execution_id, 0, prepared)
        } else {
            outcome == Err::<InitialDelivery, SessionStoreError>(
                SessionStoreError::InputDeliveryMissingForExistingExecution { execution_id },
            )
        },
    }
}

/// Decides the first delivery of an execution that stands under its idempotency
/// key. Retrying a key returns only the original exact payload.
pub fn create_execution_with_initial_input_delivery(
    execution_id: &String,
    created: bool,
    existing: Option<FoundDelivery>,
    thread_key: &String,
    prepared: &PreparedInputDelivery,
    delivery_id: String,
) -> (outcome: Result<InitialDelivery, SessionStoreError>)
    ensures
        initial_delivery_is(
            outcome,
            *execution_id,
            created,
            existing,
            *thread_key,
            *prepared,
            delivery_id,
        ),
{
    match existing {
        Some(found) => {
            let ghost row = found.row;
            let ghost key = found.thread_key;
            match delivery_from_row(found.row, found.thread_key) {
                Err(error) => Err(error),
                Ok(delivery) => {
                    proof {
                        law_match_is_that_of_the_row(delivery, row, key->Ok_0, *prepared);
                    }
                    if !same_text(delivery.execution_id.as_str(), execution_id.as_str())
                        || delivery.sequence != 0 || !delivery_matches_prepared(
                        &delivery,
                        prepared,
                    ) {
                        return Err(SessionStoreError::InputDeliveryIdempotencyConflict);
                    }
                    Ok(InitialDelivery::Existing(delivery))
                },
            }
        },
        None => {
            if !created {
                return Err(
                    SessionStoreError::InputDeliveryMissingForExistingExecution {
                        execution_id: execution_id.clone(),
                    },
                );
            }
            Ok(
                InitialDelivery::Insert(
                    new_input_delivery(delivery_id, thread_key, execution_id, 0, prepared),
                ),
            )
        },
    }
}

/// An active execution of the thread.
pub open spec fn is_active_of(
    execution: Option<SessionExecutionRow>,
    thread_key: Seq<char>,
    execution_id: Seq<char>,
) -> bool {
    execution matches Some(row) && row.execution_id@ == execution_id && row.thread_key@
        == thread_key && row.is_active()
}

/// What an enqueue request comes to before any message is stored.
pub open spec fn enqueue_step_is(
    step: Result<EnqueueStep, SessionStoreError>,
    execution: Option<SessionExecutionRow>,
    thread_key: Seq<char>,
    execution_id: Seq<char>,
    existing: Option<FoundDelivery>,
    prepared: PreparedInputDelivery,
) -> bool {
    if !is_active_of(execution, thread_key, execution_id) {
        step matches Ok(EnqueueStep::NotActive)
    } else {
        match existing {
            None => step matches Ok(EnqueueStep::StoreMessages),
            Some(found) => if !readable(found.row, found.thread_key) {
                step matches Err(error) && is_refusal(error, found.row, found.thread_key)
            } else if found.row.execution_id@ == execution_id && row_matches_prepared(
                found.row,
                prepared,
            ) {
                step matches Ok(EnqueueStep::Existing(delivery)) && delivery_is(
                    delivery,
                    found.row,
                    found.thread_key->Ok_0,
                )
            } else {
                step == Err::<EnqueueStep, SessionStoreError>(
                    SessionStoreError::InputDeliveryIdempotencyConflict,
                )
            },
        }
    }
}

/// Decides an enqueue request under the execution's row lock: nothing for an
/// execution that is not active, the stored delivery for a repetition, and
/// otherwise the messages are to be stored first.
pub fn begin_enqueue_input_delivery(
    execution: &Option<SessionExecutionRow>,
    thread_key: &str,
    execution_id: &str,
    existing: Option<FoundDelivery>,
    prepared: &PreparedInputDelivery,
) -> (step: Result<EnqueueStep, SessionStoreError>)
    ensures
        enqueue_step_is(step, *execution, thread_key@, execution_id@, existing, *prepared),
{
    match execution {
        Some(row) if same_text(row.execution_id.as_str(), execution_id) && same_text(
            row.thread_key.as_str(),
            thread_key,
        ) && is_active(row.status.as_str()) => {},
        _ => return Ok(EnqueueStep::NotActive),
    }
    match existing {
        None => Ok(EnqueueStep::StoreMessages),
        Some(found) => {
            let ghost row = found.row;
            let ghost key = found.thread_key;
            match delivery_from_row(found.row, found.thread_key) {
                Err(error) => Err(error),
                Ok(delivery) => {
                    proof {
                        law_match_is_that_of_the_row(delivery, row, key->Ok_0, *prepared);
                    }
                    if !same_text(delivery.execution_id.as_str(), execution_id)
                        || !delivery_matches_prepared(&delivery, prepared) {
                        return Err(SessionStoreError::InputDeliveryIdempotencyConflict);
                    }
                    Ok(EnqueueStep::Existing(delivery))
                },
            }
        },
    }
}

/// Makes the delivery of messages that were stored: at the next sequence of the
/// execution, and only if the messages are stored under exactly the prepared ids.
pub fn append_messages_and_enqueue_input_delivery(
    persisted_ids: &Vec<String>,
    deliveries: &Vec<SessionInputDeliveryRow>,
    thread_key: &String,
    execution_id: &String,
    prepared: &PreparedInputDelivery,
    delivery_id: String,
) -> (new: Result<NewInputDelivery, SessionStoreError>)
    ensures
        if texts(persisted_ids@) != texts(prepared.message_ids@) {
            new == Err::<NewInputDelivery, SessionStoreError>(
                SessionStoreError::InputDeliveryIdempotencyConflict,
            )
        } else if sequence_overflows(deliveries@, execution_id@) {
            new == Err::<NewInputDelivery, SessionStoreError>(SessionStoreError::OutOfRange)
        } else {
            &&& new matches Ok(made)
            &&& is_next_sequence(made.sequence as int, deliveries@, execution_id@)
            &&& prepared_as(made, delivery_id, *thread_key, *execution_id, made.sequence, *prepared)
        },
        new matches Ok(made) ==> made.execution_id == *execution_id
            && made.thread_key == *thread_key
            && made.delivery_id == delivery_id && made.idempotency_key == prepared.idempotency_key
            && forall|i: int|
            0 <= i < deliveries@.len() && (#[trigger] deliveries@[i]).execution_id@ == execution_id@
                ==> deliveries@[i].sequence < made.sequence,
        new is Ok ==> texts(persisted_ids@) == texts(prepared.message_ids@),
{
    if !same_texts(persisted_ids, &prepared.message_ids) {
        return Err(SessionStoreError::InputDeliveryIdempotencyConflict);
    }
    let sequence: i64 = match next_sequence(deliveries, execution_id.as_str()) {
        Err(error) => return Err(error),
        Ok(sequence) => sequence,
    };
    Ok(new_input_delivery(delivery_id, thread_key, execution_id, sequence, prepared))
}

/// What a replacement request comes to before any message is stored.
pub open spec fn replace_step_is(
    step: Result<ReplaceStep, SessionStoreError>,
    execution: SessionExecutionRow,
    deliveries: Seq<SessionInputDeliveryRow>,
    existing: Option<FoundDelivery>,
    prepared: PreparedInputDelivery,
) -> bool {
    match existing {
        None => if may_end(execution, deliveries) {
            step matches Ok(ReplaceStep::StoreMessages)
        } else {
            step matches Ok(ReplaceStep::NotAllowed)
        },
        Some(found) => if !readable(found.row, found.thread_key) {
            step matches Err(error) && is_refusal(error, found.row, found.thread_key)
        } else if row_matches_prepared(found.row, prepared) {
            step matches Ok(ReplaceStep::Existing(delivery)) && delivery_is(
                delivery,
                found.row,
                found.thread_key->Ok_0,
            )
        } else {
            step == Err::<ReplaceStep, SessionStoreError>(
                SessionStoreError::InputDeliveryIdempotencyConflict,
            )
        },
    }
}

/// Decides a replacement request under the lifecycle locks: the stored delivery
/// for a repetition, whatever became of the execution since; nothing if the
/// execution may not end; and otherwise the messages are to be stored first.
pub fn begin_replace_active_execution(
    execution: &SessionExecutionRow,
    deliveries: &Vec<SessionInputDeliveryRow>,
    existing: Option<FoundDelivery>,
    prepared: &PreparedInputDelivery,
) -> (step: Result<ReplaceStep, SessionStoreError>)
    ensures
        replace_step_is(step, *execution, deliveries@, existing, *prepared),
{
    match existing {
        None => {
            if is_allowed_to_end(execution, deliveries) {
                Ok(ReplaceStep::StoreMessages)
            } else {
                Ok(ReplaceStep::NotAllowed)
            }
        },
        Some(found) => {
            let ghost row = found.row;
            let ghost key = found.thread_key;
            match delivery_from_row(found.row, found.thread_key) {
                Err(error) => Err(error),
                Ok(delivery) => {
                    proof {
                        law_match_is_that_of_the_row(delivery, row, key->Ok_0, *prepared);
                    }
                    if !delivery_matches_prepared(&delivery, prepared) {
                        return Err(SessionStoreError::InputDeliveryIdempotencyConflict);
                    }
                    Ok(ReplaceStep::Existing(delivery))
                },
            }
        },
    }
}

/// Replaces one active execution and makes the successor's sequence-zero delivery
/// of the messages that were stored, all in one transaction. Nothing is replaced
/// if the messages are not stored under exactly the prepared ids, or if the
/// execution may not end.
pub fn replace_active_execution_with_initial_input_delivery(
    execution: &mut SessionExecutionRow,
    session: &mut SessionRow,
    deliveries: &Vec<SessionInputDeliveryRow>,
    persisted_ids: &Vec<String>,
    successor_id: &String,
    delivery_id: String,
    successor_metadata: Value,
    terminal: OwnedTerminalEvent,
    prepared: &PreparedInputDelivery,
    now: Timestamp,
) -> (replaced: Result<Option<ReplacementWithInput>, SessionStoreError>)
    ensures
        if !may_end(*old(execution), deliveries@) {
            &&& replaced == Ok::<Option<ReplacementWithInput>, SessionStoreError>(None)
            &&& *final(execution) == *old(execution)
            &&& *final(session) == *old(session)
        } else if texts(persisted_ids@) != texts(prepared.message_ids@) {
            &&& replaced == Err::<Option<ReplacementWithInput>, SessionStoreError>(
                SessionStoreError::InputDeliveryIdempotencyConflict,
            )
            &&& *final(execution) == *old(execution)
            &&& *final(session) == *old(session)
        } else {
            &&& crate::terminal::ended(*old(execution), *final(execution), terminal, now)
            &&& status_given(
                *old(session),
                *final(session),
                old(execution).thread_key@,
                SessionStatus::Executing,
                now,
            )
            &&& replaced matches Ok(Some(made))
            &&& successor_of(
                made.replacement.successor,
                *old(execution),
                *successor_id,
                prepared.idempotency_key,
                successor_metadata,
            )
            &&& tells_of(made.replacement.event, *old(execution), terminal)
            &&& prepared_as(
                made.delivery,
                delivery_id,
                old(execution).thread_key,
                *successor_id,
                0,
                *prepared,
            )
        },
        replaced matches Ok(Some(made)) ==> {
            &&& old(execution).status@ == "queued"@ || old(execution).status@ == "running"@
            &&& forall|i: int|
                0 <= i < deliveries@.len() && (#[trigger] deliveries@[i]).execution_id@
                    == old(execution).execution_id@ ==> deliveries@[i].state@ != "pending"@
                    && deliveries@[i].state@ != "claimed"@ && deliveries@[i].state@ != "ambiguous"@
            &&& made.replacement.successor.status@ == "queued"@
            &&& made.replacement.successor.thread_key == old(execution).thread_key
            &&& made.replacement.event.execution_id == Some(old(execution).execution_id)
            &&& made.delivery.execution_id == *successor_id
            &&& made.delivery.sequence == 0
            &&& final(execution).stdout_owner_id is None
            &&& old(session).thread_key@ == old(execution).thread_key@ ==> final(session).status@
                == "executing"@
        },
        replaced is Err ==> *final(execution) == *old(execution)
            && *final(session) == *old(session),
        replaced matches Ok(Some(_)) ==> texts(persisted_ids@) == texts(prepared.message_ids@),
{
    proof {
        law_owed_deliveries(deliveries@, execution.execution_id@);
    }
    if !is_allowed_to_end(execution, deliveries) {
        return Ok(None);
    }
    if !same_texts(persisted_ids, &prepared.message_ids) {
        return Err(SessionStoreError::InputDeliveryIdempotencyConflict);
    }
    let delivery = new_input_delivery(
        delivery_id,
        &execution.thread_key,
        successor_id,
        0,
        prepared,
    );
    match replace_active_execution_with_queued(
        execution,
        session,
        deliveries,
        successor_id.clone(),
        &prepared.idempotency_key,
        successor_metadata,
        terminal,
        now,
    ) {
        None => Ok(None),
        Some(replacement) => Ok(Some(ReplacementWithInput { replacement, delivery })),
    }
}

} // verus!
