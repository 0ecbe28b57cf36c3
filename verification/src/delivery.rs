//! Input deliveries: what must be written to a sandbox's stdin, exactly once as
//! far as anyone can tell.
//!
//! A delivery is pending, claimed by an owner, ambiguous (claimed once, outcome
//! unknown), or over: flushed or failed. Each claim moves the owner generation
//! forward, and an owner acts on a delivery only under the generation of its own
//! claim and while its lease has time left. The plain lines are dropped when the
//! delivery is over; their fingerprint and count stay.
use crate::digest::{input_lines_sha256, lines_fingerprint};
use crate::error::{parse_persisted, SessionStoreError};
use crate::json::{
    array_document, json_contents, json_text_list, read_text_list, text_list_refusal, JsonContents,
};
use crate::model::{Clock, SessionExecution, ThreadKey, Timestamp};
use crate::rows::SessionInputDeliveryRow;
use crate::text::{holds, opt_text_is, same_text, same_texts, texts};
use vstd::prelude::*;

verus! {

/// Where a delivery stands.
#[derive(Clone, Copy, Debug, PartialEq, Eq, Structural)]
pub enum InputDeliveryState {
    Pending,
    Claimed,
    Ambiguous,
    Flushed,
    Failed,
}

impl InputDeliveryState {
    /// The persisted name of the state.
    pub open spec fn name(self) -> Seq<char> {
        match self {
            InputDeliveryState::Pending => "pending"@,
            InputDeliveryState::Claimed => "claimed"@,
            InputDeliveryState::Ambiguous => "ambiguous"@,
            InputDeliveryState::Flushed => "flushed"@,
            InputDeliveryState::Failed => "failed"@,
        }
    }

    /// The delivery is still owed to the sandbox.
    pub open spec fn is_unresolved(self) -> bool {
        self != InputDeliveryState::Flushed && self != InputDeliveryState::Failed
    }

    /// The persisted name of the state.
    pub fn as_ref(&self) -> (text: &'static str)
        ensures
            text@ == self.name(),
    {
        match self {
            InputDeliveryState::Pending => "pending",
            InputDeliveryState::Claimed => "claimed",
            InputDeliveryState::Ambiguous => "ambiguous",
            InputDeliveryState::Flushed => "flushed",
            InputDeliveryState::Failed => "failed",
        }
    }

    /// Reads a persisted name. A text that names no state is refused as it stands.
    pub fn from_str(value: &str) -> (state: Result<InputDeliveryState, SessionStoreError>)
        ensures
            match state {
                Ok(read) => value@ == read.name(),
                Err(error) => {
                    &&& error matches SessionStoreError::InvalidPersistedValue(text)
                    &&& text@ == value@
                    &&& !names_state(value@)
                },
            },
    {
        if same_text(value, "pending") {
            Ok(InputDeliveryState::Pending)
        } else if same_text(value, "claimed") {
            Ok(InputDeliveryState::Claimed)
        } else if same_text(value, "ambiguous") {
            Ok(InputDeliveryState::Ambiguous)
        } else if same_text(value, "flushed") {
            Ok(InputDeliveryState::Flushed)
        } else if same_text(value, "failed") {
            Ok(InputDeliveryState::Failed)
        } else {
            Err(SessionStoreError::InvalidPersistedValue(value.to_owned()))
        }
    }
}

/// No two states have the same persisted name, so that reading back a written
/// state gives that state.
pub proof fn law_state_names_are_distinct(a: InputDeliveryState, b: InputDeliveryState)
    ensures
        a.name() == b.name() <==> a == b,
{
    reveal_strlit("pending");
    reveal_strlit("claimed");
    reveal_strlit("ambiguous");
    reveal_strlit("flushed");
    reveal_strlit("failed");
    assert("pending"@.len() == 7 && "claimed"@.len() == 7 && "flushed"@.len() == 7);
    assert("pending"@[0] == 'p' && "claimed"@[0] == 'c' && "flushed"@[0] == 'f');
    assert("ambiguous"@.len() == 9 && "failed"@.len() == 6);
}

/// Immutable ingress payload persisted before a sandbox receives a stdin write.
#[derive(Clone, Debug, PartialEq, Eq)]
pub struct PreparedInputDelivery {
    pub idempotency_key: String,
    pub message_ids: Vec<String>,
    pub input_lines: Vec<String>,
    pub boundary_fingerprint: String,
}

/// A delivery.
#[derive(Clone, Debug, PartialEq, Eq)]
pub struct SessionInputDelivery {
    pub delivery_id: String,
    pub thread_key: ThreadKey,
    pub execution_id: String,
    pub sequence: i64,
    pub idempotency_key: String,
    pub message_ids: Vec<String>,
    pub input_lines: Vec<String>,
    /// SHA-256 of the original exact input, retained after `input_lines` is
    /// scrubbed so terminal deliveries remain auditable without plaintext.
    pub input_sha256: String,
    pub input_line_count: i32,
    pub boundary_fingerprint: String,
    pub state: InputDeliveryState,
    pub owner_id: Option<String>,
    pub owner_generation: i64,
    pub owner_lease_expires_at: Option<Timestamp>,
    pub sandbox_id: Option<String>,
    pub sandbox_resource_uid: Option<String>,
    pub sandbox_assignment_epoch: Option<String>,
    pub attempts: i32,
    pub last_error: Option<String>,
    pub created_at: Timestamp,
    pub claimed_at: Option<Timestamp>,
    pub flushed_at: Option<Timestamp>,
    pub failed_at: Option<Timestamp>,
    pub updated_at: Timestamp,
}

/// A delivery row that was looked up, with what the parser said of its thread key.
#[derive(Debug)]
pub struct FoundDelivery {
    pub row: SessionInputDeliveryRow,
    pub thread_key: Result<ThreadKey, String>,
}

/// A delivery to be inserted. Its remaining columns start from their defaults.
#[derive(Clone, Debug)]
pub struct NewInputDelivery {
    pub delivery_id: String,
    pub thread_key: String,
    pub execution_id: String,
    pub sequence: i64,
    pub idempotency_key: String,
    pub message_ids: Vec<String>,
    pub input_lines: Vec<String>,
    pub input_sha256: String,
    pub input_line_count: i32,
    pub boundary_fingerprint: String,
}

/// An execution created together with its first delivery.
#[derive(Clone, Debug)]
pub struct CreatedExecutionInputDelivery {
    pub execution: SessionExecution,
    pub delivery: SessionInputDelivery,
    /// `false` means the durable, byte-for-byte-equivalent existing request
    /// won the idempotency race and is returned for recovery.
    pub created: bool,
}

/// A delivery claimed together with its execution.
#[derive(Clone, Debug)]
pub struct ClaimedInputDelivery {
    pub delivery: SessionInputDelivery,
    pub execution: SessionExecution,
}

// ---------------------------------------------------------------------------
// Reading and comparing
// ---------------------------------------------------------------------------

/// The words in which a state column is refused: those of the refusal of its text.
pub open spec fn state_refusal(state: Seq<char>) -> Seq<char> {
    "invalid persisted value: "@ + state
}

/// The error of a refused column, by its words.
pub open spec fn refused_with(error: SessionStoreError, words: Seq<char>) -> bool {
    error matches SessionStoreError::InvalidPersistedValue(text) && text@ == words
}

/// A delivery is what its row reads as.
pub open spec fn delivery_is(
    delivery: SessionInputDelivery,
    row: SessionInputDeliveryRow,
    thread_key: ThreadKey,
) -> bool {
    &&& json_text_list(row.message_ids) == Some(texts(delivery.message_ids@))
    &&& json_text_list(row.input_lines) == Some(texts(delivery.input_lines@))
    &&& delivery.state.name() == row.state@
    &&& delivery == (SessionInputDelivery {
        delivery_id: row.delivery_id,
        thread_key,
        execution_id: row.execution_id,
        sequence: row.sequence,
        idempotency_key: row.idempotency_key,
        message_ids: delivery.message_ids,
        input_lines: delivery.input_lines,
        input_sha256: row.input_sha256,
        input_line_count: row.input_line_count,
        boundary_fingerprint: row.boundary_fingerprint,
        state: delivery.state,
        owner_id: row.owner_id,
        owner_generation: row.owner_generation,
        owner_lease_expires_at: row.owner_lease_expires_at,
        sandbox_id: row.sandbox_id,
        sandbox_resource_uid: row.sandbox_resource_uid,
        sandbox_assignment_epoch: row.sandbox_assignment_epoch,
        attempts: row.attempts,
        last_error: row.last_error,
        created_at: row.created_at,
        claimed_at: row.claimed_at,
        flushed_at: row.flushed_at,
        failed_at: row.failed_at,
        updated_at: row.updated_at,
    })
}

/// A text names a state.
pub open spec fn names_state(text: Seq<char>) -> bool {
    exists|s: InputDeliveryState| text == #[trigger] s.name()
}

/// A delivery row can be read: its key, both its lists and its state can.
pub open spec fn readable(
    row: SessionInputDeliveryRow,
    thread_key: Result<ThreadKey, String>,
) -> bool {
    &&& thread_key is Ok
    &&& json_text_list(row.message_ids) is Some
    &&& json_text_list(row.input_lines) is Some
    &&& names_state(row.state@)
}

/// Why a delivery row cannot be read: the refusal of its key, of its message ids,
/// of its lines or of its state, whichever comes first.
pub open spec fn is_refusal(
    error: SessionStoreError,
    row: SessionInputDeliveryRow,
    thread_key: Result<ThreadKey, String>,
) -> bool {
    match thread_key {
        Err(words) => error == SessionStoreError::InvalidPersistedValue(words),
        Ok(_) => if json_text_list(row.message_ids) is None {
            refused_with(error, text_list_refusal(row.message_ids))
        } else if json_text_list(row.input_lines) is None {
            refused_with(error, text_list_refusal(row.input_lines))
        } else {
            refused_with(error, state_refusal(row.state@))
        },
    }
}

/// What a delivery row reads as: the delivery if it can be read, else why not.
pub open spec fn delivery_read(
    read: Result<SessionInputDelivery, SessionStoreError>,
    row: SessionInputDeliveryRow,
    thread_key: Result<ThreadKey, String>,
) -> bool {
    if readable(row, thread_key) {
        read matches Ok(delivery) && delivery_is(delivery, row, thread_key->Ok_0)
    } else {
        read matches Err(error) && is_refusal(error, row, thread_key)
    }
}

/// Reads a delivery row, whose key the parser has seen.
pub fn delivery_from_row(
    row: SessionInputDeliveryRow,
    thread_key: Result<ThreadKey, String>,
) -> (delivery: Result<SessionInputDelivery, SessionStoreError>)
    ensures
        delivery_read(delivery, row, thread_key),
{
    let thread_key = match parse_persisted(thread_key) {
        Ok(thread_key) => thread_key,
        Err(error) => return Err(error),
    };
    let message_ids = match parse_persisted(read_text_list(row.message_ids)) {
        Ok(message_ids) => message_ids,
        Err(error) => return Err(error),
    };
    let input_lines = match parse_persisted(read_text_list(row.input_lines)) {
        Ok(input_lines) => input_lines,
        Err(error) => return Err(error),
    };
    let state = match InputDeliveryState::from_str(row.state.as_str()) {
        Ok(state) => state,
        Err(_) => {
            let mut words = "invalid persisted value: ".to_owned();
            words.append(row.state.as_str());
            return Err(SessionStoreError::InvalidPersistedValue(words));
        },
    };
    Ok(
        SessionInputDelivery {
            delivery_id: row.delivery_id,
            thread_key,
            execution_id: row.execution_id,
            sequence: row.sequence,
            idempotency_key: row.idempotency_key,
            message_ids,
            input_lines,
            input_sha256: row.input_sha256,
            input_line_count: row.input_line_count,
            boundary_fingerprint: row.boundary_fingerprint,
            state,
            owner_id: row.owner_id,
            owner_generation: row.owner_generation,
            owner_lease_expires_at: row.owner_lease_expires_at,
            sandbox_id: row.sandbox_id,
            sandbox_resource_uid: row.sandbox_resource_uid,
            sandbox_assignment_epoch: row.sandbox_assignment_epoch,
            attempts: row.attempts,
            last_error: row.last_error,
            created_at: row.created_at,
            claimed_at: row.claimed_at,
            flushed_at: row.flushed_at,
            failed_at: row.failed_at,
            updated_at: row.updated_at,
        },
    )
}

/// The count of lines that is recorded: the largest recordable one stands for all
/// beyond it.
pub open spec fn recorded_line_count(lines: nat) -> i32 {
    if lines <= i32::MAX {
        lines as i32
    } else {
        i32::MAX
    }
}

fn line_count(lines: &Vec<String>) -> (count: i32)
    ensures
        count == recorded_line_count(lines@.len()),
{
    if lines.len() <= 2147483647 {
        lines.len() as i32
    } else {
        i32::MAX
    }
}

/// A delivery carries exactly the prepared payload. Once it is over its own lines
/// are gone, and the fingerprint and count speak for them.
pub open spec fn matches_prepared(
    delivery: SessionInputDelivery,
    prepared: PreparedInputDelivery,
) -> bool {
    &&& texts(delivery.message_ids@) == texts(prepared.message_ids@)
    &&& delivery.boundary_fingerprint@ == prepared.boundary_fingerprint@
    &&& delivery.input_sha256@ == lines_fingerprint(texts(prepared.input_lines@))
    &&& delivery.input_line_count == recorded_line_count(prepared.input_lines@.len())
    &&& if delivery.state.is_unresolved() {
        texts(delivery.input_lines@) == texts(prepared.input_lines@)
    } else {
        delivery.input_lines@.len() == 0
    }
}

/// A delivery row carries exactly the prepared payload.
pub open spec fn row_matches_prepared(
    row: SessionInputDeliveryRow,
    prepared: PreparedInputDelivery,
) -> bool {
    &&& json_text_list(row.message_ids) == Some(texts(prepared.message_ids@))
    &&& row.boundary_fingerprint@ == prepared.boundary_fingerprint@
    &&& row.input_sha256@ == lines_fingerprint(texts(prepared.input_lines@))
    &&& row.input_line_count == recorded_line_count(prepared.input_lines@.len())
    &&& json_text_list(row.input_lines) == Some(
        if unresolved(row.state@) {
            texts(prepared.input_lines@)
        } else {
            Seq::empty()
        },
    )
}

/// A delivery carries the prepared payload exactly if the row that it was read
/// from does.
pub proof fn law_match_is_that_of_the_row(
    delivery: SessionInputDelivery,
    row: SessionInputDeliveryRow,
    thread_key: ThreadKey,
    prepared: PreparedInputDelivery,
)
    requires
        delivery_is(delivery, row, thread_key),
    ensures
        matches_prepared(delivery, prepared) <==> row_matches_prepared(row, prepared),
{
    law_state_names_are_distinct(delivery.state, InputDeliveryState::Pending);
    law_state_names_are_distinct(delivery.state, InputDeliveryState::Claimed);
    law_state_names_are_distinct(delivery.state, InputDeliveryState::Ambiguous);
    if delivery.input_lines@.len() == 0 {
        assert(texts(delivery.input_lines@) =~= Seq::<Seq<char>>::empty());
    }
}

/// Whether a delivery carries exactly the prepared payload.
pub fn delivery_matches_prepared(
    delivery: &SessionInputDelivery,
    prepared: &PreparedInputDelivery,
) -> (matches: bool)
    ensures
        matches == matches_prepared(*delivery, *prepared),
{
    let fingerprint = input_lines_sha256(prepared.input_lines.as_slice());
    let payload_matches = same_text(delivery.input_sha256.as_str(), fingerprint.as_str())
        && delivery.input_line_count == line_count(&prepared.input_lines);
    let plaintext_matches = match delivery.state {
        InputDeliveryState::Pending | InputDeliveryState::Claimed
        | InputDeliveryState::Ambiguous => same_texts(
            &delivery.input_lines,
            &prepared.input_lines,
        ),
        InputDeliveryState::Flushed | InputDeliveryState::Failed => delivery.input_lines.len() == 0,
    };
    same_texts(&delivery.message_ids, &prepared.message_ids) && same_text(
        delivery.boundary_fingerprint.as_str(),
        prepared.boundary_fingerprint.as_str(),
    ) && payload_matches && plaintext_matches
}

/// A delivery to be inserted carries the prepared payload.
pub open spec fn prepared_as(
    new: NewInputDelivery,
    delivery_id: String,
    thread_key: String,
    execution_id: String,
    sequence: i64,
    prepared: PreparedInputDelivery,
) -> bool {
    &&& new.input_sha256@ == lines_fingerprint(texts(prepared.input_lines@))
    &&& new.message_ids@ == prepared.message_ids@
    &&& new.input_lines@ == prepared.input_lines@
    &&& new == (NewInputDelivery {
        delivery_id,
        thread_key,
        execution_id,
        sequence,
        idempotency_key: prepared.idempotency_key,
        message_ids: new.message_ids,
        input_lines: new.input_lines,
        input_sha256: new.input_sha256,
        input_line_count: recorded_line_count(prepared.input_lines@.len()),
        boundary_fingerprint: prepared.boundary_fingerprint,
    })
}

fn copy_texts(list: &Vec<String>) -> (copy: Vec<String>)
    ensures
        copy@ == list@,
{
    let mut copy: Vec<String> = Vec::new();
    let mut i: usize = 0;
    while i < list.len()
        invariant
            i <= list.len(),
            copy@ == list@.take(i as int),
        decreases list.len() - i,
    {
        copy.push(list[i].clone());
        i += 1;
        assert(list@.take(i as int) =~= list@.take(i - 1).push(list@[i - 1]));
    }
    assert(list@.take(i as int) =~= list@);
    copy
}

/// Makes the delivery row of a prepared payload.
pub fn new_input_delivery(
    delivery_id: String,
    thread_key: &String,
    execution_id: &String,
    sequence: i64,
    prepared: &PreparedInputDelivery,
) -> (new: NewInputDelivery)
    ensures
        prepared_as(new, delivery_id, *thread_key, *execution_id, sequence, *prepared),
{
    NewInputDelivery {
        delivery_id,
        thread_key: thread_key.clone(),
        execution_id: execution_id.clone(),
        sequence,
        idempotency_key: prepared.idempotency_key.clone(),
        message_ids: copy_texts(&prepared.message_ids),
        input_lines: copy_texts(&prepared.input_lines),
        input_sha256: input_lines_sha256(prepared.input_lines.as_slice()),
        input_line_count: line_count(&prepared.input_lines),
        boundary_fingerprint: prepared.boundary_fingerprint.clone(),
    }
}

// ---------------------------------------------------------------------------
// Predicates on a row
// ---------------------------------------------------------------------------

/// A state in which the delivery is still owed.
pub open spec fn unresolved(state: Seq<char>) -> bool {
    ||| state == InputDeliveryState::Pending.name()
    ||| state == InputDeliveryState::Claimed.name()
    ||| state == InputDeliveryState::Ambiguous.name()
}

/// The owner's lease on a delivery has time left.
pub open spec fn lease_live(row: SessionInputDeliveryRow, at: Timestamp) -> bool {
    row.owner_lease_expires_at matches Some(until) && until > at
}

/// A delivery can be claimed: it is pending or ambiguous, or was claimed under a
/// lease that has run out.
pub open spec fn recoverable(row: SessionInputDeliveryRow, at: Timestamp) -> bool {
    ||| row.state@ == InputDeliveryState::Pending.name()
    ||| row.state@ == InputDeliveryState::Ambiguous.name()
    ||| row.state@ == InputDeliveryState::Claimed.name() && (
    row.owner_lease_expires_at matches Some(until) && until <= at)
}

/// A delivery is claimed by the given owner.
pub open spec fn claimed_by(row: SessionInputDeliveryRow, owner: Seq<char>) -> bool {
    row.state@ == InputDeliveryState::Claimed.name() && holds(row.owner_id, owner)
}

/// A delivery of the execution is claimed by the owner under a live lease.
pub open spec fn claimed_live_by(
    row: SessionInputDeliveryRow,
    execution_id: Seq<char>,
    owner: Seq<char>,
    at: Timestamp,
) -> bool {
    row.execution_id@ == execution_id && claimed_by(row, owner) && lease_live(row, at)
}

/// The owner holds the delivery under the generation of its own claim, with time
/// left.
pub open spec fn held(
    row: SessionInputDeliveryRow,
    owner: Seq<char>,
    generation: i64,
    at: Timestamp,
) -> bool {
    claimed_by(row, owner) && row.owner_generation == generation && lease_live(row, at)
}

/// Some delivery is still owed to the execution.
pub open spec fn unresolved_for(
    deliveries: Seq<SessionInputDeliveryRow>,
    execution_id: Seq<char>,
) -> bool {
    exists|i: int|
        0 <= i < deliveries.len() && owed_to(#[trigger] deliveries[i], execution_id)
}

/// The delivery is still owed to the execution.
pub open spec fn owed_to(row: SessionInputDeliveryRow, execution_id: Seq<char>) -> bool {
    row.execution_id@ == execution_id && unresolved(row.state@)
}

/// Whether a state is one in which the delivery is still owed.
pub fn is_unresolved(state: &str) -> (is: bool)
    ensures
        is == unresolved(state@),
{
    same_text(state, InputDeliveryState::Pending.as_ref()) || same_text(
        state,
        InputDeliveryState::Claimed.as_ref(),
    ) || same_text(state, InputDeliveryState::Ambiguous.as_ref())
}

fn is_lease_live(row: &SessionInputDeliveryRow, at: Timestamp) -> (live: bool)
    ensures
        live == lease_live(*row, at),
{
    match row.owner_lease_expires_at {
        Some(until) => until > at,
        None => false,
    }
}

/// Whether a delivery can be claimed.
pub fn is_recoverable(row: &SessionInputDeliveryRow, at: Timestamp) -> (is: bool)
    ensures
        is == recoverable(*row, at),
{
    let lapsed = match row.owner_lease_expires_at {
        Some(until) => until <= at,
        None => false,
    };
    same_text(row.state.as_str(), InputDeliveryState::Pending.as_ref()) || same_text(
        row.state.as_str(),
        InputDeliveryState::Ambiguous.as_ref(),
    ) || (lapsed && same_text(row.state.as_str(), InputDeliveryState::Claimed.as_ref()))
}

/// Whether a delivery is claimed by the given owner.
pub fn is_claimed_by(row: &SessionInputDeliveryRow, owner_id: &str) -> (is: bool)
    ensures
        is == claimed_by(*row, owner_id@),
{
    same_text(row.state.as_str(), InputDeliveryState::Claimed.as_ref()) && opt_text_is(
        &row.owner_id,
        owner_id,
    )
}

/// Whether a delivery of the execution is claimed by the owner under a live lease.
pub fn is_claimed_live_by(
    row: &SessionInputDeliveryRow,
    execution_id: &str,
    owner_id: &str,
    at: Timestamp,
) -> (is: bool)
    ensures
        is == claimed_live_by(*row, execution_id@, owner_id@, at),
{
    same_text(row.execution_id.as_str(), execution_id) && is_claimed_by(row, owner_id)
        && is_lease_live(row, at)
}

/// Whether the owner holds the delivery under the given generation, with time left.
pub fn is_held(
    row: &SessionInputDeliveryRow,
    owner_id: &str,
    owner_generation: i64,
    at: Timestamp,
) -> (is: bool)
    ensures
        is == held(*row, owner_id@, owner_generation, at),
{
    is_claimed_by(row, owner_id) && row.owner_generation == owner_generation && is_lease_live(
        row,
        at,
    )
}

/// Whether some delivery is still owed to the execution.
pub fn is_unresolved_for(deliveries: &Vec<SessionInputDeliveryRow>, execution_id: &str) -> (is: bool)
    ensures
        is == unresolved_for(deliveries@, execution_id@),
{
    let mut i: usize = 0;
    while i < deliveries.len()
        invariant
            i <= deliveries.len(),
            forall|j: int| 0 <= j < i ==> !owed_to(#[trigger] deliveries@[j], execution_id@),
        decreases deliveries.len() - i,
    {
        if same_text(deliveries[i].execution_id.as_str(), execution_id) && is_unresolved(
            deliveries[i].state.as_str(),
        ) {
            assert(owed_to(deliveries@[i as int], execution_id@));
            return true;
        }
        i += 1;
    }
    false
}

// ---------------------------------------------------------------------------
// What an owner does to the delivery that it holds
// ---------------------------------------------------------------------------

/// The delivery was given up with the given words: nobody owns it, and whether it
/// was flushed is not known.
pub open spec fn released(
    before: SessionInputDeliveryRow,
    after: SessionInputDeliveryRow,
    words: Seq<char>,
    now: Timestamp,
) -> bool {
    &&& after.state@ == InputDeliveryState::Ambiguous.name()
    &&& holds(after.last_error, words)
    &&& after == (SessionInputDeliveryRow {
        state: after.state,
        owner_id: None,
        owner_lease_expires_at: None,
        last_error: after.last_error,
        updated_at: now,
        ..before
    })
}

/// The delivery failed for good with the given words, and its lines are gone.
pub open spec fn failed(
    before: SessionInputDeliveryRow,
    after: SessionInputDeliveryRow,
    words: Seq<char>,
    clock: Clock,
) -> bool {
    &&& after.state@ == InputDeliveryState::Failed.name()
    &&& json_contents(after.input_lines) == JsonContents::Array(Seq::empty())
    &&& holds(after.last_error, words)
    &&& after == (SessionInputDeliveryRow {
        state: after.state,
        input_lines: after.input_lines,
        owner_id: None,
        owner_lease_expires_at: None,
        last_error: after.last_error,
        failed_at: Some(clock.wall),
        updated_at: clock.now,
        ..before
    })
}

/// The delivery was flushed, and its lines are gone.
pub open spec fn flushed(
    before: SessionInputDeliveryRow,
    after: SessionInputDeliveryRow,
    clock: Clock,
) -> bool {
    &&& after.state@ == InputDeliveryState::Flushed.name()
    &&& json_contents(after.input_lines) == JsonContents::Array(Seq::empty())
    &&& after == (SessionInputDeliveryRow {
        state: after.state,
        input_lines: after.input_lines,
        owner_id: None,
        owner_lease_expires_at: None,
        flushed_at: Some(clock.wall),
        updated_at: clock.now,
        ..before
    })
}

/// Leaves a delivery ambiguous.
pub fn mark_released(row: &mut SessionInputDeliveryRow, words: &str, now: Timestamp)
    ensures
        released(*old(row), *final(row), words@, now),
{
    row.state = InputDeliveryState::Ambiguous.as_ref().to_owned();
    row.owner_id = None;
    row.owner_lease_expires_at = None;
    row.last_error = Some(words.to_owned());
    row.updated_at = now;
}

/// Leaves a delivery flushed, without its lines.
pub fn mark_flushed(row: &mut SessionInputDeliveryRow, clock: Clock)
    ensures
        flushed(*old(row), *final(row), clock),
{
    row.state = InputDeliveryState::Flushed.as_ref().to_owned();
    row.input_lines = array_document(Vec::new());
    row.owner_id = None;
    row.owner_lease_expires_at = None;
    row.flushed_at = Some(clock.wall);
    row.updated_at = clock.now;
}

/// Gives up a delivery whose flush has an unknown outcome. Only its owner can,
/// under the generation of its claim and while its lease has time left.
pub fn mark_input_delivery_ambiguous(
    row: &mut SessionInputDeliveryRow,
    owner_id: &str,
    owner_generation: i64,
    error: &str,
    clock: Clock,
) -> (marked: bool)
    ensures
        marked == held(*old(row), owner_id@, owner_generation, clock.wall),
        if marked {
            released(*old(row), *final(row), error@, clock.now)
        } else {
            *final(row) == *old(row)
        },
        marked <==> old(row).state@ == "claimed"@ && old(row).owner_id is Some
            && old(row).owner_id->0@ == owner_id@
            && old(row).owner_generation == owner_generation
                && old(row).owner_lease_expires_at is Some
            && old(row).owner_lease_expires_at->0 > clock.wall,
        marked ==> final(row).state@ == "ambiguous"@ && final(row).owner_id is None
            && final(row).owner_lease_expires_at is None && final(row).last_error is Some
            && final(row).last_error->0@ == error@ && final(row).input_lines == old(row).input_lines
            && final(row).owner_generation == old(row).owner_generation,
{
    if !is_held(row, owner_id, owner_generation, clock.wall) {
        return false;
    }
    mark_released(row, error, clock.now);
    true
}

/// Records a failure that will not be retried. This is deliberately separate from
/// `ambiguous`: only an explicit failure disposition permits the execution's
/// terminal failure path to proceed.
pub fn mark_input_delivery_failed(
    row: &mut SessionInputDeliveryRow,
    owner_id: &str,
    owner_generation: i64,
    error: &str,
    clock: Clock,
) -> (marked: bool)
    ensures
        marked == held(*old(row), owner_id@, owner_generation, clock.wall),
        if marked {
            failed(*old(row), *final(row), error@, clock)
        } else {
            *final(row) == *old(row)
        },
        marked <==> old(row).state@ == "claimed"@ && old(row).owner_id is Some
            && old(row).owner_id->0@ == owner_id@
            && old(row).owner_generation == owner_generation
                && old(row).owner_lease_expires_at is Some
            && old(row).owner_lease_expires_at->0 > clock.wall,
        marked ==> final(row).state@ == "failed"@ && final(row).owner_id is None
            && final(row).owner_lease_expires_at is None && final(row).last_error is Some
            && final(row).last_error->0@ == error@ && final(row).failed_at == Some(clock.wall)
            && json_contents(final(row).input_lines) == JsonContents::Array(Seq::empty()),
{
    if !is_held(row, owner_id, owner_generation, clock.wall) {
        return false;
    }
    row.state = InputDeliveryState::Failed.as_ref().to_owned();
    row.input_lines = array_document(Vec::new());
    row.owner_id = None;
    row.owner_lease_expires_at = None;
    row.last_error = Some(error.to_owned());
    row.failed_at = Some(clock.wall);
    row.updated_at = clock.now;
    true
}

} // verus!
