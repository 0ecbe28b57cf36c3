//! What a session-store operation can be refused for.
use vstd::prelude::*;

verus! {

/// The parse error that `serde_json` reports, carried through unread.
#[verifier::external_type_specification]
#[verifier::external_body]
pub struct ExJsonError(serde_json::Error);

/// The refusals of the store's own rules. Failures of the database connection
/// and of migrations are not among them.
#[derive(Debug)]
#[allow(inconsistent_fields)]
pub enum SessionStoreError {
    NotFound { thread_key: String },
    HarnessConflict { thread_key: String, existing: String, requested: String },
    PersonaConflict { thread_key: String, existing: Option<String>, requested: Option<String> },
    PrincipalConflict { thread_key: String, existing: Option<String>, requested: Option<String> },
    InvalidPersistedValue(String),
    InputDeliveryIdempotencyConflict,
    InputDeliveryMissingForExistingExecution { execution_id: String },
    MetadataTraceIdempotencyConflict,
    MetadataTraceIdempotencyIncomplete,
    MetadataTraceIdempotencyReplayFenced,
    MetadataTraceConsentRevisionChanged,
    MetadataTraceDrainPending,
    InvalidMetadataTraceGeneration(i64),
    StaleMetadataTraceGeneration { active: i64, requested: i64 },
    MetadataTraceConfigConflict {
        generation: i64,
        existing_fingerprint: String,
        requested_fingerprint: String,
    },
    /// A predicate that had to be answered came back null.
    UnexpectedNull,
    /// A counter would leave the range of its column.
    OutOfRange,
    InvalidNotification { channel: String, payload: String, error: serde_json::Error },
}

/// Turns what a column's parser said into the store's own terms: a parsed value
/// is kept, and a refusal becomes an invalid persisted value with the parser's
/// words.
pub fn parse_persisted<T>(parsed: Result<T, String>) -> (result: Result<T, SessionStoreError>)
    ensures
        match parsed {
            Ok(value) => result == Ok::<T, SessionStoreError>(value),
            Err(words) => result == Err::<T, SessionStoreError>(
                SessionStoreError::InvalidPersistedValue(words),
            ),
        },
{
    match parsed {
        Ok(value) => Ok(value),
        Err(words) => Err(SessionStoreError::InvalidPersistedValue(words)),
    }
}

} // verus!
