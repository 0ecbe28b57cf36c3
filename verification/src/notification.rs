//! Notifications that a session has a new event.
use crate::error::SessionStoreError;
use crate::text::same_text;
use vstd::prelude::*;

verus! {

/// The channel on which new events are announced.
pub const SESSION_EVENTS_CHANNEL: &'static str = "centaur_session_events";

/// A session has a new event.
#[derive(Clone, Debug, PartialEq, Eq)]
pub struct SessionEventNotification {
    pub thread_key: String,
    pub event_id: i64,
}

/// What a received notification comes to: nothing on another channel; on ours, what
/// its payload was parsed into, or why it could not be.
pub open spec fn notification_read(
    outcome: Option<Result<SessionEventNotification, SessionStoreError>>,
    channel: Seq<char>,
    payload: Seq<char>,
    parsed: Result<SessionEventNotification, serde_json::Error>,
) -> bool {
    if channel != SESSION_EVENTS_CHANNEL@ {
        outcome is None
    } else {
        match parsed {
            Ok(notification) => outcome == Some(
                Ok::<SessionEventNotification, SessionStoreError>(notification),
            ),
            Err(refusal) => {
                &&& outcome matches Some(Err(SessionStoreError::InvalidNotification {
                    channel: on,
                    payload: text,
                    error,
                }))
                &&& on@ == channel
                &&& text@ == payload
                &&& error == refusal
            },
        }
    }
}

/// Decides what a received notification comes to. Without an outcome the listener
/// waits for the next one.
pub fn receive_notification(
    channel: &str,
    payload: &str,
    parsed: Result<SessionEventNotification, serde_json::Error>,
) -> (outcome: Option<Result<SessionEventNotification, SessionStoreError>>)
    ensures
        notification_read(outcome, channel@, payload@, parsed),
{
    if !same_text(channel, SESSION_EVENTS_CHANNEL) {
        return None;
    }
    match parsed {
        Ok(notification) => Some(Ok(notification)),
        Err(error) => Some(
            Err(
                SessionStoreError::InvalidNotification {
                    channel: channel.to_owned(),
                    payload: payload.to_owned(),
                    error,
                },
            ),
        ),
    }
}

} // verus!
