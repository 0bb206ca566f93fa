//! The event payloads carried on a room's broadcast bus, and the error a
//! session sees when the bus cannot take a message.

use vstd::prelude::*;

verus! {

/// A text message sent by a user to a room.
#[derive(Clone, Debug, PartialEq)]
pub struct UserMessageBroadcastEvent {
    pub room: String,
    pub user_id: String,
    pub content: String,
}

/// Whether a participation event announces a user joining or leaving a room.
#[derive(Clone, Copy, Debug, PartialEq, Eq)]
pub enum RoomParticipationStatus {
    Joined,
    Left,
}

/// A join/leave notification, emitted only on a user's first join or last
/// leave across all of that user's concurrent sessions.
#[derive(Clone, Debug, PartialEq)]
pub struct RoomParticipationBroadcastEvent {
    pub user_id: String,
    pub room: String,
    pub status: RoomParticipationStatus,
}

/// The only payloads carried on a room's broadcast bus.
#[derive(Clone, Debug, PartialEq)]
pub enum Event {
    UserMessage(UserMessageBroadcastEvent),
    RoomParticipation(RoomParticipationBroadcastEvent),
}

/// Returned when a message from a live session cannot be handed to the
/// broadcast bus at all (the bus had no subscriber to take it). This is the
/// fatal, session-terminating failure of `UserSessionHandle`; the best-effort
/// participation broadcasts never surface it.
#[derive(Clone, Copy, Debug, PartialEq, Eq)]
pub struct ChannelError;

impl UserMessageBroadcastEvent {
    /// A field-by-field copy whose value verified callers know exactly.
    pub fn duplicate(&self) -> (r: Self)
        ensures
            r == *self,
    {
        UserMessageBroadcastEvent {
            room: self.room.clone(),
            user_id: self.user_id.clone(),
            content: self.content.clone(),
        }
    }
}

} // verus!
