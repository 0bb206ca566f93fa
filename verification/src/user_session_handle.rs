//! The capability a connection receives when it joins a room: the identity
//! pair it joined with, a sender into the room's broadcast bus, and the
//! shared reference to the room itself.

use vstd::prelude::*;
use std::sync::Arc;
use crate::bus;
use crate::chat_room::ChatRoom;
use crate::events::ChannelError;
use crate::events::Event;
use crate::events::UserMessageBroadcastEvent;

verus! {

/// One live connection's identity in a room: the session id is unique per
/// connection, while one user may hold several concurrent sessions.
#[derive(Clone, Debug, PartialEq)]
pub struct SessionAndUserId {
    pub session_id: String,
    pub user_id: String,
}

impl SessionAndUserId {
    /// A field-by-field copy whose value verified callers know exactly.
    pub fn duplicate(&self) -> (r: Self)
        ensures
            r == *self,
    {
        SessionAndUserId {
            session_id: self.session_id.clone(),
            user_id: self.user_id.clone(),
        }
    }
}

/// Lets a specific user/session pair interact with the room it joined:
/// broadcast messages, and reach the shared room to record them in its
/// history. Created once per successful join and consumed by leave.
pub struct UserSessionHandle {
    /// The name of the room which this handle belongs to.
    room: String,
    /// The sending half of that room's broadcast bus.
    broadcast_tx: tokio::sync::broadcast::Sender<Event>,
    /// The identity pair the session joined with.
    session_and_user_id: SessionAndUserId,
    /// The shared room, for recording history without re-broadcasting.
    chat_room: Arc<tokio::sync::Mutex<ChatRoom>>,
}

impl UserSessionHandle {
    /// The name of the room which this handle belongs to.
    pub closed spec fn spec_room(&self) -> Seq<char> {
        self.room@
    }

    /// The identity pair the session joined with.
    pub closed spec fn spec_identity(&self) -> SessionAndUserId {
        self.session_and_user_id
    }

    /// The sending half this handle broadcasts on.
    pub closed spec fn spec_sender(&self) -> tokio::sync::broadcast::Sender<Event> {
        self.broadcast_tx
    }

    /// The shared room this handle records history in.
    pub closed spec fn spec_room_ref(&self) -> Arc<tokio::sync::Mutex<ChatRoom>> {
        self.chat_room
    }

    pub(crate) fn new(
        room: String,
        broadcast_tx: tokio::sync::broadcast::Sender<Event>,
        session_and_user_id: SessionAndUserId,
        chat_room: Arc<tokio::sync::Mutex<ChatRoom>>,
    ) -> (r: Self)
        ensures
            r.spec_room() == room@,
            r.spec_identity() == session_and_user_id,
            r.spec_sender() == broadcast_tx,
            r.spec_room_ref() == chat_room,
    {
        UserSessionHandle { room, broadcast_tx, session_and_user_id, chat_room }
    }

    pub fn room(&self) -> (r: &str)
        ensures
            r@ == self.spec_room(),
    {
        self.room.as_str()
    }

    pub fn session_id(&self) -> (r: &str)
        ensures
            r@ == self.spec_identity().session_id@,
    {
        self.session_and_user_id.session_id.as_str()
    }

    pub fn user_id(&self) -> (r: &str)
        ensures
            r@ == self.spec_identity().user_id@,
    {
        self.session_and_user_id.user_id.as_str()
    }

    /// The identity pair the session joined with.
    pub fn identity(&self) -> (r: &SessionAndUserId)
        ensures
            *r == self.spec_identity(),
    {
        &self.session_and_user_id
    }

    /// The shared room behind this handle, for the caller to lock.
    pub fn room_ref(&self) -> (r: &Arc<tokio::sync::Mutex<ChatRoom>>)
        ensures
            *r == self.spec_room_ref(),
    {
        &self.chat_room
    }

    /// The message event this session sends for `content`: the handle's room
    /// and user id around the given text.
    pub fn message_event(&self, content: String) -> (e: UserMessageBroadcastEvent)
        ensures
            e.room@ == self.spec_room(),
            e.user_id == self.spec_identity().user_id,
            e.content == content,
    {
        UserMessageBroadcastEvent {
            room: self.room.clone(),
            user_id: self.session_and_user_id.user_id.clone(),
            content,
        }
    }

    /// Hands an event to the room's broadcast bus directly, without touching
    /// the room's lock. `Err(ChannelError)` means the bus could not take the
    /// event at all; whether that happens depends on the room's concurrent
    /// subscribers, so nothing more is promised of the result.
    pub fn broadcast_message(&self, event: Event) -> (r: Result<(), ChannelError>) {
        bus::send_event(&self.broadcast_tx, event)
    }
}

} // verus!
