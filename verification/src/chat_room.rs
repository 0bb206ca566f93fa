//! One chat room: its metadata, the broadcast bus that fans events out to
//! every subscribed session, the registry of present users, and a bounded
//! FIFO history of the most recent messages.

use vstd::prelude::*;
use std::collections::VecDeque;
use std::sync::Arc;
use crate::bus;
use crate::events::Event;
use crate::events::RoomParticipationBroadcastEvent;
use crate::events::RoomParticipationStatus;
use crate::events::UserMessageBroadcastEvent;
use crate::user_registry::UserRegistry;
use crate::user_registry::emits_joined;
use crate::user_registry::emits_left;
use crate::user_session_handle::SessionAndUserId;
use crate::user_session_handle::UserSessionHandle;

verus! {

/// How many events the broadcast bus buffers per subscriber before a slow
/// subscriber starts losing the oldest ones.
pub const BROADCAST_CHANNEL_CAPACITY: usize = 100;

/// How many messages a room's history retains.
pub const MAX_HISTORY: usize = 10;

/// The metadata that identifies a chat room; `name` is the unique key.
#[derive(Clone, Debug, PartialEq)]
pub struct ChatRoomMetadata {
    pub name: String,
    pub description: String,
}

/// History after appending one message: strict FIFO with capacity
/// `MAX_HISTORY`, the oldest entry evicted first.
pub open spec fn push_bounded(
    h: Seq<UserMessageBroadcastEvent>,
    m: UserMessageBroadcastEvent,
) -> Seq<UserMessageBroadcastEvent> {
    let grown = h.push(m);
    if grown.len() > MAX_HISTORY {
        grown.skip(1)
    } else {
        grown
    }
}

/// The history an empty room ends with after recording `msgs` in order.
pub open spec fn record_all(msgs: Seq<UserMessageBroadcastEvent>) -> Seq<UserMessageBroadcastEvent>
    decreases msgs.len(),
{
    if msgs.len() == 0 {
        Seq::empty()
    } else {
        push_bounded(record_all(msgs.drop_last()), msgs.last())
    }
}

/// Law: history is always bounded. Recording any sequence of messages into an
/// empty room retains exactly the last `min(len, MAX_HISTORY)` of them, in
/// arrival order, and nothing else.
pub proof fn lemma_history_bounded(msgs: Seq<UserMessageBroadcastEvent>)
    ensures
        record_all(msgs).len() == if msgs.len() <= MAX_HISTORY {
            msgs.len()
        } else {
            MAX_HISTORY as nat
        },
        record_all(msgs) == msgs.skip(msgs.len() - record_all(msgs).len()),
    decreases msgs.len(),
{
    if msgs.len() == 0 {
        assert(record_all(msgs) =~= msgs.skip(0));
    } else {
        lemma_history_bounded(msgs.drop_last());
        assert(record_all(msgs) =~= msgs.skip(msgs.len() - record_all(msgs).len()));
    }
}

/// Law: no lost local history. Recording a message always leaves it as the
/// newest history entry, whatever the broadcast bus did with it.
pub proof fn lemma_no_lost_local_history(
    h: Seq<UserMessageBroadcastEvent>,
    m: UserMessageBroadcastEvent,
)
    ensures
        push_bounded(h, m).len() >= 1,
        push_bounded(h, m).last() == m,
{
}

/// A well-formed room never holds more than `MAX_HISTORY` messages, so any
/// `get_history` snapshot is at most that long.
pub proof fn lemma_wf_history_bounded(room: &ChatRoom)
    requires
        room.wf(),
    ensures
        room.spec_history().len() <= MAX_HISTORY,
{
}

/// Handles the participants of a chat room and the primary broadcast channel.
/// A `UserSessionHandle` is handed out to a user when they join the room.
pub struct ChatRoom {
    metadata: ChatRoomMetadata,
    broadcast_tx: tokio::sync::broadcast::Sender<Event>,
    user_registry: UserRegistry,
    history: VecDeque<UserMessageBroadcastEvent>,
    /// Specification-level log of every event this room has handed to its
    /// broadcast bus, in hand-off order. The bus itself is opaque, so this
    /// log is what the contracts of `join`, `leave` and `send_message` pin
    /// their hand-offs to.
    sent: Ghost<Seq<Event>>,
}

impl ChatRoom {
    /// The room's metadata.
    pub closed spec fn spec_metadata(&self) -> ChatRoomMetadata {
        self.metadata
    }

    /// The room's name.
    pub open spec fn spec_name(&self) -> Seq<char> {
        self.spec_metadata().name@
    }

    /// The retained messages, oldest first.
    pub closed spec fn spec_history(&self) -> Seq<UserMessageBroadcastEvent> {
        self.history@
    }

    /// The number of live sessions the room records for `user`.
    pub closed spec fn spec_count(&self, user: Seq<char>) -> nat {
        self.user_registry.spec_count(user)
    }

    /// The sending half of the room's broadcast bus.
    pub closed spec fn spec_sender(&self) -> tokio::sync::broadcast::Sender<Event> {
        self.broadcast_tx
    }

    /// Every event this room has handed to its broadcast bus, in order.
    /// Hand-off is all the room can promise: whether a subscriber receives
    /// an event depends on the concurrent state of the bus.
    pub closed spec fn spec_sent(&self) -> Seq<Event> {
        self.sent@
    }

    /// Well-formed: the registry is, and the history never exceeds its
    /// capacity.
    pub closed spec fn wf(&self) -> bool {
        &&& self.user_registry.wf()
        &&& self.spec_history().len() <= MAX_HISTORY
    }

    pub fn new(metadata: ChatRoomMetadata) -> (r: Self)
        ensures
            r.wf(),
            r.spec_metadata() == metadata,
            r.spec_history().len() == 0,
            forall|u: Seq<char>| r.spec_count(u) == 0,
            r.spec_sent().len() == 0,
    {
        let (broadcast_tx, _rx) = tokio::sync::broadcast::channel(BROADCAST_CHANNEL_CAPACITY);

        ChatRoom {
            metadata,
            broadcast_tx,
            user_registry: UserRegistry::new(),
            history: VecDeque::with_capacity(MAX_HISTORY),
            sent: Ghost(Seq::empty()),
        }
    }

    /// The ids of the users present in the room (at least one live session),
    /// one each, in no promised order.
    pub fn get_unique_user_ids(&self) -> (r: Vec<String>)
        requires
            self.wf(),
        ensures
            forall|k: int| 0 <= k < r@.len() ==> self.spec_count(#[trigger] r@[k]@) > 0,
            forall|u: Seq<char>|
                self.spec_count(u) > 0 ==> exists|k: int| 0 <= k < r@.len() && #[trigger] r@[k]@
                    == u,
            forall|k: int, l: int| 0 <= k < l < r@.len() ==> r@[k]@ != r@[l]@,
    {
        self.user_registry.get_unique_user_ids()
    }

    /// Add a participant to the room: subscribe a fresh receiver first (so the
    /// new session cannot miss a concurrent message), hand out the session
    /// handle, register the session, and, exactly when this is the user's
    /// first live session, hand a best-effort `Joined` event to the bus.
    /// The returned receiver is a fresh subscription on this room's bus; the
    /// receiver type is opaque here, so no clause can speak of it.
    pub fn join(
        &mut self,
        session_and_user_id: &SessionAndUserId,
        chat_room: Arc<tokio::sync::Mutex<ChatRoom>>,
    ) -> (r: (tokio::sync::broadcast::Receiver<Event>, UserSessionHandle))
        requires
            old(self).wf(),
            old(self).spec_count(session_and_user_id.user_id@) < u64::MAX,
        ensures
            final(self).wf(),
            final(self).spec_count(session_and_user_id.user_id@) == old(self).spec_count(
                session_and_user_id.user_id@,
            ) + 1,
            forall|u: Seq<char>|
                u != session_and_user_id.user_id@
                    ==> final(self).spec_count(u) == old(self).spec_count(u),
            final(self).spec_history() == old(self).spec_history(),
            final(self).spec_metadata() == old(self).spec_metadata(),
            final(self).spec_sender() == old(self).spec_sender(),
            r.1.spec_room() == old(self).spec_name(),
            r.1.spec_identity() == *session_and_user_id,
            r.1.spec_sender() == old(self).spec_sender(),
            r.1.spec_room_ref() == chat_room,
            final(self).spec_sent() == if emits_joined(
                old(self).spec_count(session_and_user_id.user_id@),
            ) {
                old(self).spec_sent().push(
                    Event::RoomParticipation(
                        (RoomParticipationBroadcastEvent {
                            user_id: session_and_user_id.user_id,
                            room: old(self).spec_metadata().name,
                            status: RoomParticipationStatus::Joined,
                        }),
                    ),
                )
            } else {
                old(self).spec_sent()
            },
    {
        let broadcast_tx = self.broadcast_tx.clone();
        let broadcast_rx = broadcast_tx.subscribe();
        let user_session_handle = UserSessionHandle::new(
            self.metadata.name.clone(),
            broadcast_tx,
            session_and_user_id.duplicate(),
            chat_room,
        );

        // If the user is new, e.g. they do not have another session with the
        // same user id, broadcast to all users that they joined.
        if self.user_registry.insert(&session_and_user_id.user_id) {
            let event = Event::RoomParticipation(
                RoomParticipationBroadcastEvent {
                    user_id: session_and_user_id.user_id.clone(),
                    room: self.metadata.name.clone(),
                    status: RoomParticipationStatus::Joined,
                },
            );
            self.sent = Ghost(self.sent@.push(event));
            let _ = bus::send_event(&self.broadcast_tx, event);
        }
        (broadcast_rx, user_session_handle)
    }

    /// Remove a participant from the room, consuming its handle. Exactly when
    /// the leaving session was the user's last one, a best-effort `Left`
    /// event is handed to the bus; any earlier leave hands over nothing.
    pub fn leave(&mut self, user_session_handle: UserSessionHandle)
        requires
            old(self).wf(),
        ensures
            final(self).wf(),
            old(self).spec_count(user_session_handle.spec_identity().user_id@) > 0
                ==> final(self).spec_count(user_session_handle.spec_identity().user_id@)
                == old(self).spec_count(user_session_handle.spec_identity().user_id@) - 1,
            old(self).spec_count(user_session_handle.spec_identity().user_id@) == 0
                ==> final(self).spec_count(user_session_handle.spec_identity().user_id@) == 0,
            forall|u: Seq<char>|
                u != user_session_handle.spec_identity().user_id@ ==> final(self).spec_count(u)
                    == old(self).spec_count(u),
            final(self).spec_history() == old(self).spec_history(),
            final(self).spec_metadata() == old(self).spec_metadata(),
            final(self).spec_sender() == old(self).spec_sender(),
            final(self).spec_sent() == if emits_left(
                old(self).spec_count(user_session_handle.spec_identity().user_id@),
            ) {
                old(self).spec_sent().push(
                    Event::RoomParticipation(
                        (RoomParticipationBroadcastEvent {
                            user_id: user_session_handle.spec_identity().user_id,
                            room: old(self).spec_metadata().name,
                            status: RoomParticipationStatus::Left,
                        }),
                    ),
                )
            } else {
                old(self).spec_sent()
            },
    {
        if self.user_registry.remove(&user_session_handle.identity().user_id) {
            let event = Event::RoomParticipation(
                RoomParticipationBroadcastEvent {
                    user_id: user_session_handle.identity().user_id.clone(),
                    room: self.metadata.name.clone(),
                    status: RoomParticipationStatus::Left,
                },
            );
            self.sent = Ghost(self.sent@.push(event));
            let _ = bus::send_event(&self.broadcast_tx, event);
        }
    }

    /// Send a message to all users in the room and record it in the history:
    /// the message enters the bounded FIFO before the broadcast is attempted,
    /// so it is retained whatever the bus did with it.
    pub fn send_message(&mut self, user_id: String, content: String)
        requires
            old(self).wf(),
        ensures
            final(self).wf(),
            final(self).spec_history() == push_bounded(
                old(self).spec_history(),
                (UserMessageBroadcastEvent {
                    room: old(self).spec_metadata().name,
                    user_id: user_id,
                    content: content,
                }),
            ),
            forall|u: Seq<char>| final(self).spec_count(u) == old(self).spec_count(u),
            final(self).spec_metadata() == old(self).spec_metadata(),
            final(self).spec_sender() == old(self).spec_sender(),
            final(self).spec_sent() == old(self).spec_sent().push(
                Event::UserMessage(
                    (UserMessageBroadcastEvent {
                        room: old(self).spec_metadata().name,
                        user_id: user_id,
                        content: content,
                    }),
                ),
            ),
    {
        let message_event = UserMessageBroadcastEvent {
            room: self.metadata.name.clone(),
            user_id,
            content,
        };

        self.history.push_back(message_event.duplicate());
        if self.history.len() > MAX_HISTORY {
            self.history.pop_front();
        }

        let outgoing = Event::UserMessage(message_event);
        self.sent = Ghost(self.sent@.push(outgoing));
        let _ = bus::send_event(&self.broadcast_tx, outgoing);
    }

    /// Record an already-broadcast message in the history without
    /// broadcasting it again: the room hands nothing to its bus here.
    pub fn record_message(&mut self, message: &UserMessageBroadcastEvent)
        requires
            old(self).wf(),
        ensures
            final(self).wf(),
            final(self).spec_history() == push_bounded(old(self).spec_history(), *message),
            forall|u: Seq<char>| final(self).spec_count(u) == old(self).spec_count(u),
            final(self).spec_metadata() == old(self).spec_metadata(),
            final(self).spec_sender() == old(self).spec_sender(),
            final(self).spec_sent() == old(self).spec_sent(),
    {
        self.history.push_back(message.duplicate());

        if self.history.len() > MAX_HISTORY {
            self.history.pop_front();
        }
    }

    /// A snapshot of the history of messages in the room, oldest first.
    pub fn get_history(&self) -> (r: Vec<UserMessageBroadcastEvent>)
        ensures
            r@ == self.spec_history(),
    {
        let n = self.history.len();
        let mut r: Vec<UserMessageBroadcastEvent> = Vec::new();
        let mut i: usize = 0;
        while i < n
            invariant
                0 <= i <= n,
                n == self.history@.len(),
                r@.len() == i,
                forall|k: int| 0 <= k < i ==> r@[k] == self.history@[k],
            decreases n - i,
        {
            r.push(self.history[i].duplicate());
            i += 1;
        }
        proof {
            assert(r@ =~= self.history@);
        }
        r
    }
}

} // verus!
