//! The process-wide registry of rooms: built once at startup from static
//! metadata, then shared read-only by every connection task. Each room sits
//! behind its own lock, so no room ever waits on another.

use vstd::prelude::*;
use std::sync::Arc;
use crate::bus;
use crate::chat_room::ChatRoom;
use crate::chat_room::ChatRoomMetadata;

verus! {

/// One named room and the lock every task shares to reach it.
pub struct RoomEntry {
    pub name: String,
    pub room: Arc<tokio::sync::Mutex<ChatRoom>>,
    /// Specification-level snapshot of the room as created, before any task
    /// reached it: the lock is opaque, so this is where the build phase pins
    /// each configured room's start state.
    pub initial: Ghost<ChatRoom>,
}

/// Whether some entry carries `name`.
pub open spec fn has_name(entries: Seq<RoomEntry>, name: Seq<char>) -> bool {
    exists|i: int| 0 <= i < entries.len() && #[trigger] entries[i].name@ == name
}

/// Well-formed entries: every room name occurs once.
pub open spec fn room_names_unique(entries: Seq<RoomEntry>) -> bool {
    forall|i: int, j: int| 0 <= i < j < entries.len() ==> entries[i].name@ != entries[j].name@
}

/// Accumulates the rooms the manager will hold, one `create_room` per
/// metadata entry.
pub struct RoomManagerBuilder {
    rooms: Vec<RoomEntry>,
}

/// The immutable name-to-room map every connection task shares. Built once;
/// no room is ever added or removed at runtime.
pub struct RoomManager {
    rooms: Vec<RoomEntry>,
}

impl RoomManagerBuilder {
    /// The accumulated entries, in creation order.
    pub closed spec fn entries(&self) -> Seq<RoomEntry> {
        self.rooms@
    }

    /// Whether a room of that name was already created.
    pub open spec fn spec_has_room(&self, name: Seq<char>) -> bool {
        has_name(self.entries(), name)
    }

    /// Well-formed: no two rooms share a name.
    pub open spec fn wf(&self) -> bool {
        room_names_unique(self.entries())
    }

    pub fn new() -> (r: Self)
        ensures
            r.wf(),
            r.entries().len() == 0,
    {
        RoomManagerBuilder { rooms: Vec::new() }
    }

    /// Whether a room of that name was already created. Callers check this
    /// before `create_room`: duplicate metadata is a fatal configuration
    /// error, rejected at build-up, never a silent overwrite.
    pub fn has_room(&self, name: &String) -> (r: bool)
        ensures
            r == self.spec_has_room(name@),
    {
        let n = self.rooms.len();
        let mut i: usize = 0;
        while i < n
            invariant
                0 <= i <= n,
                n == self.rooms@.len(),
                forall|k: int| 0 <= k < i ==> self.rooms@[k].name@ != name@,
            decreases n - i,
        {
            if self.rooms[i].name == *name {
                return true;
            }
            i += 1;
        }
        false
    }

    /// Instantiates one room for `metadata` and adds it under the metadata's
    /// name. The new room starts well-formed and empty: no history, no
    /// present user, nothing handed to its bus.
    pub fn create_room(self, metadata: ChatRoomMetadata) -> (r: Self)
        requires
            self.wf(),
            !self.spec_has_room(metadata.name@),
        ensures
            r.wf(),
            r.entries().len() == self.entries().len() + 1,
            r.entries().drop_last() == self.entries(),
            r.entries().last().name@ == metadata.name@,
            r.entries().last().initial@.wf(),
            r.entries().last().initial@.spec_metadata() == metadata,
            r.entries().last().initial@.spec_history().len() == 0,
            forall|u: Seq<char>| r.entries().last().initial@.spec_count(u) == 0,
            r.entries().last().initial@.spec_sent().len() == 0,
    {
        let name = metadata.name.clone();
        let room = ChatRoom::new(metadata);
        let ghost snapshot = room;
        let entry = RoomEntry { name, room: Arc::new(bus::new_lock(room)), initial: Ghost(snapshot) };
        let mut rooms = self.rooms;
        rooms.push(entry);
        proof {
            assert(rooms@.drop_last() =~= self.rooms@);
        }
        RoomManagerBuilder { rooms }
    }

    /// Finalizes the accumulated rooms into the immutable manager.
    pub fn build(self) -> (r: RoomManager)
        requires
            self.wf(),
        ensures
            r.wf(),
            r.entries() == self.entries(),
    {
        RoomManager { rooms: self.rooms }
    }
}

/// Law: room isolation. In a well-formed manager two different positions
/// never share a name, so `lookup` leads two different names to two
/// different entries, each with its own lock; an operation on one room's
/// state takes only that room's lock and mutates only that room's value.
pub proof fn lemma_rooms_independent(manager: RoomManager, i: int, j: int)
    requires
        manager.wf(),
        0 <= i < manager.entries().len(),
        0 <= j < manager.entries().len(),
        i != j,
    ensures
        manager.entries()[i].name@ != manager.entries()[j].name@,
{
}

impl RoomManager {
    /// The manager's entries, in creation order.
    pub closed spec fn entries(&self) -> Seq<RoomEntry> {
        self.rooms@
    }

    /// Whether the manager holds a room of that name.
    pub open spec fn spec_has_room(&self, name: Seq<char>) -> bool {
        has_name(self.entries(), name)
    }

    /// Well-formed: no two rooms share a name.
    pub open spec fn wf(&self) -> bool {
        room_names_unique(self.entries())
    }

    /// The shared handle to the room called `name`, or `None` when no such
    /// room was configured. The handle is the entry's own (not a copy of the
    /// room), so callers of two different names lock two different rooms.
    pub fn lookup(&self, name: &String) -> (r: Option<&Arc<tokio::sync::Mutex<ChatRoom>>>)
        ensures
            match r {
                Some(room) => exists|i: int|
                    0 <= i < self.entries().len() && #[trigger] self.entries()[i].name@ == name@
                        && *room == self.entries()[i].room,
                None => !self.spec_has_room(name@),
            },
    {
        let n = self.rooms.len();
        let mut i: usize = 0;
        while i < n
            invariant
                0 <= i <= n,
                n == self.rooms@.len(),
                forall|k: int| 0 <= k < i ==> self.rooms@[k].name@ != name@,
            decreases n - i,
        {
            if self.rooms[i].name == *name {
                proof {
                    assert(self.entries()[i as int].name@ == name@);
                }
                return Some(&self.rooms[i].room);
            }
            i += 1;
        }
        None
    }
}

} // verus!
