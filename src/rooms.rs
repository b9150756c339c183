//! The authoritative collection of rooms, with a dirty bit that records
//! whether it was written since the scene was last rebuilt from it.
use vstd::prelude::*;
use crate::physics::Point;

verus! {

/// A named location: where its door platform stands, its display name and
/// its identifier.
#[derive(Clone, Debug)]
pub struct RoomDescriptor {
    pub position: Point,
    pub room_name: String,
    pub room_id: String,
}

/// The rooms in their semantically meaningful order, and whether they were
/// written since they were last consumed.
pub struct RoomStateStore {
    rooms: Vec<RoomDescriptor>,
    dirty: bool,
}

pub(crate) fn copy_descriptor(d: &RoomDescriptor) -> (r: RoomDescriptor)
    ensures
        r == *d,
{
    RoomDescriptor { position: d.position, room_name: d.room_name.clone(), room_id: d.room_id.clone() }
}

impl RoomStateStore {
    /// The rooms held.
    pub closed spec fn rooms(&self) -> Seq<RoomDescriptor> {
        self.rooms@
    }

    /// Whether the rooms were written since they were last consumed.
    pub closed spec fn dirty(&self) -> bool {
        self.dirty
    }

    /// A store holding `rooms`. A new store counts as written, so the first
    /// reconciliation builds its fixtures.
    pub fn new(rooms: Vec<RoomDescriptor>) -> (r: Self)
        ensures
            r.rooms() == rooms@,
            r.dirty(),
    {
        RoomStateStore { rooms, dirty: true }
    }

    /// Replaces the rooms and marks the store dirty, whether or not the new
    /// rooms equal the old ones.
    pub fn set_rooms(&mut self, rooms: Vec<RoomDescriptor>)
        ensures
            final(self).rooms() == rooms@,
            final(self).dirty(),
    {
        self.rooms = rooms;
        self.dirty = true;
    }

    /// The rooms held; the dirty bit is left as it is.
    pub fn snapshot(&self) -> (r: &Vec<RoomDescriptor>)
        ensures
            r@ == self.rooms(),
    {
        &self.rooms
    }

    /// Whether the rooms were written since they were last consumed.
    pub fn is_dirty(&self) -> (r: bool)
        ensures
            r == self.dirty(),
    {
        self.dirty
    }

    /// A copy of the rooms held; clears the dirty bit.
    pub fn consume_and_clear(&mut self) -> (r: Vec<RoomDescriptor>)
        ensures
            r@ == old(self).rooms(),
            final(self).rooms() == old(self).rooms(),
            !final(self).dirty(),
    {
        self.dirty = false;
        let mut out: Vec<RoomDescriptor> = Vec::new();
        let n = self.rooms.len();
        let mut i: usize = 0;
        while i < n
            invariant
                n == self.rooms@.len(),
                i <= n,
                out@ == self.rooms@.take(i as int),
            decreases n - i,
        {
            out.push(copy_descriptor(&self.rooms[i]));
            proof {
                assert(self.rooms@.take(i as int + 1) =~= self.rooms@.take(i as int).push(self.rooms@[i as int]));
            }
            i += 1;
        }
        proof {
            assert(self.rooms@.take(n as int) =~= self.rooms@);
        }
        out
    }
}

} // verus!
