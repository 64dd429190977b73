//! The registry of rooms: for each room identifier, the set of its members
//! and its broadcast channel, created together and never removed.

use vstd::prelude::*;
use std::collections::{HashMap, HashSet};
use crate::broadcast::{Broadcaster, Subscription, valid_capacity, DEFAULT_CAPACITY};

verus! {

broadcast use vstd::std_specs::hash::group_hash_axioms;

/// An entry for the append-only room log: one per room created, one per
/// member added.
#[derive(PartialEq, Eq, Structural, Clone, Copy, Debug)]
pub enum RoomLogEvent {
    RoomCreated { room: u128 },
    MemberAdded { room: u128, user: u128 },
}

/// Why a registry operation did nothing.
#[derive(PartialEq, Eq, Structural, Clone, Copy, Debug)]
pub enum RoomError {
    /// No room has this identifier.
    UnknownRoom { room: u128 },
    /// A room was to be made under a fresh identifier that is already taken.
    IdInUse { room: u128 },
}

/// The room that `ensure_room` settles on: the one asked for, or the fresh
/// identifier when none was asked for.
pub open spec fn target_room(requested: Option<u128>, fresh: u128) -> u128 {
    match requested {
        Some(id) => id,
        None => fresh,
    }
}

/// `ensure_room` refuses a fresh identifier that already names a room.
pub open spec fn ensure_refused(
    rooms: Map<u128, Set<u128>>,
    requested: Option<u128>,
    fresh: u128,
) -> bool {
    requested is None && rooms.contains_key(fresh)
}

/// The rooms once `room` exists: unchanged if it did, else with `room`
/// added with no member.
pub open spec fn with_room(rooms: Map<u128, Set<u128>>, room: u128) -> Map<u128, Set<u128>> {
    if rooms.contains_key(room) {
        rooms
    } else {
        rooms.insert(room, Set::empty())
    }
}

/// The rooms once `user` is a member of `room`.
pub open spec fn with_member(rooms: Map<u128, Set<u128>>, room: u128, user: u128) -> Map<
    u128,
    Set<u128>,
> {
    rooms.insert(room, rooms[room].insert(user))
}

/// The log entry, if any, of making sure that `room` exists.
pub open spec fn creation_event(rooms: Map<u128, Set<u128>>, room: u128) -> Option<RoomLogEvent> {
    if rooms.contains_key(room) {
        None
    } else {
        Some(RoomLogEvent::RoomCreated { room })
    }
}

/// One room: its members and its channel.
struct Room {
    members: HashSet<u128>,
    channel: Broadcaster,
}

/// All rooms of the process, by identifier.
pub struct RoomRegistry {
    rooms: HashMap<u128, Room>,
    capacity: usize,
}

/// What `ensure_room` hands back: the room, a handle on its channel, and
/// the log entry of its creation when it was made by this call.
pub struct EnsuredRoom {
    pub room: u128,
    pub broadcaster: Broadcaster,
    pub log: Option<RoomLogEvent>,
}

impl RoomRegistry {
    /// The members of each room, by room identifier.
    pub closed spec fn members(&self) -> Map<u128, Set<u128>> {
        Map::new(|k: u128| self.rooms@.contains_key(k), |k: u128| self.rooms@[k].members@)
    }

    /// The channel of a room that exists.
    pub closed spec fn channel(&self, room: u128) -> Broadcaster {
        self.rooms@[room].channel
    }

    /// How many frames each new room's channel keeps for lagging readers.
    pub closed spec fn capacity(&self) -> usize {
        self.capacity
    }

    /// Every room's channel belongs to that room, and new channels can be
    /// made with the registry's capacity.
    pub closed spec fn wf(&self) -> bool {
        &&& valid_capacity(self.capacity)
        &&& forall|k: u128| #[trigger]
            self.rooms@.contains_key(k) ==> self.rooms@[k].channel.room() == k
    }

    /// An empty registry whose channels keep `DEFAULT_CAPACITY` frames.
    pub fn new() -> (r: RoomRegistry)
        ensures
            r.wf(),
            r.members() == Map::<u128, Set<u128>>::empty(),
            r.capacity() == DEFAULT_CAPACITY,
    {
        RoomRegistry::with_capacity(DEFAULT_CAPACITY)
    }

    /// An empty registry whose channels keep `capacity` frames, rounded up
    /// to a power of two.
    pub fn with_capacity(capacity: usize) -> (r: RoomRegistry)
        requires
            valid_capacity(capacity),
        ensures
            r.wf(),
            r.members() == Map::<u128, Set<u128>>::empty(),
            r.capacity() == capacity,
    {
        let r = RoomRegistry { rooms: HashMap::new(), capacity };
        assert(r.members() =~= Map::<u128, Set<u128>>::empty());
        r
    }

    /// Whether a room has this identifier.
    pub fn contains_room(&self, room: u128) -> (r: bool)
        ensures
            r == self.members().contains_key(room),
    {
        self.rooms.contains_key(&room)
    }

    /// Whether `user` is a member of `room`; false when there is no such room.
    pub fn is_member(&self, room: u128, user: u128) -> (r: bool)
        ensures
            r == (self.members().contains_key(room) && self.members()[room].contains(user)),
    {
        match self.rooms.get(&room) {
            Some(rm) => rm.members.contains(&user),
            None => false,
        }
    }

    /// Makes sure that a room exists and hands back a handle on its channel.
    /// With an identifier, the room is made if it does not exist yet; without
    /// one, a room is made under `fresh`, which is refused if it is taken.
    /// A room is made together with its channel, and a room that exists
    /// keeps its members and its channel.
    pub fn ensure_room(&mut self, requested: Option<u128>, fresh: u128) -> (r: Result<
        EnsuredRoom,
        RoomError,
    >)
        requires
            old(self).wf(),
        ensures
            final(self).wf(),
            final(self).capacity() == old(self).capacity(),
            ensure_refused(old(self).members(), requested, fresh) ==> {
                &&& r == Err::<EnsuredRoom, RoomError>(RoomError::IdInUse { room: fresh })
                &&& final(self).members() == old(self).members()
            },
            !ensure_refused(old(self).members(), requested, fresh) ==> {
                let room = target_room(requested, fresh);
                &&& r is Ok
                &&& r->Ok_0.room == room
                &&& r->Ok_0.broadcaster.room() == room
                &&& r->Ok_0.log == creation_event(old(self).members(), room)
                &&& final(self).members() == with_room(old(self).members(), room)
            },
            forall|k: u128| #[trigger]
                old(self).members().contains_key(k) ==> final(self).channel(k) == old(self).channel(
                    k,
                ),
    {
        let room = match requested {
            Some(id) => id,
            None => {
                if self.rooms.contains_key(&fresh) {
                    return Err(RoomError::IdInUse { room: fresh });
                }
                fresh
            },
        };
        let log = if self.rooms.contains_key(&room) {
            None
        } else {
            let channel = Broadcaster::new(room, self.capacity);
            self.rooms.insert(room, Room { members: HashSet::new(), channel });
            proof {
                assert(self.members() =~= old(self).members().insert(room, Set::empty()));
            }
            Some(RoomLogEvent::RoomCreated { room })
        };
        let broadcaster = match self.rooms.get(&room) {
            Some(rm) => rm.channel.handle(),
            None => {
                return Err(RoomError::UnknownRoom { room });
            },
        };
        Ok(EnsuredRoom { room, broadcaster, log })
    }
    /// Adds `user` to the members of `room`; adding a member twice changes
    /// nothing more. Returns the log entry of the addition, which is owed on
    /// every call, or `UnknownRoom` when there is no such room.
    pub fn add_member(&mut self, room: u128, user: u128) -> (r: Result<RoomLogEvent, RoomError>)
        requires
            old(self).wf(),
        ensures
            final(self).wf(),
            final(self).capacity() == old(self).capacity(),
            old(self).members().contains_key(room) ==> {
                &&& r == Ok::<RoomLogEvent, RoomError>(RoomLogEvent::MemberAdded { room, user })
                &&& final(self).members() == with_member(old(self).members(), room, user)
            },
            !old(self).members().contains_key(room) ==> {
                &&& r == Err::<RoomLogEvent, RoomError>(RoomError::UnknownRoom { room })
                &&& final(self).members() == old(self).members()
            },
            forall|k: u128| #[trigger]
                old(self).members().contains_key(k) ==> final(self).channel(k) == old(self).channel(
                    k,
                ),
    {
        match self.rooms.remove(&room) {
            Some(rm) => {
                let mut rm = rm;
                rm.members.insert(user);
                self.rooms.insert(room, rm);
                proof {
                    assert(self.members() =~= with_member(old(self).members(), room, user));
                    assert(self.rooms@ =~= old(self).rooms@.insert(room, rm));
                }
                Ok(RoomLogEvent::MemberAdded { room, user })
            },
            None => Err(RoomError::UnknownRoom { room }),
        }
    }

    /// A handle on the channel of `room`, if it exists.
    pub fn broadcaster(&self, room: u128) -> (r: Option<Broadcaster>)
        requires
            self.wf(),
        ensures
            r is Some <==> self.members().contains_key(room),
            r matches Some(b) ==> b.room() == room,
    {
        match self.rooms.get(&room) {
            Some(rm) => Some(rm.channel.handle()),
            None => None,
        }
    }

    /// A new reader of the channel of `room`, if it exists.
    pub fn subscribe(&self, room: u128) -> (r: Option<Subscription>)
        requires
            self.wf(),
        ensures
            r is Some <==> self.members().contains_key(room),
            r matches Some(s) ==> s.room() == room,
    {
        match self.rooms.get(&room) {
            Some(rm) => Some(rm.channel.subscribe()),
            None => None,
        }
    }

    /// How many members `room` has, if it exists.
    pub fn member_count(&self, room: u128) -> (r: Option<usize>)
        ensures
            r is Some <==> self.members().contains_key(room),
            r matches Some(n) ==> n == self.members()[room].len(),
    {
        match self.rooms.get(&room) {
            Some(rm) => Some(rm.members.len()),
            None => None,
        }
    }
}

} // verus!
