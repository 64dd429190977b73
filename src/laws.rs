//! Properties of the registry that span several calls, stated over the
//! models that the registry's and the session's contracts use.

use vstd::prelude::*;
use crate::registry::{creation_event, ensure_refused, target_room, with_room};
use crate::session::after_join;

verus! {

/// The rooms after `ensure_room(None, f)` for each `f` of `fresh`, in turn.
pub open spec fn rooms_after_fresh(rooms: Map<u128, Set<u128>>, fresh: Seq<u128>) -> Map<
    u128,
    Set<u128>,
>
    decreases fresh.len(),
{
    if fresh.len() == 0 {
        rooms
    } else {
        with_room(rooms_after_fresh(rooms, fresh.drop_last()), fresh.last())
    }
}

/// Each call `ensure_room(None, fresh[i])` found its identifier free when
/// its turn came.
pub open spec fn fresh_all_accepted(rooms: Map<u128, Set<u128>>, fresh: Seq<u128>) -> bool {
    forall|i: int|
        0 <= i < fresh.len() ==> !ensure_refused(
            #[trigger] rooms_after_fresh(rooms, fresh.take(i)),
            None,
            fresh[i],
        )
}

/// Rooms made without a requested identifier are all distinct, each starts
/// with no member, and the rooms that existed before are left as they were.
pub proof fn lemma_fresh_rooms_distinct(rooms: Map<u128, Set<u128>>, fresh: Seq<u128>)
    requires
        fresh_all_accepted(rooms, fresh),
    ensures
        forall|i: int, j: int| 0 <= i < j < fresh.len() ==> fresh[i] != fresh[j],
        forall|i: int|
            0 <= i < fresh.len() ==> {
                &&& #[trigger] rooms_after_fresh(rooms, fresh).contains_key(fresh[i])
                &&& rooms_after_fresh(rooms, fresh)[fresh[i]] == Set::<u128>::empty()
            },
        forall|k: u128| #[trigger]
            rooms.contains_key(k) ==> {
                &&& rooms_after_fresh(rooms, fresh).contains_key(k)
                &&& rooms_after_fresh(rooms, fresh)[k] == rooms[k]
            },
    decreases fresh.len(),
{
    if fresh.len() > 0 {
        let p = fresh.drop_last();
        assert forall|i: int| 0 <= i < p.len() implies !ensure_refused(
            #[trigger] rooms_after_fresh(rooms, p.take(i)),
            None,
            p[i],
        ) by {
            assert(p.take(i) =~= fresh.take(i));
            assert(!ensure_refused(rooms_after_fresh(rooms, fresh.take(i)), None, fresh[i]));
        }
        lemma_fresh_rooms_distinct(rooms, p);
        let n = fresh.len() - 1;
        assert(fresh.take(n) =~= p);
        assert(!ensure_refused(rooms_after_fresh(rooms, fresh.take(n)), None, fresh[n]));
        let mp = rooms_after_fresh(rooms, p);
        assert(!mp.contains_key(fresh.last()));
        assert forall|i: int, j: int| 0 <= i < j < fresh.len() implies fresh[i] != fresh[j] by {
            if j < n {
                assert(p[i] == fresh[i] && p[j] == fresh[j]);
            } else {
                assert(mp.contains_key(p[i]));
            }
        }
        assert forall|i: int| 0 <= i < fresh.len() implies {
            &&& #[trigger] rooms_after_fresh(rooms, fresh).contains_key(fresh[i])
            &&& rooms_after_fresh(rooms, fresh)[fresh[i]] == Set::<u128>::empty()
        } by {
            if i < n {
                assert(p[i] == fresh[i]);
                assert(mp.contains_key(p[i]));
            }
        }
    }
}

/// The rooms after `n` calls of `ensure_room(Some(id), _)`.
pub open spec fn rooms_after_requests(rooms: Map<u128, Set<u128>>, id: u128, n: nat) -> Map<
    u128,
    Set<u128>,
>
    decreases n,
{
    if n == 0 {
        rooms
    } else {
        with_room(rooms_after_requests(rooms, id, (n - 1) as nat), id)
    }
}

/// How many of those `n` calls made the room (and its channel).
pub open spec fn creations(rooms: Map<u128, Set<u128>>, id: u128, n: nat) -> nat
    decreases n,
{
    if n == 0 {
        0
    } else {
        creations(rooms, id, (n - 1) as nat) + if creation_event(
            rooms_after_requests(rooms, id, (n - 1) as nat),
            id,
        ) is Some {
            1nat
        } else {
            0nat
        }
    }
}

/// However many sessions ask for the same room identifier, one after the
/// other, the room is made once if it was unknown and never if it existed,
/// and the registry ends as after the first call.
pub proof fn lemma_one_room_per_id(rooms: Map<u128, Set<u128>>, id: u128, n: nat)
    requires
        n > 0,
    ensures
        rooms_after_requests(rooms, id, n) == with_room(rooms, id),
        creations(rooms, id, n) == (if rooms.contains_key(id) {
            0nat
        } else {
            1nat
        }),
    decreases n,
{
    let prev = (n - 1) as nat;
    assert(rooms_after_requests(rooms, id, 0) == rooms);
    assert(creations(rooms, id, 0) == 0);
    if n > 1 {
        lemma_one_room_per_id(rooms, id, prev);
        assert(with_room(rooms, id).contains_key(id));
    }
    assert(rooms_after_requests(rooms, id, n) == with_room(rooms_after_requests(rooms, id, prev), id));
}

/// Two sessions that ask for the same room identifier both land in that
/// room, and both are members of it afterwards, beside its earlier members.
pub proof fn lemma_joins_share_room(
    rooms: Map<u128, Set<u128>>,
    id: u128,
    fresh_a: u128,
    user_a: u128,
    fresh_b: u128,
    user_b: u128,
)
    ensures
        target_room(Some(id), fresh_a) == id,
        target_room(Some(id), fresh_b) == id,
        ({
            let after = after_join(after_join(rooms, Some(id), fresh_a, user_a), Some(id), fresh_b, user_b);
            let before = if rooms.contains_key(id) {
                rooms[id]
            } else {
                Set::<u128>::empty()
            };
            &&& after.contains_key(id)
            &&& after[id] == before.insert(user_a).insert(user_b)
            &&& after[id].contains(user_a)
            &&& after[id].contains(user_b)
        }),
{
}

} // verus!
