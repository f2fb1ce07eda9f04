//! Rooms derived from the project's visible lists.

use crate::proj::ProjectList;
use vstd::prelude::*;

verus! {

/// A room: its number, display name, and the ordered item numbers in it.
#[derive(Debug, PartialEq, Eq)]
pub struct RoomDesc {
    pub number: u32,
    pub name: String,
    pub items: Vec<u32>,
}

/// The room a project list describes.
pub open spec fn room_of_list(v: ProjectList) -> RoomDesc {
    RoomDesc { number: v.number, name: v.name, items: v.items_order }
}

impl RoomDesc {
    /// Derive a room from a project list.
    pub fn from_list(v: ProjectList) -> (r: RoomDesc)
        ensures
            r == room_of_list(v),
    {
        RoomDesc { number: v.number, name: v.name, items: v.items_order }
    }
}

/// The rooms of the visible lists, in order.
pub open spec fn rooms_spec(lists: Seq<ProjectList>) -> Seq<RoomDesc>
    decreases lists.len(),
{
    if lists.len() == 0 {
        Seq::empty()
    } else if lists.last().visible {
        rooms_spec(lists.drop_last()) + seq![room_of_list(lists.last())]
    } else {
        rooms_spec(lists.drop_last())
    }
}

/// Keep the visible lists and turn each into a room.
pub fn rooms_of(lists: Vec<ProjectList>) -> (r: Vec<RoomDesc>)
    ensures
        r@ == rooms_spec(lists@),
{
    let ghost glists = lists@;
    let mut r: Vec<RoomDesc> = Vec::new();
    let mut rest = lists;
    let mut i: usize = 0;
    let n = rest.len();
    proof {
        assert(glists.take(0) =~= Seq::<ProjectList>::empty());
    }
    while i < n
        invariant
            i <= n,
            n == glists.len(),
            rest@ == glists.skip(i as int),
            r@ == rooms_spec(glists.take(i as int)),
        decreases n - i,
    {
        proof {
            assert(glists.skip(i as int)[0] == glists[i as int]);
            assert(glists.skip(i as int).drop_first() =~= glists.skip(i as int + 1));
            assert(glists.take(i + 1).drop_last() =~= glists.take(i as int));
            assert(glists.take(i + 1).last() == glists[i as int]);
        }
        let l = rest.remove(0);
        if l.visible {
            r.push(RoomDesc::from_list(l));
        }
        i = i + 1;
    }
    proof {
        assert(glists.take(n as int) =~= glists);
    }
    r
}

} // verus!
