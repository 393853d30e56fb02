//! Crowding checks: a spot next to a source or an extension is taken when two
//! of our creeps already stand beside it.
use vstd::prelude::*;

use crate::geometry::{is_near, near, WorldPos};
use crate::management::structures::{SourceInfo, StructureInfo};

verus! {

/// How many of the given creep positions are near `at`.
pub open spec fn count_near(creeps: Seq<WorldPos>, at: WorldPos) -> nat
    decreases creeps.len(),
{
    if creeps.len() == 0 {
        0
    } else {
        count_near(creeps.drop_last(), at) + if near(creeps.last(), at) { 1nat } else { 0nat }
    }
}

/// A tile is crowded when at least two of the creeps are near it.
pub open spec fn crowded(at: WorldPos, creeps: Seq<WorldPos>) -> bool {
    count_near(creeps, at) >= 2
}

pub open spec fn all_valid(creeps: Seq<WorldPos>) -> bool {
    forall|i: int| 0 <= i < creeps.len() ==> (#[trigger] creeps[i]).valid()
}

fn crowded_at(at: WorldPos, creeps: &Vec<WorldPos>) -> (r: bool)
    requires
        at.valid(),
        all_valid(creeps@),
    ensures
        r == crowded(at, creeps@),
{
    let mut count: usize = 0;
    let mut i: usize = 0;
    while i < creeps.len()
        invariant
            i <= creeps.len(),
            at.valid(),
            all_valid(creeps@),
            count == count_near(creeps@.take(i as int), at),
            count <= i,
        decreases creeps.len() - i,
    {
        assert(creeps@.take(i as int + 1).drop_last() =~= creeps@.take(i as int));
        if is_near(creeps[i], at) {
            count = count + 1;
        }
        i = i + 1;
    }
    assert(creeps@.take(creeps.len() as int) =~= creeps@);
    count >= 2
}

/// A source is occupied when two of our creeps in its room are next to it.
/// `room_creeps` are the positions of our creeps in the source's room.
pub fn check_if_source_is_occuppied(source: &SourceInfo, room_creeps: &Vec<WorldPos>) -> (r: bool)
    requires
        source.pos.valid(),
        all_valid(room_creeps@),
    ensures
        r == crowded(source.pos, room_creeps@),
{
    crowded_at(source.pos, room_creeps)
}

/// An extension is occupied when two of our creeps in its room are next to it.
/// `room_creeps` are the positions of our creeps in the extension's room.
pub fn check_if_extension_is_occupied(extension: &StructureInfo, room_creeps: &Vec<WorldPos>) -> (r: bool)
    requires
        extension.pos.valid(),
        all_valid(room_creeps@),
    ensures
        r == crowded(extension.pos, room_creeps@),
{
    crowded_at(extension.pos, room_creeps)
}

} // verus!
