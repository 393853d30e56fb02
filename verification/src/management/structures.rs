//! What the colony knows of the structures and sources of a room.
use vstd::prelude::*;

use crate::geometry::WorldPos;

verus! {

/// The structure types the colony tells apart.
#[derive(Clone, Copy, Debug, PartialEq, Eq, Structural)]
pub enum StructureKind {
    Spawn,
    Extension,
    Tower,
    Controller,
    Road,
    Container,
    Wall,
    Rampart,
    Other,
}

/// A structure as read from the game: its type, object id, position, free
/// energy capacity of its store (0 when it has none) and its hit points.
#[derive(Clone, Copy, Debug, PartialEq, Eq, Structural)]
pub struct StructureInfo {
    pub kind: StructureKind,
    pub id: u128,
    pub pos: WorldPos,
    pub energy_free: i32,
    pub hits: u32,
    pub hits_max: u32,
}

/// An energy source: its object id and position.
#[derive(Clone, Copy, Debug, PartialEq, Eq, Structural)]
pub struct SourceInfo {
    pub id: u128,
    pub pos: WorldPos,
}

/// The first of our spawns in the creep's room, in the order the game lists
/// them (`None` when the room has none).
pub fn get_spawn(my_spawns: &Vec<StructureInfo>) -> (r: Option<StructureInfo>)
    ensures
        r == (if my_spawns@.len() > 0 { Some(my_spawns@[0]) } else { None::<StructureInfo> }),
{
    if my_spawns.len() > 0 {
        Some(my_spawns[0])
    } else {
        None
    }
}

/// Towers, spawns and extensions whose store can take more energy.
pub open spec fn spec_has_free_capacity(s: StructureInfo) -> bool {
    match s.kind {
        StructureKind::Tower | StructureKind::Spawn | StructureKind::Extension => s.energy_free > 0,
        _ => false,
    }
}

/// Roads, containers, walls and ramparts that have lost hit points.
pub open spec fn spec_is_repairable(s: StructureInfo) -> bool {
    match s.kind {
        StructureKind::Road | StructureKind::Container | StructureKind::Wall
        | StructureKind::Rampart => s.hits < s.hits_max,
        _ => false,
    }
}

/// Whether a tower, spawn or extension can take more energy.
pub fn has_free_capacity(structure: &StructureInfo) -> (r: bool)
    ensures
        r == spec_has_free_capacity(*structure),
{
    match structure.kind {
        StructureKind::Tower | StructureKind::Spawn | StructureKind::Extension => structure.energy_free > 0,
        _ => false,
    }
}

/// Whether a road, container, wall or rampart is damaged.
pub fn is_repairable(structure: &StructureInfo) -> (r: bool)
    ensures
        r == spec_is_repairable(*structure),
{
    match structure.kind {
        StructureKind::Road | StructureKind::Container | StructureKind::Wall
        | StructureKind::Rampart => structure.hits < structure.hits_max,
        _ => false,
    }
}

/// The owned structures that can take more energy, in their order.
pub fn get_actionable(owned: &Vec<StructureInfo>) -> (r: Vec<StructureInfo>)
    ensures
        r@ == owned@.filter(|s: StructureInfo| spec_has_free_capacity(s)),
{
    let mut r: Vec<StructureInfo> = Vec::new();
    let mut i: usize = 0;
    while i < owned.len()
        invariant
            i <= owned.len(),
            r@ == owned@.take(i as int).filter(|s: StructureInfo| spec_has_free_capacity(s)),
        decreases owned.len() - i,
    {
        let s = owned[i];
        proof {
            lemma_filter_step(owned@, i as int, |s: StructureInfo| spec_has_free_capacity(s));
        }
        if has_free_capacity(&s) {
            r.push(s);
        }
        i = i + 1;
    }
    assert(owned@.take(owned.len() as int) =~= owned@);
    r
}

/// The owned structures that are damaged, in their order.
pub fn get_repairable(owned: &Vec<StructureInfo>) -> (r: Vec<StructureInfo>)
    ensures
        r@ == owned@.filter(|s: StructureInfo| spec_is_repairable(s)),
{
    let mut r: Vec<StructureInfo> = Vec::new();
    let mut i: usize = 0;
    while i < owned.len()
        invariant
            i <= owned.len(),
            r@ == owned@.take(i as int).filter(|s: StructureInfo| spec_is_repairable(s)),
        decreases owned.len() - i,
    {
        let s = owned[i];
        proof {
            lemma_filter_step(owned@, i as int, |s: StructureInfo| spec_is_repairable(s));
        }
        if is_repairable(&s) {
            r.push(s);
        }
        i = i + 1;
    }
    assert(owned@.take(owned.len() as int) =~= owned@);
    r
}

/// Filtering one more element of a prefix appends it exactly when it passes.
pub proof fn lemma_filter_step<A>(s: Seq<A>, i: int, p: spec_fn(A) -> bool)
    requires
        0 <= i < s.len(),
    ensures
        s.take(i + 1).filter(p) == if p(s[i]) {
            s.take(i).filter(p).push(s[i])
        } else {
            s.take(i).filter(p)
        },
{
    reveal(Seq::filter);
    assert(s.take(i + 1).drop_last() =~= s.take(i));
    assert(s.take(i + 1).last() == s[i]);
}

} // verus!
