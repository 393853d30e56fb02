//! Decision logic of a Screeps colony: which creeps live, what each creep
//! works on, and what it does with its target on every game tick.
//!
//! The game itself (reading rooms, issuing intents) is driven from outside;
//! this crate receives plain snapshots of the world and answers with plans.
use vstd::prelude::*;

pub mod combat;
pub mod geometry;
pub mod lifecycle;
pub mod management;

verus! {

/// What a creep is locked onto, by the object id (packed as `u128`) of the
/// target. The lock is kept across ticks so that a fresh reference to the
/// object can be fetched each tick.
#[derive(Clone, Copy, Debug, PartialEq, Eq, Structural)]
pub enum CreepTarget {
    Upgrade(u128),
    Harvest(u128),
    StoreExtension(u128),
    StoreSpawn(u128),
    StoreTower(u128),
}

impl CreepTarget {
    /// The object id the target refers to.
    pub open spec fn spec_id(self) -> u128 {
        match self {
            CreepTarget::Upgrade(id) => id,
            CreepTarget::Harvest(id) => id,
            CreepTarget::StoreExtension(id) => id,
            CreepTarget::StoreSpawn(id) => id,
            CreepTarget::StoreTower(id) => id,
        }
    }

    /// The object id the target refers to.
    pub fn id(&self) -> (r: u128)
        ensures
            r == self.spec_id(),
    {
        match self {
            CreepTarget::Upgrade(id) => *id,
            CreepTarget::Harvest(id) => *id,
            CreepTarget::StoreExtension(id) => *id,
            CreepTarget::StoreSpawn(id) => *id,
            CreepTarget::StoreTower(id) => *id,
        }
    }
}

} // verus!
