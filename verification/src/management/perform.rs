//! Acting on the target a creep is locked onto.
//!
//! A creep that carries energy stores it into its spawn, tower or extension
//! (walking there first) or upgrades its controller; a creep with room for
//! energy harvests its source. A target the creep cannot serve any more is
//! released.
use vstd::prelude::*;

use crate::geometry::{is_near, near, WorldPos};
use crate::management::path::{all_valid, check_if_source_is_occuppied, crowded};
use crate::management::structures::SourceInfo;
use crate::management::{CreepTargets, CreepView};
use crate::CreepTarget;

verus! {

/// The target object as resolved this tick: its position, the energy its
/// store can still take, and the positions of our creeps in its room.
pub struct TargetView {
    pub pos: WorldPos,
    pub energy_free: i32,
    pub room_creeps: Vec<WorldPos>,
}

impl TargetView {
    pub open spec fn valid(&self) -> bool {
        self.pos.valid() && all_valid(self.room_creeps@)
    }
}

pub open spec fn resolved_valid(resolved: &Option<TargetView>) -> bool {
    match resolved {
        Some(v) => v.valid(),
        None => true,
    }
}

/// What a creep does with its target this tick.
#[derive(Clone, Copy, Debug, PartialEq, Eq, Structural)]
pub enum Plan {
    /// Nothing to do (the creep is spawning, or was just given a target).
    Idle,
    /// The target is released.
    Drop,
    /// Walk towards the target.
    MoveTo(CreepTarget),
    /// Transfer this much energy into the target's store.
    Transfer(CreepTarget, u32),
    /// Upgrade the controller with this id.
    Upgrade(u128),
    /// Harvest the source with this id.
    Harvest(u128),
}

/// The short text a creep says about the work it is doing.
#[derive(Clone, Copy, Debug, PartialEq, Eq, Structural)]
pub enum Say {
    StoreSpawn,
    StoreTower,
    StoreExtension,
    UpgradeController,
    Harvest,
}

impl Say {
    /// The text shown above the creep.
    pub fn text(&self) -> (r: &'static str)
        ensures
            r@ == (match self {
                Say::StoreSpawn => "StoreSpawn"@,
                Say::StoreTower => "StoreTower"@,
                Say::StoreExtension => "StoreExtension"@,
                Say::UpgradeController => "UpgradeController"@,
                Say::Harvest => "Harvest"@,
            }),
    {
        match self {
            Say::StoreSpawn => "StoreSpawn",
            Say::StoreTower => "StoreTower",
            Say::StoreExtension => "StoreExtension",
            Say::UpgradeController => "UpgradeController",
            Say::Harvest => "Harvest",
        }
    }
}

/// Whether the creep can still serve its target: storing and upgrading need
/// carried energy, harvesting needs room for energy.
pub open spec fn serviceable(target: CreepTarget, energy_used: u32, energy_free: i32) -> bool {
    match target {
        CreepTarget::Harvest(_) => energy_free > 0,
        _ => energy_used > 0,
    }
}

/// The step a creep takes on its target. With `mind_crowding`, a creep that
/// is not yet at its source gives it up when two creeps already stand there.
pub open spec fn step(
    target: CreepTarget,
    creep: &CreepView,
    resolved: &Option<TargetView>,
    mind_crowding: bool,
) -> Plan {
    if !serviceable(target, creep.energy_used, creep.energy_free) {
        Plan::Drop
    } else {
        match resolved {
            None => Plan::Drop,
            Some(v) => match target {
                CreepTarget::Upgrade(id) => Plan::Upgrade(id),
                CreepTarget::Harvest(id) => if near(creep.pos, v.pos) {
                    Plan::Harvest(id)
                } else if mind_crowding && crowded(v.pos, v.room_creeps@) {
                    Plan::Drop
                } else {
                    Plan::MoveTo(target)
                },
                _ => if near(creep.pos, v.pos) {
                    Plan::Transfer(target, creep.energy_used)
                } else {
                    Plan::MoveTo(target)
                },
            },
        }
    }
}

/// What the creep says while working on a serviceable target.
pub open spec fn say_for(target: CreepTarget, creep: &CreepView) -> Option<Say> {
    if !serviceable(target, creep.energy_used, creep.energy_free) {
        None
    } else {
        Some(
            match target {
                CreepTarget::StoreSpawn(_) => Say::StoreSpawn,
                CreepTarget::StoreTower(_) => Say::StoreTower,
                CreepTarget::StoreExtension(_) => Say::StoreExtension,
                CreepTarget::Upgrade(_) => Say::UpgradeController,
                CreepTarget::Harvest(_) => Say::Harvest,
            },
        )
    }
}

/// Computes `step`.
pub fn plan_step(
    target: CreepTarget,
    creep: &CreepView,
    resolved: &Option<TargetView>,
    mind_crowding: bool,
) -> (r: Plan)
    requires
        creep.pos.valid(),
        resolved_valid(resolved),
    ensures
        r == step(target, creep, resolved, mind_crowding),
{
    let ok = match target {
        CreepTarget::Harvest(_) => creep.energy_free > 0,
        _ => creep.energy_used > 0,
    };
    if !ok {
        return Plan::Drop;
    }
    match resolved {
        None => Plan::Drop,
        Some(v) => match target {
            CreepTarget::Upgrade(id) => Plan::Upgrade(id),
            CreepTarget::Harvest(id) => {
                if is_near(creep.pos, v.pos) {
                    Plan::Harvest(id)
                } else if mind_crowding && check_if_source_is_occuppied(
                    &SourceInfo { id, pos: v.pos },
                    &v.room_creeps,
                ) {
                    Plan::Drop
                } else {
                    Plan::MoveTo(target)
                }
            },
            _ => {
                if is_near(creep.pos, v.pos) {
                    Plan::Transfer(target, creep.energy_used)
                } else {
                    Plan::MoveTo(target)
                }
            },
        },
    }
}

/// The result of one turn on an existing target.
pub struct PerformStep {
    pub say: Option<Say>,
    pub plan: Plan,
}

/// Works on the target the named creep is locked onto: says what it does,
/// plans the step (giving up a source it has not reached when two creeps
/// already stand there) and releases the target when the plan is to drop it.
/// `resolved` is the target object as found this tick (`None` when it is gone).
pub fn run(targets: &mut CreepTargets, creep: &CreepView, resolved: &Option<TargetView>) -> (r:
    PerformStep)
    requires
        old(targets)@.contains_key(creep.name@),
        creep.pos.valid(),
        resolved_valid(resolved),
    ensures
        r.say == say_for(old(targets)@[creep.name@], creep),
        r.plan == step(old(targets)@[creep.name@], creep, resolved, true),
        final(targets)@ == (if r.plan is Drop {
            old(targets)@.remove(creep.name@)
        } else {
            old(targets)@
        }),
{
    let target = match targets.get(creep.name.as_str()) {
        Some(t) => t,
        None => {
            assert(false);
            return PerformStep { say: None, plan: Plan::Idle };
        },
    };
    let ok = match target {
        CreepTarget::Harvest(_) => creep.energy_free > 0,
        _ => creep.energy_used > 0,
    };
    let say = if ok {
        Some(
            match target {
                CreepTarget::StoreSpawn(_) => Say::StoreSpawn,
                CreepTarget::StoreTower(_) => Say::StoreTower,
                CreepTarget::StoreExtension(_) => Say::StoreExtension,
                CreepTarget::Upgrade(_) => Say::UpgradeController,
                CreepTarget::Harvest(_) => Say::Harvest,
            },
        )
    } else {
        None
    };
    let plan = plan_step(target, creep, resolved, true);
    if plan == Plan::Drop {
        targets.remove(creep.name.as_str());
    }
    PerformStep { say, plan }
}


/// A creep that can take energy and stands next to its source harvests it,
/// however crowded the source is.
pub proof fn lemma_near_source_harvests(
    id: u128,
    creep: &CreepView,
    resolved: &Option<TargetView>,
    mind_crowding: bool,
)
    requires
        creep.energy_free > 0,
        resolved matches Some(v) && near(creep.pos, v.pos),
    ensures
        step(CreepTarget::Harvest(id), creep, resolved, mind_crowding) == Plan::Harvest(id),
{
}

/// Minding crowding only ever turns walking towards a target into giving it
/// up; every other step is the same either way.
pub proof fn lemma_crowding_only_stops_walking(target: CreepTarget, creep: &CreepView, resolved: &Option<TargetView>)
    ensures
        step(target, creep, resolved, true) != step(target, creep, resolved, false) ==> {
            &&& step(target, creep, resolved, false) is MoveTo
            &&& step(target, creep, resolved, true) is Drop
        },
{
}


/// A creep carrying energy next to the spawn, tower or extension it is locked
/// onto transfers all the energy it carries into it; further away it walks
/// there.
pub proof fn lemma_store_transfers_all_carried(target: CreepTarget, creep: &CreepView, resolved: &Option<TargetView>)
    requires
        !(target is Upgrade) && !(target is Harvest),
        creep.energy_used > 0,
        resolved is Some,
    ensures
        near(creep.pos, resolved->0.pos) ==> step(target, creep, resolved, true) == Plan::Transfer(target, creep.energy_used),
        !near(creep.pos, resolved->0.pos) ==> step(target, creep, resolved, true) == Plan::MoveTo(target),
        step(target, creep, resolved, true) == step(target, creep, resolved, false),
{
}

} // verus!
