//! Per-creep work: choosing a target and acting on it.
use vstd::hash_map::StringHashMap;
use vstd::prelude::*;

use crate::geometry::WorldPos;
use crate::management::assign::assignment;
use crate::management::path::all_valid;
use crate::management::perform::{plan_step, resolved_valid, step, Plan, TargetView};
use crate::management::structures::{
    get_actionable, get_repairable, spec_has_free_capacity, spec_is_repairable, SourceInfo,
    StructureInfo,
};
use crate::CreepTarget;

pub mod assign;
pub mod path;
pub mod perform;
pub mod structures;

verus! {

/// The targets creeps are locked onto, by creep name. It persists between
/// ticks.
pub struct CreepTargets {
    map: StringHashMap<CreepTarget>,
}

impl View for CreepTargets {
    type V = Map<Seq<char>, CreepTarget>;

    closed spec fn view(&self) -> Map<Seq<char>, CreepTarget> {
        self.map@
    }
}

impl CreepTargets {
    /// No creep has a target.
    pub fn new() -> (r: Self)
        ensures
            r@ == Map::<Seq<char>, CreepTarget>::empty(),
    {
        CreepTargets { map: StringHashMap::new() }
    }

    /// The target of the named creep, if it has one.
    pub fn get(&self, name: &str) -> (r: Option<CreepTarget>)
        ensures
            r == (if self@.contains_key(name@) { Some(self@[name@]) } else { None::<CreepTarget> }),
    {
        match self.map.get(name) {
            Some(t) => Some(*t),
            None => None,
        }
    }

    /// Locks the named creep onto `target`, replacing any earlier target.
    pub fn insert(&mut self, name: String, target: CreepTarget)
        ensures
            final(self)@ == old(self)@.insert(name@, target),
    {
        self.map.insert(name, target);
    }

    /// Releases the named creep from its target.
    pub fn remove(&mut self, name: &str)
        ensures
            final(self)@ == old(self)@.remove(name@),
    {
        self.map.remove(name);
    }
}

/// A creep as read at the start of its turn: name, whether it is still being
/// spawned, position, energy it carries and energy it can still take.
pub struct CreepView {
    pub name: String,
    pub spawning: bool,
    pub pos: WorldPos,
    pub energy_used: u32,
    pub energy_free: i32,
}

/// The creep's room as read at the start of its turn. Each list is in the
/// order the game returns it: our spawns, all structures, the active sources,
/// and the positions of our creeps.
pub struct RoomView {
    pub my_spawns: Vec<StructureInfo>,
    pub structures: Vec<StructureInfo>,
    pub active_sources: Vec<SourceInfo>,
    pub my_creeps: Vec<WorldPos>,
}

impl RoomView {
    /// Every position in the room view is a valid world position.
    pub open spec fn valid(&self) -> bool {
        &&& forall|i: int| 0 <= i < self.my_spawns@.len() ==> (#[trigger] self.my_spawns@[i]).pos.valid()
        &&& forall|i: int| 0 <= i < self.structures@.len() ==> (#[trigger] self.structures@[i]).pos.valid()
        &&& forall|i: int| 0 <= i < self.active_sources@.len() ==> (#[trigger] self.active_sources@[i]).pos.valid()
        &&& all_valid(self.my_creeps@)
    }
}

/// How the game answered an action.
#[derive(Clone, Copy, Debug, PartialEq, Eq, Structural)]
pub enum Outcome {
    Done,
    NotInRange,
    Failed,
}

/// The action that follows the answer to a planned action.
#[derive(Clone, Copy, Debug, PartialEq, Eq, Structural)]
pub enum FollowUp {
    Nothing,
    MoveTo(CreepTarget),
    /// Transfer this much energy (what the target can still take).
    Transfer(CreepTarget, u32),
}

/// Whether the target is kept, and what follows, once the game answered a
/// planned action. A failed transfer is retried with only the energy the
/// target can still take, and the target released; an upgrade out of range
/// walks to the controller; any other failure releases the target.
pub open spec fn settlement(plan: Plan, outcome: Outcome, target_energy_free: i32) -> (bool, FollowUp) {
    match plan {
        Plan::Transfer(t, _) => if outcome is Done {
            (true, FollowUp::Nothing)
        } else {
            (false, FollowUp::Transfer(t, target_energy_free as u32))
        },
        Plan::Upgrade(id) => match outcome {
            Outcome::Done => (true, FollowUp::Nothing),
            Outcome::NotInRange => (true, FollowUp::MoveTo(CreepTarget::Upgrade(id))),
            Outcome::Failed => (false, FollowUp::Nothing),
        },
        Plan::Harvest(_) => (outcome is Done, FollowUp::Nothing),
        _ => (true, FollowUp::Nothing),
    }
}

/// Applies the game's answer to the planned action of the named creep:
/// releases its target when `settlement` says so and returns the follow-up.
/// `target_energy_free` is the energy the target's store can still take; a
/// failed transfer needs it to be non-negative.
pub fn settle(targets: &mut CreepTargets, name: &str, plan: Plan, outcome: Outcome, target_energy_free: i32) -> (r:
    FollowUp)
    requires
        plan is Transfer && !(outcome is Done) ==> target_energy_free >= 0,
    ensures
        r == settlement(plan, outcome, target_energy_free).1,
        final(targets)@ == (if settlement(plan, outcome, target_energy_free).0 {
            old(targets)@
        } else {
            old(targets)@.remove(name@)
        }),
{
    match plan {
        Plan::Transfer(t, _) => {
            if outcome == Outcome::Done {
                FollowUp::Nothing
            } else {
                targets.remove(name);
                FollowUp::Transfer(t, target_energy_free as u32)
            }
        },
        Plan::Upgrade(id) => match outcome {
            Outcome::Done => FollowUp::Nothing,
            Outcome::NotInRange => FollowUp::MoveTo(CreepTarget::Upgrade(id)),
            Outcome::Failed => {
                targets.remove(name);
                FollowUp::Nothing
            },
        },
        Plan::Harvest(_) => {
            if outcome != Outcome::Done {
                targets.remove(name);
            }
            FollowUp::Nothing
        },
        _ => FollowUp::Nothing,
    }
}

/// One turn of a creep. A spawning creep does nothing. A creep locked onto a
/// target plans its step on it (releasing it when it cannot be served); a
/// creep without a target is given one as `assignment` says and does nothing
/// else this tick. `resolved` is the locked target's object as found this
/// tick; a creep without energy in a room with active sources needs a spawn in
/// that room.
pub fn run(targets: &mut CreepTargets, creep: &CreepView, room: &RoomView, resolved: &Option<TargetView>) -> (r:
    Plan)
    requires
        creep.pos.valid(),
        room.valid(),
        resolved_valid(resolved),
        !creep.spawning && !old(targets)@.contains_key(creep.name@) && creep.energy_used == 0
            && room.active_sources@.len() > 0 ==> room.my_spawns@.len() > 0,
    ensures
        creep.spawning ==> r is Idle && final(targets)@ == old(targets)@,
        !creep.spawning && old(targets)@.contains_key(creep.name@) ==> {
            &&& r == step(old(targets)@[creep.name@], creep, resolved, false)
            &&& final(targets)@ == (if r is Drop {
                old(targets)@.remove(creep.name@)
            } else {
                old(targets)@
            })
        },
        !creep.spawning && !old(targets)@.contains_key(creep.name@) ==> {
            &&& r is Idle
            &&& final(targets)@ == (match assignment(room, creep.energy_used) {
                Some(t) => old(targets)@.insert(creep.name@, t),
                None => old(targets)@,
            })
        },
{
    if creep.spawning {
        return Plan::Idle;
    }
    match targets.get(creep.name.as_str()) {
        Some(target) => {
            let plan = plan_step(target, creep, resolved, false);
            if plan == Plan::Drop {
                targets.remove(creep.name.as_str());
            }
            plan
        },
        None => {
            assign::run(targets, creep, room);
            Plan::Idle
        },
    }
}

/// The structure lists the colony reports on: what it owns, what can take
/// energy, what is damaged, and (again) what has free capacity.
pub struct Diagnostics {
    pub owned: Vec<StructureInfo>,
    pub actionable: Vec<StructureInfo>,
    pub repairable: Vec<StructureInfo>,
    pub free_capacity: Vec<StructureInfo>,
}

/// Sorts the owned structures into the lists that are reported.
pub fn diagnostics(owned: Vec<StructureInfo>) -> (r: Diagnostics)
    ensures
        r.owned@ == owned@,
        r.actionable@ == owned@.filter(|s: StructureInfo| spec_has_free_capacity(s)),
        r.repairable@ == owned@.filter(|s: StructureInfo| spec_is_repairable(s)),
        r.free_capacity@ == owned@.filter(|s: StructureInfo| spec_has_free_capacity(s)),
{
    let actionable = get_actionable(&owned);
    let repairable = get_repairable(&owned);
    let free_capacity = get_actionable(&owned);
    Diagnostics { owned, actionable, repairable, free_capacity }
}

/// A creep's target survives from one tick to the next: once a creep is
/// locked onto `target`, looking the creep up gives `target` back, and other
/// creeps' targets are untouched.
pub proof fn lemma_target_persists(
    before: Map<Seq<char>, CreepTarget>,
    name: Seq<char>,
    target: CreepTarget,
    other: Seq<char>,
)
    requires
        other != name,
    ensures
        before.insert(name, target).contains_key(name),
        before.insert(name, target)[name] == target,
        before.insert(name, target).contains_key(other) == before.contains_key(other),
        before.contains_key(other) ==> before.insert(name, target)[other] == before[other],
{
}

/// A target just given to a creep is not dropped on its next turn while the
/// creep's store is unchanged and the target object still exists (a creep
/// that can neither carry energy nor take more would drop a source at once).
pub proof fn lemma_fresh_target_kept(room: &RoomView, creep: &CreepView, resolved: &Option<TargetView>)
    requires
        assignment(room, creep.energy_used) is Some,
        resolved is Some,
        creep.energy_used > 0 || creep.energy_free > 0,
    ensures
        step(assignment(room, creep.energy_used)->0, creep, resolved, false) != Plan::Drop,
{
}


/// Success never costs a creep its target: when the game answers `Done`,
/// the target is kept and nothing follows; a target is released only after a
/// failure.
pub proof fn lemma_success_keeps_target(plan: Plan, outcome: Outcome, target_energy_free: i32)
    ensures
        settlement(plan, Outcome::Done, target_energy_free) == (true, FollowUp::Nothing),
        !settlement(plan, outcome, target_energy_free).0 ==> outcome != Outcome::Done,
{
}


/// A refused transfer is retried with exactly the energy the target can still
/// take, and the target is released; an upgrade out of range keeps the
/// controller and walks to it; a failed upgrade or harvest releases the
/// target with nothing further.
pub proof fn lemma_failure_follow_ups(t: CreepTarget, amount: u32, id: u128, outcome: Outcome, free: i32)
    requires
        outcome != Outcome::Done,
        free >= 0,
    ensures
        settlement(Plan::Transfer(t, amount), outcome, free) == (false, FollowUp::Transfer(t, free as u32)),
        free as u32 == free,
        settlement(Plan::Upgrade(id), Outcome::NotInRange, free) == (true, FollowUp::MoveTo(
            CreepTarget::Upgrade(id),
        )),
        settlement(Plan::Upgrade(id), Outcome::Failed, free) == (false, FollowUp::Nothing),
        settlement(Plan::Harvest(id), outcome, free) == (false, FollowUp::Nothing),
{
}

} // verus!
