use world::geometry::{is_near, range_to, WorldPos};
use world::management::assign::{self, pick};
use world::management::path::{check_if_extension_is_occupied, check_if_source_is_occuppied};
use world::management::perform::{self, plan_step, Plan, Say, TargetView};
use world::management::structures::{
    get_actionable, get_repairable, get_spawn, has_free_capacity, is_repairable, SourceInfo,
    StructureInfo, StructureKind,
};
use world::management::{diagnostics, run, settle, CreepTargets, CreepView, FollowUp, Outcome, RoomView};
use world::CreepTarget;

fn p(x: i32, y: i32) -> WorldPos {
    WorldPos { x, y }
}

fn st(kind: StructureKind, id: u128, pos: WorldPos, energy_free: i32) -> StructureInfo {
    StructureInfo { kind, id, pos, energy_free, hits: 100, hits_max: 100 }
}

fn creep(name: &str, pos: WorldPos, energy_used: u32, energy_free: i32) -> CreepView {
    CreepView { name: name.to_string(), spawning: false, pos, energy_used, energy_free }
}

#[test]
fn near_means_same_room_and_adjacent() {
    assert!(is_near(p(10, 10), p(11, 11)));
    assert!(is_near(p(10, 10), p(10, 10)));
    assert!(!is_near(p(10, 10), p(12, 10)));
    // across a room border the tiles are adjacent but not near
    assert!(!is_near(p(49, 10), p(50, 10)));
    assert!(!is_near(p(-1, 10), p(0, 10)));
    assert!(is_near(p(-2, -2), p(-1, -1)));
}

#[test]
fn range_is_chebyshev() {
    assert_eq!(range_to(p(5, 10), p(8, 15)), 5);
    assert_eq!(range_to(p(49, 10), p(50, 10)), 1);
    assert_eq!(range_to(p(-3, 0), p(4, 2)), 7);
}

#[test]
fn source_occupied_by_two_creeps() {
    let src = SourceInfo { id: 1, pos: p(20, 20) };
    assert!(!check_if_source_is_occuppied(&src, &vec![]));
    assert!(!check_if_source_is_occuppied(&src, &vec![p(21, 21)]));
    assert!(check_if_source_is_occuppied(&src, &vec![p(21, 21), p(19, 20)]));
    assert!(!check_if_source_is_occuppied(&src, &vec![p(21, 21), p(23, 20), p(30, 30)]));
}

#[test]
fn extension_occupied_by_two_creeps() {
    let ext = st(StructureKind::Extension, 9, p(5, 5), 50);
    assert!(!check_if_extension_is_occupied(&ext, &vec![p(6, 6), p(8, 8)]));
    assert!(check_if_extension_is_occupied(&ext, &vec![p(6, 6), p(4, 4), p(5, 6)]));
}

#[test]
fn spawn_is_first_listed() {
    let a = st(StructureKind::Spawn, 1, p(1, 1), 0);
    let b = st(StructureKind::Spawn, 2, p(2, 2), 10);
    assert_eq!(get_spawn(&vec![a, b]), Some(a));
    assert_eq!(get_spawn(&vec![]), None);
}

#[test]
fn capacity_and_repair_predicates() {
    assert!(has_free_capacity(&st(StructureKind::Tower, 1, p(0, 0), 5)));
    assert!(!has_free_capacity(&st(StructureKind::Tower, 1, p(0, 0), 0)));
    assert!(!has_free_capacity(&st(StructureKind::Container, 1, p(0, 0), 5)));
    let mut road = st(StructureKind::Road, 2, p(0, 0), 0);
    assert!(!is_repairable(&road));
    road.hits = 10;
    assert!(is_repairable(&road));
    let mut spawn = st(StructureKind::Spawn, 3, p(0, 0), 0);
    spawn.hits = 1;
    assert!(!is_repairable(&spawn));
}

#[test]
fn diagnostics_sorts_structures() {
    let tower = st(StructureKind::Tower, 1, p(0, 0), 10);
    let full = st(StructureKind::Extension, 2, p(0, 0), 0);
    let mut wall = st(StructureKind::Wall, 3, p(0, 0), 0);
    wall.hits = 1;
    let owned = vec![tower, full, wall];
    assert_eq!(get_actionable(&owned), vec![tower]);
    assert_eq!(get_repairable(&owned), vec![wall]);
    let d = diagnostics(owned.clone());
    assert_eq!(d.owned, owned);
    assert_eq!(d.actionable, vec![tower]);
    assert_eq!(d.repairable, vec![wall]);
    assert_eq!(d.free_capacity, vec![tower]);
}

fn busy_room() -> RoomView {
    RoomView {
        my_spawns: vec![st(StructureKind::Spawn, 100, p(25, 25), 0)],
        structures: vec![
            st(StructureKind::Road, 1, p(1, 1), 0),
            st(StructureKind::Tower, 2, p(2, 2), 0),
            st(StructureKind::Extension, 3, p(10, 10), 50),
            st(StructureKind::Extension, 4, p(30, 30), 50),
            st(StructureKind::Controller, 5, p(40, 40), 0),
            st(StructureKind::Controller, 6, p(41, 41), 0),
        ],
        active_sources: vec![
            SourceInfo { id: 7, pos: p(25, 35) },
            SourceInfo { id: 8, pos: p(35, 25) },
            SourceInfo { id: 9, pos: p(25, 20) },
        ],
        my_creeps: vec![p(11, 11), p(9, 9)],
    }
}

#[test]
fn energy_goes_to_spawn_first() {
    let mut room = busy_room();
    room.my_spawns[0].energy_free = 300;
    room.structures[1].energy_free = 100;
    assert_eq!(pick(&room, 50), Some(CreepTarget::StoreSpawn(100)));
}

#[test]
fn energy_goes_to_tower_when_spawn_full() {
    let mut room = busy_room();
    room.structures[1].energy_free = 100;
    assert_eq!(pick(&room, 50), Some(CreepTarget::StoreTower(2)));
}

#[test]
fn crowded_extension_is_skipped() {
    let room = busy_room();
    assert_eq!(pick(&room, 50), Some(CreepTarget::StoreExtension(4)));
}

#[test]
fn controller_when_nothing_to_fill() {
    let mut room = busy_room();
    room.structures[3].energy_free = 0;
    assert_eq!(pick(&room, 50), Some(CreepTarget::Upgrade(5)));
    room.structures.truncate(4);
    assert_eq!(pick(&room, 50), None);
}

#[test]
fn empty_creep_harvests_nearest_source() {
    let room = busy_room();
    // ranges from the spawn at (25,25): 10, 10, 5
    assert_eq!(pick(&room, 0), Some(CreepTarget::Harvest(9)));
}

#[test]
fn equally_near_sources_keep_listing_order() {
    let mut room = busy_room();
    room.active_sources.truncate(2);
    assert_eq!(pick(&room, 0), Some(CreepTarget::Harvest(7)));
}

#[test]
fn crowded_sources_are_skipped() {
    let mut room = busy_room();
    room.my_creeps = vec![p(25, 21), p(24, 19), p(26, 36), p(25, 34)];
    assert_eq!(pick(&room, 0), Some(CreepTarget::Harvest(8)));
    room.my_creeps.push(p(34, 25));
    room.my_creeps.push(p(36, 26));
    assert_eq!(pick(&room, 0), None);
}

#[test]
fn no_sources_no_target() {
    let mut room = busy_room();
    room.active_sources.clear();
    assert_eq!(pick(&room, 0), None);
}

#[test]
fn assign_records_target() {
    let mut targets = CreepTargets::new();
    let c = creep("alice", p(20, 20), 0, 50);
    assign::run(&mut targets, &c, &busy_room());
    assert_eq!(targets.get("alice"), Some(CreepTarget::Harvest(9)));
    assert_eq!(targets.get("bob"), None);
    let mut room = busy_room();
    room.active_sources.clear();
    let d = creep("dave", p(20, 20), 0, 50);
    assign::run(&mut targets, &d, &room);
    assert_eq!(targets.get("dave"), None);
}

fn view(pos: WorldPos, energy_free: i32) -> Option<TargetView> {
    Some(TargetView { pos, energy_free, room_creeps: vec![] })
}

#[test]
fn store_targets_transfer_or_walk() {
    let c = creep("c", p(10, 10), 40, 10);
    let t = CreepTarget::StoreSpawn(1);
    assert_eq!(plan_step(t, &c, &view(p(11, 10), 100), false), Plan::Transfer(t, 40));
    assert_eq!(plan_step(t, &c, &view(p(15, 10), 100), false), Plan::MoveTo(t));
    assert_eq!(plan_step(t, &c, &None, false), Plan::Drop);
    let empty = creep("c", p(10, 10), 0, 50);
    assert_eq!(plan_step(t, &empty, &view(p(11, 10), 100), false), Plan::Drop);
}

#[test]
fn upgrade_needs_energy_and_controller() {
    let c = creep("c", p(10, 10), 40, 10);
    let t = CreepTarget::Upgrade(5);
    assert_eq!(plan_step(t, &c, &view(p(30, 30), 0), false), Plan::Upgrade(5));
    assert_eq!(plan_step(t, &c, &None, false), Plan::Drop);
    let empty = creep("c", p(10, 10), 0, 50);
    assert_eq!(plan_step(t, &empty, &view(p(30, 30), 0), false), Plan::Drop);
}

#[test]
fn harvest_needs_room_for_energy() {
    let t = CreepTarget::Harvest(7);
    let c = creep("c", p(10, 10), 0, 50);
    assert_eq!(plan_step(t, &c, &view(p(11, 11), 0), false), Plan::Harvest(7));
    assert_eq!(plan_step(t, &c, &view(p(20, 20), 0), false), Plan::MoveTo(t));
    let full = creep("c", p(10, 10), 50, 0);
    assert_eq!(plan_step(t, &full, &view(p(11, 11), 0), false), Plan::Drop);
}

#[test]
fn crowded_source_is_given_up_before_arrival() {
    let t = CreepTarget::Harvest(7);
    let c = creep("c", p(10, 10), 0, 50);
    let crowded = Some(TargetView { pos: p(20, 20), energy_free: 0, room_creeps: vec![p(21, 21), p(19, 19)] });
    assert_eq!(plan_step(t, &c, &crowded, true), Plan::Drop);
    assert_eq!(plan_step(t, &c, &crowded, false), Plan::MoveTo(t));
}

#[test]
fn perform_says_and_drops() {
    let mut targets = CreepTargets::new();
    targets.insert("c".to_string(), CreepTarget::StoreTower(2));
    let c = creep("c", p(10, 10), 40, 10);
    let s = perform::run(&mut targets, &c, &view(p(10, 11), 100));
    assert_eq!(s.say, Some(Say::StoreTower));
    assert_eq!(s.say.unwrap().text(), "StoreTower");
    assert_eq!(s.plan, Plan::Transfer(CreepTarget::StoreTower(2), 40));
    assert_eq!(targets.get("c"), Some(CreepTarget::StoreTower(2)));
    let empty = creep("c", p(10, 10), 0, 50);
    let s = perform::run(&mut targets, &empty, &view(p(10, 11), 100));
    assert_eq!(s.say, None);
    assert_eq!(s.plan, Plan::Drop);
    assert_eq!(targets.get("c"), None);
}

#[test]
fn say_texts() {
    assert_eq!(Say::StoreSpawn.text(), "StoreSpawn");
    assert_eq!(Say::StoreExtension.text(), "StoreExtension");
    assert_eq!(Say::UpgradeController.text(), "UpgradeController");
    assert_eq!(Say::Harvest.text(), "Harvest");
}

#[test]
fn run_skips_spawning_creeps() {
    let mut targets = CreepTargets::new();
    let mut c = creep("c", p(10, 10), 0, 50);
    c.spawning = true;
    assert_eq!(run(&mut targets, &c, &busy_room(), &None), Plan::Idle);
    assert_eq!(targets.get("c"), None);
}

#[test]
fn run_assigns_then_works() {
    let mut targets = CreepTargets::new();
    let c = creep("c", p(25, 21), 0, 50);
    assert_eq!(run(&mut targets, &c, &busy_room(), &None), Plan::Idle);
    assert_eq!(targets.get("c"), Some(CreepTarget::Harvest(9)));
    let plan = run(&mut targets, &c, &busy_room(), &view(p(25, 20), 0));
    assert_eq!(plan, Plan::Harvest(9));
    assert_eq!(targets.get("c"), Some(CreepTarget::Harvest(9)));
    let gone = run(&mut targets, &c, &busy_room(), &None);
    assert_eq!(gone, Plan::Drop);
    assert_eq!(targets.get("c"), None);
}

#[test]
fn settle_transfer() {
    let mut targets = CreepTargets::new();
    let t = CreepTarget::StoreSpawn(1);
    targets.insert("c".to_string(), t);
    assert_eq!(settle(&mut targets, "c", Plan::Transfer(t, 50), Outcome::Done, 10), FollowUp::Nothing);
    assert_eq!(targets.get("c"), Some(t));
    assert_eq!(settle(&mut targets, "c", Plan::Transfer(t, 50), Outcome::Failed, 10), FollowUp::Transfer(t, 10));
    assert_eq!(targets.get("c"), None);
}

#[test]
fn settle_upgrade() {
    let mut targets = CreepTargets::new();
    let t = CreepTarget::Upgrade(5);
    targets.insert("c".to_string(), t);
    assert_eq!(settle(&mut targets, "c", Plan::Upgrade(5), Outcome::NotInRange, 0), FollowUp::MoveTo(t));
    assert_eq!(targets.get("c"), Some(t));
    assert_eq!(settle(&mut targets, "c", Plan::Upgrade(5), Outcome::Failed, 0), FollowUp::Nothing);
    assert_eq!(targets.get("c"), None);
}

#[test]
fn settle_harvest() {
    let mut targets = CreepTargets::new();
    let t = CreepTarget::Harvest(7);
    targets.insert("c".to_string(), t);
    assert_eq!(settle(&mut targets, "c", Plan::Harvest(7), Outcome::Done, 0), FollowUp::Nothing);
    assert_eq!(targets.get("c"), Some(t));
    assert_eq!(settle(&mut targets, "c", Plan::Harvest(7), Outcome::NotInRange, 0), FollowUp::Nothing);
    assert_eq!(targets.get("c"), None);
}

#[test]
fn targets_persist_and_are_independent() {
    let mut targets = CreepTargets::new();
    targets.insert("a".to_string(), CreepTarget::Upgrade(1));
    targets.insert("b".to_string(), CreepTarget::Harvest(2));
    targets.insert("a".to_string(), CreepTarget::StoreExtension(3));
    assert_eq!(targets.get("a"), Some(CreepTarget::StoreExtension(3)));
    assert_eq!(targets.get("b"), Some(CreepTarget::Harvest(2)));
    targets.remove("a");
    assert_eq!(targets.get("a"), None);
    assert_eq!(targets.get("b"), Some(CreepTarget::Harvest(2)));
    assert_eq!(CreepTarget::Harvest(2).id(), 2);
}

#[test]
fn fresh_target_is_kept_next_turn() {
    let mut room = busy_room();
    room.structures[1].energy_free = 10;
    let c = creep("c", p(5, 5), 20, 30);
    let t = pick(&room, 20).unwrap();
    assert_ne!(plan_step(t, &c, &view(p(2, 2), 10), false), Plan::Drop);
}
