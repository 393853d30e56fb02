use world::combat::towers;
use world::geometry::WorldPos;
use world::lifecycle::{
    body_cost, creep_name, memory_cleanup_due, part_cost, purge, stale_memory_names, worker_body,
    BodyPart, SpawnPlanner,
};
use world::management::structures::{StructureInfo, StructureKind};

#[test]
fn part_costs_follow_the_game_table() {
    assert_eq!(part_cost(BodyPart::Move), 50);
    assert_eq!(part_cost(BodyPart::Work), 100);
    assert_eq!(part_cost(BodyPart::Carry), 50);
    assert_eq!(part_cost(BodyPart::Attack), 80);
    assert_eq!(part_cost(BodyPart::RangedAttack), 150);
    assert_eq!(part_cost(BodyPart::Tough), 10);
    assert_eq!(part_cost(BodyPart::Heal), 250);
    assert_eq!(part_cost(BodyPart::Claim), 600);
}

#[test]
fn worker_costs_250() {
    let body = worker_body();
    assert_eq!(body, vec![BodyPart::Move, BodyPart::Move, BodyPart::Carry, BodyPart::Work]);
    assert_eq!(body_cost(&body), 250);
    assert_eq!(body_cost(&vec![]), 0);
}

#[test]
fn old_creeps_retire() {
    assert_eq!(purge(&vec![Some(24), Some(25), None, Some(1500), Some(0)]), vec![true, false, true, false, true]);
}

#[test]
fn names_join_tick_and_counter() {
    assert_eq!(creep_name(1234, 0), "1234-0");
    assert_eq!(creep_name(0, 12), "0-12");
    assert_eq!(creep_name(4294967295, 10), "4294967295-10");
    assert_ne!(creep_name(12, 3), creep_name(1, 23));
}

#[test]
fn planner_spawns_below_limit_with_energy() {
    let mut planner = SpawnPlanner::new(500, 3);
    let r = planner.request(300).unwrap();
    assert_eq!(r.name, "500-0");
    assert_eq!(r.body, worker_body());
    planner.record(true);
    assert_eq!(planner.request(250).unwrap().name, "500-1");
    planner.record(false);
    assert_eq!(planner.request(250).unwrap().name, "500-1");
    assert!(planner.request(249).is_none());
    let full = SpawnPlanner::new(500, 8);
    assert!(full.request(10000).is_none());
}

#[test]
fn memory_sweep_every_thousand_ticks() {
    assert!(memory_cleanup_due(0));
    assert!(memory_cleanup_due(3000));
    assert!(!memory_cleanup_due(3001));
}

#[test]
fn stale_names_are_the_dead_ones() {
    let alive = vec!["a".to_string(), "c".to_string()];
    let remembered = vec!["c".to_string(), "b".to_string(), "a".to_string(), "d".to_string()];
    assert_eq!(stale_memory_names(alive, &remembered), vec!["b".to_string(), "d".to_string()]);
    assert!(stale_memory_names(vec![], &vec![]).is_empty());
}

#[test]
fn towers_are_selected_in_order() {
    let mk = |kind, id| StructureInfo { kind, id, pos: WorldPos { x: 0, y: 0 }, energy_free: 0, hits: 1, hits_max: 1 };
    let list = vec![mk(StructureKind::Tower, 1), mk(StructureKind::Road, 2), mk(StructureKind::Tower, 3)];
    let t = towers(&list);
    assert_eq!(t.iter().map(|s| s.id).collect::<Vec<_>>(), vec![1, 3]);
}
