//! Choosing a target for a creep that has none.
//!
//! A creep carrying energy fills, in this order of priority, the first spawn
//! of its room, the first tower with room for energy, the first uncrowded
//! extension with room for energy, and otherwise upgrades the first
//! controller. A creep without energy goes to harvest the uncrowded active
//! source nearest to the spawn.
use vstd::prelude::*;

use crate::geometry::{range, range_to, WorldPos};
use crate::management::path::{check_if_extension_is_occupied, check_if_source_is_occuppied, crowded};
use crate::management::structures::{get_spawn, SourceInfo, StructureInfo, StructureKind};
use crate::management::{CreepTargets, CreepView, RoomView};
use crate::CreepTarget;

verus! {

/// Structures of the given kind; with `need_free`, only those whose store can
/// take energy; with `mind_crowding`, only those not crowded by `creeps`.
pub open spec fn wanted(
    kind: StructureKind,
    need_free: bool,
    mind_crowding: bool,
    creeps: Seq<WorldPos>,
) -> spec_fn(StructureInfo) -> bool {
    |s: StructureInfo|
        s.kind == kind && (need_free ==> s.energy_free > 0) && (mind_crowding ==> !crowded(
            s.pos,
            creeps,
        ))
}

/// `i` is the first index of `s` whose element satisfies `p`.
pub open spec fn is_first_where(s: Seq<StructureInfo>, p: spec_fn(StructureInfo) -> bool, i: int) -> bool {
    &&& 0 <= i < s.len()
    &&& p(s[i])
    &&& forall|j: int| 0 <= j < i ==> !p(#[trigger] s[j])
}

/// The first index of `s` whose element satisfies `p`, if any.
pub open spec fn first_where(s: Seq<StructureInfo>, p: spec_fn(StructureInfo) -> bool) -> Option<int> {
    if exists|i: int| is_first_where(s, p, i) {
        Some(choose|i: int| is_first_where(s, p, i))
    } else {
        None
    }
}

pub proof fn lemma_first_where_is(s: Seq<StructureInfo>, p: spec_fn(StructureInfo) -> bool, i: int)
    requires
        is_first_where(s, p, i),
    ensures
        first_where(s, p) == Some(i),
{
    let c = choose|k: int| is_first_where(s, p, k);
    assert(is_first_where(s, p, c));
    if c < i {
        assert(!p(s[c]));
    }
    if i < c {
        assert(!p(s[i]));
    }
}

/// Source `a` comes no later than source `b` when ordered by range from
/// `from`, ties keeping the listing order (the order of a stable sort).
pub open spec fn ranks_before(from: WorldPos, sources: Seq<SourceInfo>, a: int, b: int) -> bool {
    ||| range(from, sources[a].pos) < range(from, sources[b].pos)
    ||| (range(from, sources[a].pos) == range(from, sources[b].pos) && a <= b)
}

/// `k` is the uncrowded source that comes first by range from `from`.
pub open spec fn is_best_source(from: WorldPos, sources: Seq<SourceInfo>, creeps: Seq<WorldPos>, k: int) -> bool {
    &&& 0 <= k < sources.len()
    &&& !crowded(sources[k].pos, creeps)
    &&& forall|j: int|
        0 <= j < sources.len() && !crowded(#[trigger] sources[j].pos, creeps) ==> ranks_before(
            from,
            sources,
            k,
            j,
        )
}

/// The uncrowded source nearest to `from` (the first listed among equally
/// near ones), if any source is uncrowded.
pub open spec fn best_source(from: WorldPos, sources: Seq<SourceInfo>, creeps: Seq<WorldPos>) -> Option<int> {
    if exists|k: int| is_best_source(from, sources, creeps, k) {
        Some(choose|k: int| is_best_source(from, sources, creeps, k))
    } else {
        None
    }
}

pub proof fn lemma_best_source_is(from: WorldPos, sources: Seq<SourceInfo>, creeps: Seq<WorldPos>, k: int)
    requires
        is_best_source(from, sources, creeps, k),
    ensures
        best_source(from, sources, creeps) == Some(k),
{
    let c = choose|i: int| is_best_source(from, sources, creeps, i);
    assert(is_best_source(from, sources, creeps, c));
    assert(ranks_before(from, sources, c, k));
    assert(ranks_before(from, sources, k, c));
}

/// The target a creep without one is given, from the energy it carries and
/// its room.
pub open spec fn assignment(room: &RoomView, energy_used: u32) -> Option<CreepTarget> {
    let structures = room.structures@;
    let creeps = room.my_creeps@;
    if energy_used > 0 {
        if room.my_spawns@.len() > 0 && room.my_spawns@[0].energy_free > 0 {
            Some(CreepTarget::StoreSpawn(room.my_spawns@[0].id))
        } else if let Some(i) = first_where(structures, wanted(StructureKind::Tower, true, false, creeps)) {
            Some(CreepTarget::StoreTower(structures[i].id))
        } else if let Some(i) = first_where(structures, wanted(StructureKind::Extension, true, true, creeps)) {
            Some(CreepTarget::StoreExtension(structures[i].id))
        } else if let Some(i) = first_where(structures, wanted(StructureKind::Controller, false, false, creeps)) {
            Some(CreepTarget::Upgrade(structures[i].id))
        } else {
            None
        }
    } else if room.active_sources@.len() > 0 {
        match best_source(room.my_spawns@[0].pos, room.active_sources@, creeps) {
            Some(k) => Some(CreepTarget::Harvest(room.active_sources@[k].id)),
            None => None,
        }
    } else {
        None
    }
}

fn find_first(
    room: &RoomView,
    kind: StructureKind,
    need_free: bool,
    mind_crowding: bool,
) -> (r: Option<usize>)
    requires
        room.valid(),
    ensures
        match r {
            Some(i) => first_where(room.structures@, wanted(kind, need_free, mind_crowding, room.my_creeps@))
                == Some(i as int) && i < room.structures@.len(),
            None => first_where(room.structures@, wanted(kind, need_free, mind_crowding, room.my_creeps@))
                is None,
        },
{
    let ghost p = wanted(kind, need_free, mind_crowding, room.my_creeps@);
    let ghost s = room.structures@;
    let mut i: usize = 0;
    while i < room.structures.len()
        invariant
            i <= s.len(),
            s == room.structures@,
            p == wanted(kind, need_free, mind_crowding, room.my_creeps@),
            room.valid(),
            forall|j: int| 0 <= j < i ==> !p(#[trigger] s[j]),
        decreases s.len() - i,
    {
        let st = room.structures[i];
        assert(st.pos.valid());
        let hit = st.kind == kind && (!need_free || st.energy_free > 0) && (!mind_crowding
            || !check_if_extension_is_occupied(&st, &room.my_creeps));
        if hit {
            proof {
                assert(p(s[i as int]));
                lemma_first_where_is(s, p, i as int);
            }
            return Some(i);
        }
        i = i + 1;
    }
    proof {
        if exists|k: int| is_first_where(s, p, k) {
            let k = choose|k: int| is_first_where(s, p, k);
            assert(p(s[k]));
        }
    }
    None
}

fn find_best_source(from: WorldPos, room: &RoomView) -> (r: Option<usize>)
    requires
        room.valid(),
        from.valid(),
    ensures
        match r {
            Some(k) => best_source(from, room.active_sources@, room.my_creeps@) == Some(k as int) && k
                < room.active_sources@.len(),
            None => best_source(from, room.active_sources@, room.my_creeps@) is None,
        },
{
    let ghost s = room.active_sources@;
    let ghost c = room.my_creeps@;
    let mut best: Option<usize> = None;
    let mut best_range: u32 = 0;
    let mut i: usize = 0;
    while i < room.active_sources.len()
        invariant
            i <= s.len(),
            s == room.active_sources@,
            c == room.my_creeps@,
            room.valid(),
            from.valid(),
            match best {
                Some(b) => {
                    &&& b < i
                    &&& !crowded(s[b as int].pos, c)
                    &&& best_range == range(from, s[b as int].pos)
                    &&& forall|j: int|
                        0 <= j < i && !crowded(#[trigger] s[j].pos, c) ==> ranks_before(
                            from,
                            s,
                            b as int,
                            j,
                        )
                },
                None => forall|j: int| 0 <= j < i ==> crowded(#[trigger] s[j].pos, c),
            },
        decreases s.len() - i,
    {
        let src = room.active_sources[i];
        assert(src.pos.valid());
        if !check_if_source_is_occuppied(&src, &room.my_creeps) {
            let r = range_to(from, src.pos);
            match best {
                None => {
                    best = Some(i);
                    best_range = r;
                },
                Some(b) => {
                    if r < best_range {
                        best = Some(i);
                        best_range = r;
                    }
                },
            }
        }
        i = i + 1;
    }
    match best {
        Some(b) => {
            proof {
                lemma_best_source_is(from, s, c, b as int);
            }
            Some(b)
        },
        None => {
            proof {
                if exists|k: int| is_best_source(from, s, c, k) {
                    let k = choose|k: int| is_best_source(from, s, c, k);
                    assert(crowded(s[k].pos, c));
                }
            }
            None
        },
    }
}

/// The target for a creep carrying `energy_used` energy in `room`.
pub fn pick(room: &RoomView, energy_used: u32) -> (r: Option<CreepTarget>)
    requires
        room.valid(),
        energy_used == 0 && room.active_sources@.len() > 0 ==> room.my_spawns@.len() > 0,
    ensures
        r == assignment(room, energy_used),
{
    if energy_used > 0 {
        if let Some(spawn) = get_spawn(&room.my_spawns) {
            if spawn.energy_free > 0 {
                return Some(CreepTarget::StoreSpawn(spawn.id));
            }
        }
        if let Some(i) = find_first(room, StructureKind::Tower, true, false) {
            return Some(CreepTarget::StoreTower(room.structures[i].id));
        }
        if let Some(i) = find_first(room, StructureKind::Extension, true, true) {
            return Some(CreepTarget::StoreExtension(room.structures[i].id));
        }
        if let Some(i) = find_first(room, StructureKind::Controller, false, false) {
            return Some(CreepTarget::Upgrade(room.structures[i].id));
        }
        None
    } else if room.active_sources.len() > 0 {
        let spawn = room.my_spawns[0];
        assert(spawn.pos.valid());
        match find_best_source(spawn.pos, room) {
            Some(k) => Some(CreepTarget::Harvest(room.active_sources[k].id)),
            None => None,
        }
    } else {
        None
    }
}

/// Gives a creep that has no target the one `assignment` picks, if any.
/// A creep without energy in a room with active sources needs a spawn in that
/// room to measure distances from.
pub fn run(targets: &mut CreepTargets, creep: &CreepView, room: &RoomView)
    requires
        room.valid(),
        !old(targets)@.contains_key(creep.name@),
        creep.energy_used == 0 && room.active_sources@.len() > 0 ==> room.my_spawns@.len() > 0,
    ensures
        final(targets)@ == (match assignment(room, creep.energy_used) {
            Some(t) => old(targets)@.insert(creep.name@, t),
            None => old(targets)@,
        }),
{
    match pick(room, creep.energy_used) {
        Some(t) => targets.insert(creep.name.clone(), t),
        None => {},
    }
}

/// A creep carrying energy is never sent to harvest, and a creep carrying
/// none is only ever sent to harvest; a creep carrying energy whose spawn can
/// take energy always goes to that spawn.
pub proof fn lemma_work_matches_load(room: &RoomView, energy_used: u32)
    ensures
        energy_used > 0 ==> !(assignment(room, energy_used) matches Some(CreepTarget::Harvest(_))),
        energy_used == 0 ==> (assignment(room, energy_used) is None || assignment(
            room,
            energy_used,
        ) matches Some(CreepTarget::Harvest(_))),
        energy_used > 0 && room.my_spawns@.len() > 0 && room.my_spawns@[0].energy_free > 0
            ==> assignment(room, energy_used) == Some(CreepTarget::StoreSpawn(room.my_spawns@[0].id)),
{
}


/// A creep carrying energy whose spawn cannot take energy and whose room has
/// no tower with room for energy fills the first extension, in listing order,
/// that has room for energy and is not crowded.
pub proof fn lemma_fills_first_open_extension(room: &RoomView, energy_used: u32, i: int)
    requires
        energy_used > 0,
        !(room.my_spawns@.len() > 0 && room.my_spawns@[0].energy_free > 0),
        forall|j: int|
            0 <= j < room.structures@.len() ==> !((#[trigger] room.structures@[j]).kind
                == StructureKind::Tower && room.structures@[j].energy_free > 0),
        0 <= i < room.structures@.len(),
        room.structures@[i].kind == StructureKind::Extension,
        room.structures@[i].energy_free > 0,
        !crowded(room.structures@[i].pos, room.my_creeps@),
        forall|j: int|
            0 <= j < i ==> !((#[trigger] room.structures@[j]).kind == StructureKind::Extension
                && room.structures@[j].energy_free > 0 && !crowded(
                room.structures@[j].pos,
                room.my_creeps@,
            )),
    ensures
        assignment(room, energy_used) == Some(CreepTarget::StoreExtension(room.structures@[i].id)),
{
    let s = room.structures@;
    let c = room.my_creeps@;
    let pt = wanted(StructureKind::Tower, true, false, c);
    let pe = wanted(StructureKind::Extension, true, true, c);
    if exists|k: int| is_first_where(s, pt, k) {
        let k = choose|k: int| is_first_where(s, pt, k);
        assert(pt(s[k]));
    }
    assert(first_where(s, pt) is None);
    assert(is_first_where(s, pe, i)) by {
        assert forall|j: int| 0 <= j < i implies !pe(#[trigger] s[j]) by {
            assert(!(s[j].kind == StructureKind::Extension && s[j].energy_free > 0 && !crowded(s[j].pos, c)));
        }
    }
    lemma_first_where_is(s, pe, i);
}

/// A creep carrying energy is sent to upgrade only when no extension of its
/// room both has room for energy and is uncrowded, and no tower has room.
pub proof fn lemma_upgrade_only_when_nothing_to_fill(room: &RoomView, energy_used: u32)
    requires
        assignment(room, energy_used) matches Some(CreepTarget::Upgrade(_)),
    ensures
        energy_used > 0,
        forall|j: int|
            0 <= j < room.structures@.len() ==> !((#[trigger] room.structures@[j]).kind
                == StructureKind::Extension && room.structures@[j].energy_free > 0 && !crowded(
                room.structures@[j].pos,
                room.my_creeps@,
            )),
        forall|j: int|
            0 <= j < room.structures@.len() ==> !((#[trigger] room.structures@[j]).kind
                == StructureKind::Tower && room.structures@[j].energy_free > 0),
{
    let s = room.structures@;
    let c = room.my_creeps@;
    let pt = wanted(StructureKind::Tower, true, false, c);
    let pe = wanted(StructureKind::Extension, true, true, c);
    assert(first_where(s, pt) is None);
    assert(first_where(s, pe) is None);
    assert forall|j: int| 0 <= j < s.len() implies !pe(#[trigger] s[j]) by {
        if pe(s[j]) {
            lemma_first_match_exists(s, pe, j);
        }
    }
    assert forall|j: int| 0 <= j < s.len() implies !pt(#[trigger] s[j]) by {
        if pt(s[j]) {
            lemma_first_match_exists(s, pt, j);
        }
    }
    assert forall|j: int| 0 <= j < s.len() implies !(#[trigger] s[j].kind == StructureKind::Extension
        && s[j].energy_free > 0 && !crowded(s[j].pos, c)) by {
        assert(!pe(s[j]));
    }
    assert forall|j: int| 0 <= j < s.len() implies !(#[trigger] s[j].kind == StructureKind::Tower
        && s[j].energy_free > 0) by {
        assert(!pt(s[j]));
    }
}

/// When some element satisfies `p`, a first such element exists.
pub proof fn lemma_first_match_exists(s: Seq<StructureInfo>, p: spec_fn(StructureInfo) -> bool, j: int)
    requires
        0 <= j < s.len(),
        p(s[j]),
    ensures
        first_where(s, p) is Some,
    decreases j,
{
    if forall|k: int| 0 <= k < j ==> !p(#[trigger] s[k]) {
        assert(is_first_where(s, p, j));
    } else {
        let k = choose|k: int| 0 <= k < j && !!p(#[trigger] s[k]);
        lemma_first_match_exists(s, p, k);
    }
}


/// A creep carrying energy whose spawn cannot take energy fills the first
/// tower, in listing order, that has room for energy.
pub proof fn lemma_fills_first_open_tower(room: &RoomView, energy_used: u32, i: int)
    requires
        energy_used > 0,
        !(room.my_spawns@.len() > 0 && room.my_spawns@[0].energy_free > 0),
        0 <= i < room.structures@.len(),
        room.structures@[i].kind == StructureKind::Tower,
        room.structures@[i].energy_free > 0,
        forall|j: int|
            0 <= j < i ==> !((#[trigger] room.structures@[j]).kind == StructureKind::Tower
                && room.structures@[j].energy_free > 0),
    ensures
        assignment(room, energy_used) == Some(CreepTarget::StoreTower(room.structures@[i].id)),
{
    let s = room.structures@;
    let pt = wanted(StructureKind::Tower, true, false, room.my_creeps@);
    assert(is_first_where(s, pt, i)) by {
        assert forall|j: int| 0 <= j < i implies !pt(#[trigger] s[j]) by {
            assert(!(s[j].kind == StructureKind::Tower && s[j].energy_free > 0));
        }
    }
    lemma_first_where_is(s, pt, i);
}

/// A creep without energy is sent to a source that is active and uncrowded,
/// and no other uncrowded source is nearer to the spawn, nor equally near and
/// listed earlier; when every source is crowded it gets nothing.
pub proof fn lemma_harvest_nearest_open_source(room: &RoomView)
    requires
        room.active_sources@.len() > 0,
    ensures
        assignment(room, 0) matches Some(CreepTarget::Harvest(id)) ==> exists|k: int|
            0 <= k < room.active_sources@.len() && room.active_sources@[k].id == id && !crowded(
                #[trigger] room.active_sources@[k].pos,
                room.my_creeps@,
            ) && forall|j: int|
                0 <= j < room.active_sources@.len() && !crowded(
                    #[trigger] room.active_sources@[j].pos,
                    room.my_creeps@,
                ) ==> range(room.my_spawns@[0].pos, room.active_sources@[k].pos) < range(
                    room.my_spawns@[0].pos,
                    room.active_sources@[j].pos,
                ) || (range(room.my_spawns@[0].pos, room.active_sources@[k].pos) == range(
                    room.my_spawns@[0].pos,
                    room.active_sources@[j].pos,
                ) && k <= j),
        assignment(room, 0) is None ==> forall|j: int|
            0 <= j < room.active_sources@.len() ==> crowded(
                #[trigger] room.active_sources@[j].pos,
                room.my_creeps@,
            ),
{
    let from = room.my_spawns@[0].pos;
    let s = room.active_sources@;
    let c = room.my_creeps@;
    match best_source(from, s, c) {
        Some(k) => {
            assert(is_best_source(from, s, c, k));
            assert(s[k].id == s[k].id);
        },
        None => {
            assert forall|j: int| 0 <= j < s.len() implies crowded(#[trigger] s[j].pos, c) by {
                if !crowded(s[j].pos, c) {
                    lemma_best_exists(from, s, c, j);
                }
            }
        },
    }
}

/// If some source is uncrowded, a best source exists.
proof fn lemma_best_exists(from: WorldPos, s: Seq<SourceInfo>, c: Seq<WorldPos>, j: int)
    requires
        0 <= j < s.len(),
        !crowded(s[j].pos, c),
    ensures
        best_source(from, s, c) is Some,
{
    // Take the uncrowded source minimal by (range, index).
    let k = min_source(from, s, c, s.len() as int, j);
    assert(is_best_source(from, s, c, k));
}

/// The uncrowded source among the first `n` that ranks first, given that
/// source `j < n` is uncrowded.
proof fn min_source(from: WorldPos, s: Seq<SourceInfo>, c: Seq<WorldPos>, n: int, j: int) -> (k: int)
    requires
        0 <= j < n <= s.len(),
        !crowded(s[j].pos, c),
    ensures
        0 <= k < n,
        !crowded(s[k].pos, c),
        forall|m: int| 0 <= m < n && !crowded(#[trigger] s[m].pos, c) ==> ranks_before(from, s, k, m),
    decreases n,
{
    if n == j + 1 {
        if exists|m: int| 0 <= m < j && !crowded(#[trigger] s[m].pos, c) {
            let m = choose|m: int| 0 <= m < j && !crowded(#[trigger] s[m].pos, c);
            let k0 = min_source(from, s, c, j, m);
            if range(from, s[j].pos) < range(from, s[k0].pos) {
                j
            } else {
                k0
            }
        } else {
            j
        }
    } else {
        let k0 = min_source(from, s, c, n - 1, j);
        let last = n - 1;
        if !crowded(s[last].pos, c) && range(from, s[last].pos) < range(from, s[k0].pos) {
            last
        } else {
            k0
        }
    }
}

} // verus!
