//! Defence: every tower of the room fires at the hostile creep closest to it.
use vstd::prelude::*;

use crate::management::structures::{lemma_filter_step, StructureInfo, StructureKind};

verus! {

pub open spec fn is_tower(s: StructureInfo) -> bool {
    s.kind == StructureKind::Tower
}

/// The towers among the room's structures, in the order the game lists them;
/// each of them attacks the hostile creep closest to it, if there is one.
pub fn towers(structures: &Vec<StructureInfo>) -> (r: Vec<StructureInfo>)
    ensures
        r@ == structures@.filter(|s: StructureInfo| is_tower(s)),
{
    let ghost p = |s: StructureInfo| is_tower(s);
    let mut r: Vec<StructureInfo> = Vec::new();
    let mut i: usize = 0;
    while i < structures.len()
        invariant
            i <= structures.len(),
            p == (|s: StructureInfo| is_tower(s)),
            r@ == structures@.take(i as int).filter(p),
        decreases structures.len() - i,
    {
        proof {
            lemma_filter_step(structures@, i as int, p);
        }
        let s = structures[i];
        if s.kind == StructureKind::Tower {
            r.push(s);
        }
        i = i + 1;
    }
    assert(structures@.take(structures.len() as int) =~= structures@);
    r
}


/// Every tower fires, whatever its hits, energy or position: being selected
/// depends on the kind alone, so the selection is the subsequence of towers.
pub proof fn lemma_towers_are_all_towers(structures: Seq<StructureInfo>)
    ensures
        forall|s: StructureInfo| #[trigger] is_tower(s) <==> s.kind == StructureKind::Tower,
        structures.filter(|s: StructureInfo| is_tower(s)) == structures.filter(
            |s: StructureInfo| s.kind == StructureKind::Tower,
        ),
{
    assert((|s: StructureInfo| is_tower(s)) =~= (|s: StructureInfo| s.kind == StructureKind::Tower));
}

} // verus!
