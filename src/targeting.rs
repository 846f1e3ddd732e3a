use vstd::prelude::*;

use crate::entity::EntityId;
use crate::geometry::{dist_sq, Vec3};

verus! {

/// Every position among `cands` is well formed.
pub open spec fn all_wf(cands: Seq<(EntityId, Vec3)>) -> bool {
    forall|i: int| 0 <= i < cands.len() ==> (#[trigger] cands[i]).1.wf()
}

/// `i` is the first of the candidates closest to `pos`.
pub open spec fn first_nearest(cands: Seq<(EntityId, Vec3)>, pos: Vec3, i: int) -> bool {
    &&& 0 <= i < cands.len()
    &&& forall|j: int| 0 <= j < cands.len() ==> dist_sq(cands[i].1, pos) <= dist_sq(#[trigger] cands[j].1, pos)
    &&& forall|j: int| 0 <= j < i ==> dist_sq(#[trigger] cands[j].1, pos) > dist_sq(cands[i].1, pos)
}

/// The first candidate closest to `pos`, if there is any candidate.
pub open spec fn nearest_index(cands: Seq<(EntityId, Vec3)>, pos: Vec3) -> Option<int> {
    if cands.len() == 0 {
        None
    } else {
        Some(choose|i: int| first_nearest(cands, pos, i))
    }
}

/// At most one candidate is the first closest one.
pub proof fn lemma_first_nearest_unique(cands: Seq<(EntityId, Vec3)>, pos: Vec3, i: int, k: int)
    requires
        first_nearest(cands, pos, i),
        first_nearest(cands, pos, k),
    ensures
        i == k,
{
    if i < k {
        assert(dist_sq(cands[i].1, pos) > dist_sq(cands[k].1, pos));
    } else if k < i {
        assert(dist_sq(cands[k].1, pos) > dist_sq(cands[i].1, pos));
    }
}

/// Finds the first of the candidates closest to `pos` by squared distance.
pub fn nearest(cands: &Vec<(EntityId, Vec3)>, pos: &Vec3) -> (r: Option<usize>)
    requires
        all_wf(cands@),
        pos.wf(),
    ensures
        r is None == (cands@.len() == 0),
        r matches Some(i) ==> first_nearest(cands@, *pos, i as int),
        r matches Some(i) ==> nearest_index(cands@, *pos) == Some(i as int),
{
    if cands.len() == 0 {
        return None;
    }
    let mut best: usize = 0;
    let mut best_d: i64 = cands[0].1.dist_sq(pos);
    let mut i: usize = 1;
    while i < cands.len()
        invariant
            1 <= i <= cands.len(),
            all_wf(cands@),
            pos.wf(),
            best < i,
            best_d == dist_sq(cands@[best as int].1, *pos),
            forall|j: int| 0 <= j < i ==> best_d <= dist_sq(#[trigger] cands@[j].1, *pos),
            forall|j: int| 0 <= j < best ==> dist_sq(#[trigger] cands@[j].1, *pos) > best_d,
        decreases cands.len() - i,
    {
        let d = cands[i].1.dist_sq(pos);
        if d < best_d {
            best = i;
            best_d = d;
        }
        i = i + 1;
    }
    proof {
        assert(first_nearest(cands@, *pos, best as int));
        let c = choose|k: int| first_nearest(cands@, *pos, k);
        lemma_first_nearest_unique(cands@, *pos, c, best as int);
    }
    Some(best)
}

} // verus!
