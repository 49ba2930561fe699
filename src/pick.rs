use vstd::prelude::*;

use crate::toi::{is_nan, is_nan_bits, rank, rank_of, toi_less};

verus! {

/// A candidate's ray-test result counts as a hit when it reports a distance
/// that is a number and not negative; a NaN distance from a malformed shape
/// is no hit.
pub open spec fn is_hit(t: Option<u32>) -> bool {
    t is Some && !is_nan_bits(t->0) && rank(t->0) >= 0
}

/// Some candidate of the sequence reports a hit.
pub open spec fn any_hit(s: Seq<Option<u32>>) -> bool {
    exists|j: int| 0 <= j < s.len() && #[trigger] is_hit(s[j])
}

/// Candidate `i` is the one to select: it is a hit, no hit is nearer, and
/// every earlier hit is strictly farther (the first of equal distances wins).
pub open spec fn is_nearest(s: Seq<Option<u32>>, i: int) -> bool {
    &&& 0 <= i < s.len()
    &&& is_hit(s[i])
    &&& forall|j: int| 0 <= j < s.len() && #[trigger] is_hit(s[j]) ==> rank(s[i]->0) <= rank(s[j]->0)
    &&& forall|j: int| 0 <= j < i && #[trigger] is_hit(s[j]) ==> rank(s[i]->0) < rank(s[j]->0)
}

/// Selects, among per-candidate hit distances given as `f32` bit patterns
/// (`None` for a miss), the index of the nearest hit at a non-negative
/// distance; `None` when no candidate was hit.
pub fn nearest_hit(tois: &Vec<Option<u32>>) -> (r: Option<usize>)
    ensures
        r is None <==> !any_hit(tois@),
        r matches Some(i) ==> is_nearest(tois@, i as int),
{
    let mut best: Option<usize> = None;
    let mut best_toi: u32 = 0;
    let mut k: usize = 0;
    while k < tois.len()
        invariant
            k <= tois.len(),
            best is None ==> (forall|j: int| 0 <= j < k ==> !#[trigger] is_hit(tois@[j])),
            best matches Some(b) ==> {
                &&& b < k
                &&& tois@[b as int] == Some(best_toi)
                &&& is_hit(tois@[b as int])
                &&& forall|j: int| 0 <= j < k && #[trigger] is_hit(tois@[j]) ==> rank(best_toi) <= rank(tois@[j]->0)
                &&& forall|j: int| 0 <= j < b && #[trigger] is_hit(tois@[j]) ==> rank(best_toi) < rank(tois@[j]->0)
            },
        decreases tois.len() - k,
    {
        if let Some(t) = tois[k] {
            if !is_nan(t) && rank_of(t) >= 0 {
                let better = match best {
                    None => true,
                    Some(_) => toi_less(t, best_toi),
                };
                if better {
                    best = Some(k);
                    best_toi = t;
                }
            }
        }
        k = k + 1;
    }
    proof {
        if best is None {
            assert(!any_hit(tois@));
        } else {
            let b = best->0 as int;
            assert(is_hit(tois@[b]));
        }
    }
    best
}

/// The selected distance does not depend on the order of the candidates:
/// two sequences holding the same results select hits at the same distance.
pub proof fn lemma_nearest_ignores_order(s1: Seq<Option<u32>>, s2: Seq<Option<u32>>, a: int, b: int)
    requires
        forall|k: int| 0 <= k < s1.len() ==> s2.contains(#[trigger] s1[k]),
        forall|k: int| 0 <= k < s2.len() ==> s1.contains(#[trigger] s2[k]),
        is_nearest(s1, a),
        is_nearest(s2, b),
    ensures
        rank(s1[a]->0) == rank(s2[b]->0),
{
    assert(s2.contains(s1[a]));
    let a2 = choose|k: int| 0 <= k < s2.len() && s2[k] == s1[a];
    assert(is_hit(s2[a2]));
    assert(s1.contains(s2[b]));
    let b1 = choose|k: int| 0 <= k < s1.len() && s1[k] == s2[b];
    assert(is_hit(s1[b1]));
}

/// Of two hits at different distances the farther one is never selected.
pub proof fn lemma_strictly_nearer_wins(s: Seq<Option<u32>>, i: int, j: int, k: int)
    requires
        0 <= i < s.len(),
        0 <= j < s.len(),
        is_hit(s[i]),
        is_hit(s[j]),
        rank(s[i]->0) < rank(s[j]->0),
        is_nearest(s, k),
    ensures
        k != j,
{
    assert(is_hit(s[i]));
}

/// When exactly one candidate reports a hit, that candidate is the one
/// selected.
pub proof fn lemma_single_hit_selected(s: Seq<Option<u32>>, i: int)
    requires
        0 <= i < s.len(),
        is_hit(s[i]),
        forall|j: int| 0 <= j < s.len() && j != i ==> !#[trigger] is_hit(s[j]),
    ensures
        any_hit(s),
        is_nearest(s, i),
        forall|k: int| is_nearest(s, k) ==> k == i,
{
}

} // verus!
