//! Broad phase: a one-dimensional sweep over x coordinates proposing
//! candidate collision pairs.
//!
//! The particle indices are sorted by ascending x position; each pair of
//! immediately adjacent particles in that order whose x projections overlap
//! is tested on the full squared distance against `(2 * radius)^2`.  Only
//! adjacent pairs are ever tested — a deliberate simplification of full
//! sweep-and-prune, so three or more particles clustered within one radius
//! of each other can leave some overlapping pairs unreported.

use vstd::prelude::*;
use crate::narrow_phase::dist_sq;
use crate::params::COORD_LIMIT;
use crate::particle::Particle;

verus! {

/// Every entry indexes into `0 .. n` and no index repeats.
pub open spec fn valid_indices(ord: Seq<usize>, n: nat) -> bool {
    &&& forall|i: int| 0 <= i < ord.len() ==> (ord[i] as nat) < n
    &&& forall|i: int, j: int| 0 <= i < j < ord.len() ==> ord[i] != ord[j]
}

/// `ord` is a permutation of the indices `0 .. n`.
pub open spec fn is_index_perm(ord: Seq<usize>, n: nat) -> bool {
    &&& ord.len() == n
    &&& valid_indices(ord, n)
}

/// The particles listed in `ord` order have nondecreasing x positions.
pub open spec fn sorted_by_x(s: Seq<Particle>, ord: Seq<usize>) -> bool {
    forall|i: int, j: int|
        0 <= i < j < ord.len() ==> s[ord[i] as int].position.x <= s[ord[j] as int].position.x
}

/// An index order by ascending x position: an insertion sort by adjacent
/// swaps over an index array, leaving the particle arena untouched.
pub fn sort_indices_by_x(ps: &Vec<Particle>) -> (ord: Vec<usize>)
    ensures
        is_index_perm(ord@, ps@.len()),
        sorted_by_x(ps@, ord@),
{
    let n: usize = ps.len();
    let mut ord: Vec<usize> = Vec::new();
    let mut k: usize = 0;
    while k < n
        invariant
            k <= n,
            ord@.len() == k,
            forall|i: int| 0 <= i < k ==> ord@[i] == i,
        decreases n - k,
    {
        ord.push(k);
        k = k + 1;
    }
    let mut i: usize = 1;
    while i < n
        invariant
            n == ps@.len(),
            1 <= i,
            is_index_perm(ord@, n as nat),
            forall|k2: int, l: int|
                0 <= k2 < l < i && l < n ==> ps@[ord@[k2] as int].position.x <= ps@[ord@[l]
                    as int].position.x,
        decreases n - i,
    {
        let mut j: usize = i;
        while j > 0 && ps[ord[j - 1]].position.x > ps[ord[j]].position.x
            invariant
                n == ps@.len(),
                j <= i < n,
                is_index_perm(ord@, n as nat),
                forall|k2: int, l: int|
                    0 <= k2 < l <= i && l != j ==> ps@[ord@[k2] as int].position.x <= ps@[ord@[l]
                        as int].position.x,
                forall|l: int|
                    j < l <= i ==> ps@[ord@[j as int] as int].position.x <= ps@[ord@[l]
                        as int].position.x,
            decreases j,
        {
            let hi: usize = ord[j];
            let lo: usize = ord[j - 1];
            ord.set(j - 1, hi);
            ord.set(j, lo);
            j = j - 1;
        }
        proof {
            assert forall|k2: int, l: int| 0 <= k2 < l <= i implies ps@[ord@[k2]
                as int].position.x <= ps@[ord@[l] as int].position.x by {
                if l == j {
                    if k2 < j - 1 {
                        assert(ps@[ord@[k2] as int].position.x <= ps@[ord@[j - 1]
                            as int].position.x);
                    }
                }
            }
        }
        i = i + 1;
    }
    ord
}

/// Adjacent entries within collision range: squared centre distance at most
/// `(2 * radius)^2`.
pub open spec fn close_pair(s: Seq<Particle>, a: usize, b: usize, radius: int) -> bool {
    dist_sq(s[a as int], s[b as int]) <= 4 * radius * radius
}

/// The candidate pairs of a sorted order: each pair of adjacent entries
/// that lies within collision range, in sweep order.
pub open spec fn adjacent_candidates(s: Seq<Particle>, ord: Seq<usize>, radius: int) -> Seq<
    (usize, usize),
>
    decreases ord.len(),
{
    if ord.len() <= 1 {
        Seq::empty()
    } else {
        let prev = adjacent_candidates(s, ord.drop_last(), radius);
        if close_pair(s, ord[ord.len() - 2], ord[ord.len() - 1], radius) {
            prev.push((ord[ord.len() - 2], ord[ord.len() - 1]))
        } else {
            prev
        }
    }
}

/// Every reported candidate is a pair of distinct in-range indices within
/// collision range.
pub proof fn lemma_adjacent_candidates_sound(
    s: Seq<Particle>,
    ord: Seq<usize>,
    radius: int,
    m: int,
)
    requires
        valid_indices(ord, s.len()),
        0 <= m < adjacent_candidates(s, ord, radius).len(),
    ensures
        (adjacent_candidates(s, ord, radius)[m].0 as int) < s.len(),
        (adjacent_candidates(s, ord, radius)[m].1 as int) < s.len(),
        adjacent_candidates(s, ord, radius)[m].0 != adjacent_candidates(s, ord, radius)[m].1,
        close_pair(
            s,
            adjacent_candidates(s, ord, radius)[m].0,
            adjacent_candidates(s, ord, radius)[m].1,
            radius,
        ),
    decreases ord.len(),
{
    let prev = adjacent_candidates(s, ord.drop_last(), radius);
    assert(valid_indices(ord.drop_last(), s.len()));
    if m < prev.len() {
        lemma_adjacent_candidates_sound(s, ord.drop_last(), radius, m);
    }
}

/// No false negatives among adjacent particles: every adjacent pair of the
/// order that lies within collision range is reported.
pub proof fn lemma_adjacent_candidates_complete(
    s: Seq<Particle>,
    ord: Seq<usize>,
    radius: int,
    n: int,
)
    requires
        0 <= n < ord.len() - 1,
        close_pair(s, ord[n], ord[n + 1], radius),
    ensures
        adjacent_candidates(s, ord, radius).contains((ord[n], ord[n + 1])),
    decreases ord.len(),
{
    let cands = adjacent_candidates(s, ord, radius);
    let prev = adjacent_candidates(s, ord.drop_last(), radius);
    if n == ord.len() - 2 {
        assert(cands.last() == (ord[n], ord[n + 1]));
        assert(cands.contains((ord[n], ord[n + 1])));
    } else {
        lemma_adjacent_candidates_complete(s, ord.drop_last(), radius, n);
        let k = choose|k: int|
            0 <= k < prev.len() && prev[k] == (ord.drop_last()[n], ord.drop_last()[n + 1]);
        assert(cands[k] == (ord[n], ord[n + 1]));
    }
}

/// The candidate pairs of a sorted index order.  The x overlap test prunes
/// first, exactly as the sweep does; a pair rejected there is provably out
/// of range, so the result is precisely the in-range adjacent pairs.
pub fn candidate_pairs(ps: &Vec<Particle>, ord: &Vec<usize>, radius: i64) -> (pairs: Vec<
    (usize, usize),
>)
    requires
        is_index_perm(ord@, ps@.len()),
        sorted_by_x(ps@, ord@),
        1 <= radius <= COORD_LIMIT,
        forall|i: int| 0 <= i < ps@.len() ==> ps@[i].position.within(COORD_LIMIT as int),
    ensures
        pairs@ == adjacent_candidates(ps@, ord@, radius as int),
{
    let mut pairs: Vec<(usize, usize)> = Vec::new();
    if ord.len() <= 1 {
        proof {
            assert(adjacent_candidates(ps@, ord@, radius as int) =~= pairs@);
        }
        return pairs;
    }
    let mut k: usize = 1;
    while k < ord.len()
        invariant
            is_index_perm(ord@, ps@.len()),
            sorted_by_x(ps@, ord@),
            1 <= radius <= COORD_LIMIT,
            forall|i: int| 0 <= i < ps@.len() ==> ps@[i].position.within(COORD_LIMIT as int),
            1 <= k <= ord@.len(),
            pairs@ == adjacent_candidates(ps@, ord@.take(k as int), radius as int),
        decreases ord@.len() - k,
    {
        let a: usize = ord[k - 1];
        let b: usize = ord[k];
        let xa: i64 = ps[a].position.x;
        let xb: i64 = ps[b].position.x;
        let dxr: i128 = xb as i128 - xa as i128;
        proof {
            assert(ps@[a as int].position.x <= ps@[b as int].position.x);
            assert(dxr > 2 * radius ==> dxr * dxr > 4 * radius * radius) by (nonlinear_arith)
                requires
                    dxr >= 0,
                    radius >= 1,
            ;
        }
        if dxr <= 2 * (radius as i128) {
            let dx: i128 = ps[b].position.x as i128 - ps[a].position.x as i128;
            let dy: i128 = ps[b].position.y as i128 - ps[a].position.y as i128;
            proof {
                assert(0 <= dx * dx <= 16_000_000_000_000 && 0 <= dy * dy
                    <= 16_000_000_000_000) by (nonlinear_arith)
                    requires
                        -4_000_000 <= dx <= 4_000_000,
                        -4_000_000 <= dy <= 4_000_000,
                ;
                assert(0 <= (4 * (radius as i128)) * (radius as i128) <= 4_000_000_000_000)
                    by (nonlinear_arith)
                    requires
                        0 <= radius as i128 <= 1_000_000,
                ;
            }
            let d2: i128 = dx * dx + dy * dy;
            if d2 <= 4 * (radius as i128) * (radius as i128) {
                pairs.push((a, b));
            }
        } else {
            proof {
                let pa = ps@[a as int];
                let pb = ps@[b as int];
                assert(dist_sq(pa, pb) >= dxr * dxr) by (nonlinear_arith)
                    requires
                        dist_sq(pa, pb) == (pb.position.x - pa.position.x) * (pb.position.x
                            - pa.position.x) + (pb.position.y - pa.position.y) * (pb.position.y
                            - pa.position.y),
                        dxr == pb.position.x - pa.position.x,
                ;
            }
        }
        proof {
            assert(ord@.take(k + 1).drop_last() =~= ord@.take(k as int));
            assert(ord@.take(k + 1)[k as int] == ord@[k as int]);
            assert(ord@.take(k + 1)[k - 1] == ord@[k - 1]);
        }
        k = k + 1;
    }
    proof {
        assert(ord@.take(ord@.len() as int) =~= ord@);
    }
    pairs
}

/// The broad phase: sort by x, then propose every adjacent pair within
/// collision range.  No collision response happens here; the pairs feed the
/// narrow phase.
pub fn broad_phase_collision(ps: &Vec<Particle>, radius: i64) -> (pairs: Vec<(usize, usize)>)
    requires
        1 <= radius <= COORD_LIMIT,
        forall|i: int| 0 <= i < ps@.len() ==> ps@[i].position.within(COORD_LIMIT as int),
    ensures
        exists|ord: Seq<usize>|
            is_index_perm(ord, ps@.len()) && sorted_by_x(ps@, ord) && pairs@
                == adjacent_candidates(ps@, ord, radius as int),
        forall|m: int|
            0 <= m < pairs@.len() ==> (pairs@[m].0 as int) < ps@.len() && (pairs@[m].1 as int)
                < ps@.len() && pairs@[m].0 != pairs@[m].1 && close_pair(
                ps@,
                pairs@[m].0,
                pairs@[m].1,
                radius as int,
            ),
{
    let ord: Vec<usize> = sort_indices_by_x(ps);
    let pairs: Vec<(usize, usize)> = candidate_pairs(ps, &ord, radius);
    proof {
        assert(is_index_perm(ord@, ps@.len()) && sorted_by_x(ps@, ord@) && pairs@
            == adjacent_candidates(ps@, ord@, radius as int));
        assert forall|m: int| 0 <= m < pairs@.len() implies (pairs@[m].0 as int) < ps@.len() && (
        pairs@[m].1 as int) < ps@.len() && pairs@[m].0 != pairs@[m].1 && close_pair(
            ps@,
            pairs@[m].0,
            pairs@[m].1,
            radius as int,
        ) by {
            lemma_adjacent_candidates_sound(ps@, ord@, radius as int, m);
        }
    }
    pairs
}

} // verus!
