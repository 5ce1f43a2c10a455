//! The speed histogram: unscaled speed magnitudes of the particle set,
//! binned into a configurable number of equal-width buckets spanning the
//! observed minimum and maximum.

use vstd::prelude::*;
use vstd::arithmetic::div_mod::lemma_div_nonincreasing;
use vstd::arithmetic::div_mod::lemma_div_pos_is_pos;
use vstd::arithmetic::div_mod::lemma_multiply_divide_lt;
use crate::geom::Vec2;
use crate::math::sqrt_floor;
use crate::math::isqrt_u64;
use crate::math::lemma_sqrt_floor_bounds;
use crate::params::COORD_LIMIT;
use crate::params::MILLI;
use crate::params::REDUCER_MAX;
use crate::params::REDUCER_MIN;
use crate::particle::Particle;

verus! {

/// The unscaled speed a particle reports to the histogram: the floor square
/// root of its squared speed, divided by the reducer.
pub open spec fn speed_value_spec(v: Vec2, reducer: int) -> int
    recommends
        reducer >= 1,
{
    sqrt_floor(v.norm_sq() as nat) * MILLI / reducer
}

/// The speed magnitude of every particle, for the distribution plot.
pub fn speed_values(ps: &Vec<Particle>, reducer: i64) -> (vals: Vec<i64>)
    requires
        REDUCER_MIN <= reducer <= REDUCER_MAX,
        forall|i: int| 0 <= i < ps@.len() ==> ps@[i].velocity.within(16 * COORD_LIMIT as int),
    ensures
        vals@.len() == ps@.len(),
        forall|i: int|
            0 <= i < ps@.len() ==> vals@[i] == speed_value_spec(ps@[i].velocity, reducer as int),
        forall|i: int| 0 <= i < ps@.len() ==> 0 <= #[trigger] vals@[i] <= 100_000_000_000,
{
    let mut vals: Vec<i64> = Vec::new();
    let mut i: usize = 0;
    while i < ps.len()
        invariant
            REDUCER_MIN <= reducer <= REDUCER_MAX,
            i <= ps@.len(),
            vals@.len() == i,
            forall|k: int| 0 <= k < ps@.len() ==> ps@[k].velocity.within(16 * COORD_LIMIT as int),
            forall|k: int|
                0 <= k < i ==> vals@[k] == speed_value_spec(ps@[k].velocity, reducer as int),
            forall|k: int| 0 <= k < i ==> 0 <= #[trigger] vals@[k] <= 100_000_000_000,
        decreases ps@.len() - i,
    {
        let vx: i128 = ps[i].velocity.x as i128;
        let vy: i128 = ps[i].velocity.y as i128;
        proof {
            assert(0 <= vx * vx <= 256_000_000_000_000 && 0 <= vy * vy <= 256_000_000_000_000)
                by (nonlinear_arith)
                requires
                    -16_000_000 <= vx <= 16_000_000,
                    -16_000_000 <= vy <= 16_000_000,
            ;
        }
        let q: i128 = vx * vx + vy * vy;
        let len: u64 = isqrt_u64(q as u64);
        proof {
            lemma_sqrt_floor_bounds(q as nat);
            assert(len <= 100_000_000) by (nonlinear_arith)
                requires
                    (len as int) * (len as int) <= q as int,
                    q as int <= 512_000_000_000_000,
                    len as int >= 0,
            ;
            lemma_div_pos_is_pos((len as int) * 1000, reducer as int);
            lemma_div_nonincreasing((len as int) * 1000, reducer as int);
        }
        let val: i64 = (len as i64) * 1000 / reducer;
        vals.push(val);
        i = i + 1;
    }
    vals
}

/// Smallest entry of a nonempty sequence.
pub open spec fn seq_min(vs: Seq<i64>) -> int
    recommends
        vs.len() > 0,
    decreases vs.len(),
{
    if vs.len() <= 1 {
        vs[0] as int
    } else {
        let m = seq_min(vs.drop_last());
        if (vs.last() as int) < m {
            vs.last() as int
        } else {
            m
        }
    }
}

/// Largest entry of a nonempty sequence.
pub open spec fn seq_max(vs: Seq<i64>) -> int
    recommends
        vs.len() > 0,
    decreases vs.len(),
{
    if vs.len() <= 1 {
        vs[0] as int
    } else {
        let m = seq_max(vs.drop_last());
        if (vs.last() as int) > m {
            vs.last() as int
        } else {
            m
        }
    }
}

/// Every entry lies between the minimum and the maximum.
pub proof fn lemma_min_max_bound(vs: Seq<i64>, i: int)
    requires
        0 <= i < vs.len(),
    ensures
        seq_min(vs) <= vs[i] <= seq_max(vs),
    decreases vs.len(),
{
    if vs.len() > 1 && i < vs.len() - 1 {
        lemma_min_max_bound(vs.drop_last(), i);
    }
}

/// The bucket a value falls into: `bins` equal-width buckets spanning the
/// closed range from `lo` to `lo + span - 1`.
pub open spec fn bin_index(v: int, lo: int, span: int, bins: int) -> int
    recommends
        span >= 1,
        bins >= 1,
{
    (v - lo) * bins / span
}

/// How many entries fall into bucket `b`.
pub open spec fn count_in_bin(vs: Seq<i64>, lo: int, span: int, bins: int, b: int) -> nat
    decreases vs.len(),
{
    if vs.len() == 0 {
        0
    } else {
        count_in_bin(vs.drop_last(), lo, span, bins, b) + (if bin_index(
            vs.last() as int,
            lo,
            span,
            bins,
        ) == b {
            1nat
        } else {
            0nat
        })
    }
}

/// No bucket holds more entries than the sequence has.
pub proof fn lemma_count_le_len(vs: Seq<i64>, lo: int, span: int, bins: int, b: int)
    ensures
        count_in_bin(vs, lo, span, bins, b) <= vs.len(),
    decreases vs.len(),
{
    if vs.len() > 0 {
        lemma_count_le_len(vs.drop_last(), lo, span, bins, b);
    }
}

/// The histogram of the given values: `bins` equal-width buckets spanning
/// the observed minimum and maximum, and the number of values in each.
pub fn update_graph_data(values: &Vec<i64>, bins: usize) -> (counts: Vec<usize>)
    requires
        values@.len() >= 1,
        1 <= bins <= 1000,
        forall|i: int| 0 <= i < values@.len() ==> -1_000_000_000_000 <= #[trigger] values@[i]
            <= 1_000_000_000_000,
    ensures
        counts@.len() == bins,
        forall|b: int|
            0 <= b < bins ==> counts@[b] == count_in_bin(
                values@,
                seq_min(values@),
                seq_max(values@) - seq_min(values@) + 1,
                bins as int,
                b,
            ),
{
    let mut lo: i64 = values[0];
    let mut hi: i64 = values[0];
    let mut i: usize = 1;
    while i < values.len()
        invariant
            1 <= i <= values@.len(),
            lo == seq_min(values@.take(i as int)),
            hi == seq_max(values@.take(i as int)),
            forall|k: int| 0 <= k < values@.len() ==> -1_000_000_000_000 <= #[trigger] values@[k]
                <= 1_000_000_000_000,
            -1_000_000_000_000 <= lo <= 1_000_000_000_000,
            -1_000_000_000_000 <= hi <= 1_000_000_000_000,
        decreases values@.len() - i,
    {
        let v: i64 = values[i];
        if v < lo {
            lo = v;
        }
        if v > hi {
            hi = v;
        }
        proof {
            assert(values@.take(i + 1).drop_last() =~= values@.take(i as int));
            assert(values@.take(i + 1).last() == values@[i as int]);
        }
        i = i + 1;
    }
    proof {
        assert(values@.take(values@.len() as int) =~= values@);
    }
    let span: i64 = hi - lo + 1;
    proof {
        lemma_min_max_bound(values@, 0);
    }
    let mut counts: Vec<usize> = Vec::new();
    let mut b: usize = 0;
    while b < bins
        invariant
            b <= bins,
            counts@.len() == b,
            forall|k: int| 0 <= k < b ==> counts@[k] == 0,
        decreases bins - b,
    {
        counts.push(0);
        b = b + 1;
    }
    let ghost glo = lo as int;
    let ghost gspan = span as int;
    let mut j: usize = 0;
    while j < values.len()
        invariant
            j <= values@.len(),
            counts@.len() == bins,
            1 <= bins <= 1000,
            1 <= span <= 2_000_000_000_001,
            glo == seq_min(values@),
            gspan == seq_max(values@) - glo + 1,
            gspan == span as int,
            lo as int == glo,
            forall|k: int| 0 <= k < bins ==> counts@[k] == count_in_bin(
                values@.take(j as int),
                glo,
                gspan,
                bins as int,
                k,
            ),
        decreases values@.len() - j,
    {
        let v: i64 = values[j];
        proof {
            lemma_min_max_bound(values@, j as int);
        }
        proof {
            assert(0 <= ((v as int) - glo) * (bins as int) <= (gspan - 1) * (bins as int))
                by (nonlinear_arith)
                requires
                    0 <= (v as int) - glo <= gspan - 1,
                    1 <= bins as int <= 1000,
            ;
            assert((gspan - 1) * (bins as int) <= 2_000_000_000_000_000) by (nonlinear_arith)
                requires
                    0 <= gspan - 1 <= 2_000_000_000_000,
                    1 <= bins as int <= 1000,
            ;
        }
        let scaled: i128 = (v as i128 - lo as i128) * (bins as i128);
        proof {
            assert((gspan - 1) * (bins as int) < gspan * (bins as int)) by (nonlinear_arith)
                requires
                    gspan >= 1,
                    bins as int >= 1,
            ;
            lemma_multiply_divide_lt(((v as int) - glo) * (bins as int), gspan, bins as int);
            lemma_div_pos_is_pos(((v as int) - glo) * (bins as int), gspan);
        }
        let idx: usize = (scaled / (span as i128)) as usize;
        let c: usize = counts[idx];
        proof {
            lemma_count_le_len(values@.take(j as int), glo, gspan, bins as int, idx as int);
        }
        counts.set(idx, c + 1);
        proof {
            assert(values@.take(j + 1).drop_last() =~= values@.take(j as int));
            assert(values@.take(j + 1).last() == values@[j as int]);
        }
        j = j + 1;
    }
    proof {
        assert(values@.take(values@.len() as int) =~= values@);
    }
    counts
}

} // verus!
