//! Narrow phase: exact elastic collision response for a confirmed pair.
//!
//! The textbook resolution decomposes each velocity along the unit normal
//! `n = (p2 - p1) / |p2 - p1|`, applies the 1-D elastic collision formulas to
//! the normal components and keeps the tangential components.  Written over
//! the unnormalized gap vector `g = p2 - p1` the same response is
//!
//! ```text
//! v1' = v1 - m2 * (2 * (v1 - v2) . g / ((m1 + m2) * |g|^2)) * g
//! v2' = v2 + m1 * (2 * (v1 - v2) . g / ((m1 + m2) * |g|^2)) * g
//! ```
//!
//! so every component is a rational number with the common denominator
//! `(m1 + m2) * |g|^2`.  The spec functions below give those numerators and
//! that denominator exactly; the executable resolver returns each component
//! rounded to the nearest integer, and the conservation laws are stated of
//! the exact rationals.

use vstd::prelude::*;
use crate::geom::Vec2;
use crate::math::round_div;
use crate::math::round_div_i128;
use crate::math::lemma_round_div_bound;
use crate::particle::Particle;
use crate::params::COORD_LIMIT;
use crate::params::REDUCER_MAX;
use crate::params::REDUCER_MIN;
use crate::thermal::temp_from_speed_sq_spec;
use crate::thermal::temperature_from_velocity;
use crate::thermal::unscaled_speed_sq_spec;

verus! {

/// Gap vector from the first centre to the second, x component.
pub open spec fn gap_x(p1: Particle, p2: Particle) -> int {
    p2.position.x - p1.position.x
}

/// Gap vector from the first centre to the second, y component.
pub open spec fn gap_y(p1: Particle, p2: Particle) -> int {
    p2.position.y - p1.position.y
}

/// Squared distance between the two centres.
pub open spec fn dist_sq(p1: Particle, p2: Particle) -> int {
    gap_x(p1, p2) * gap_x(p1, p2) + gap_y(p1, p2) * gap_y(p1, p2)
}

/// Twice the dot product of the relative velocity with the gap vector; the
/// shared factor of both velocity corrections.
pub open spec fn impulse(p1: Particle, p2: Particle) -> int {
    2 * ((p1.velocity.x - p2.velocity.x) * gap_x(p1, p2) + (p1.velocity.y - p2.velocity.y)
        * gap_y(p1, p2))
}

/// Common denominator of the exact post-collision velocity components.
pub open spec fn collision_den(p1: Particle, p2: Particle) -> int {
    (p1.mass + p2.mass) * dist_sq(p1, p2)
}

/// Numerator of the first particle's post-collision x velocity.
pub open spec fn v1_after_x_num(p1: Particle, p2: Particle) -> int {
    p1.velocity.x * collision_den(p1, p2) - p2.mass * impulse(p1, p2) * gap_x(p1, p2)
}

/// Numerator of the first particle's post-collision y velocity.
pub open spec fn v1_after_y_num(p1: Particle, p2: Particle) -> int {
    p1.velocity.y * collision_den(p1, p2) - p2.mass * impulse(p1, p2) * gap_y(p1, p2)
}

/// Numerator of the second particle's post-collision x velocity.
pub open spec fn v2_after_x_num(p1: Particle, p2: Particle) -> int {
    p2.velocity.x * collision_den(p1, p2) + p1.mass * impulse(p1, p2) * gap_x(p1, p2)
}

/// Numerator of the second particle's post-collision y velocity.
pub open spec fn v2_after_y_num(p1: Particle, p2: Particle) -> int {
    p2.velocity.y * collision_den(p1, p2) + p1.mass * impulse(p1, p2) * gap_y(p1, p2)
}

/// A pair the resolver accepts: distinct centres (otherwise the collision
/// normal is undefined) and a state within the machine bounds of the
/// fixed-width arithmetic.
pub open spec fn collidable(p1: Particle, p2: Particle) -> bool {
    &&& dist_sq(p1, p2) != 0
    &&& p1.position.within(COORD_LIMIT as int)
    &&& p2.position.within(COORD_LIMIT as int)
    &&& p1.velocity.within(COORD_LIMIT as int)
    &&& p2.velocity.within(COORD_LIMIT as int)
}

/// The cross term `mo * impulse * g` of a numerator is at most `6 * lim`
/// times the denominator `msum * (gx * gx + gy * gy)`.
proof fn lemma_cross_term_bound(mo: int, relx: int, rely: int, gx: int, gy: int, msum: int, lim: int)
    requires
        lim > 0,
        -2 * lim <= relx <= 2 * lim,
        -2 * lim <= rely <= 2 * lim,
        0 <= mo <= msum,
    ensures
        -(6 * lim) * (msum * (gx * gx + gy * gy)) <= mo * (2 * ((relx * gx + rely * gy))) * gx,
        mo * (2 * ((relx * gx + rely * gy))) * gx <= (6 * lim) * (msum * (gx * gx + gy * gy)),
{
    let ax = if gx >= 0 { gx } else { -gx };
    let ay = if gy >= 0 { gy } else { -gy };
    let s = relx * gx + rely * gy;
    let q = gx * gx + gy * gy;
    assert(-(2 * lim) * (ax + ay) <= s <= (2 * lim) * (ax + ay)) by (nonlinear_arith)
        requires
            s == relx * gx + rely * gy,
            -2 * lim <= relx <= 2 * lim,
            -2 * lim <= rely <= 2 * lim,
            ax >= 0 && (ax == gx || ax == -gx),
            ay >= 0 && (ay == gy || ay == -gy),
    ;
    assert(-(6 * lim) * q <= 2 * s * gx <= (6 * lim) * q) by (nonlinear_arith)
        requires
            lim > 0,
            q == gx * gx + gy * gy,
            -(2 * lim) * (ax + ay) <= s <= (2 * lim) * (ax + ay),
            ax >= 0 && (ax == gx || ax == -gx),
            ay >= 0 && (ay == gy || ay == -gy),
    ;
    assert(q >= 0) by (nonlinear_arith)
        requires
            q == gx * gx + gy * gy,
    ;
    assert(-(6 * lim) * (msum * q) <= mo * (2 * s) * gx <= (6 * lim) * (msum * q))
        by (nonlinear_arith)
        requires
            lim > 0,
            q >= 0,
            -(6 * lim) * q <= 2 * s * gx <= (6 * lim) * q,
            0 <= mo <= msum,
    ;
    assert(mo * (2 * s) * gx == mo * (2 * ((relx * gx + rely * gy))) * gx);
}

/// Post-collision velocities for a confirmed pair, each component the exact
/// rational outcome rounded to the nearest integer.  A degenerate pair (the
/// two centres numerically identical) or a state outside the machine bounds
/// is refused rather than resolved.
#[verifier::rlimit(60)]
pub fn after_collision_velocities(p1: &Particle, p2: &Particle) -> (r: Option<(Vec2, Vec2)>)
    requires
        p1.wf(),
        p2.wf(),
    ensures
        r.is_some() <==> collidable(*p1, *p2),
        match r {
            Some((w1, w2)) => {
                &&& w1.x == round_div(v1_after_x_num(*p1, *p2), collision_den(*p1, *p2))
                &&& w1.y == round_div(v1_after_y_num(*p1, *p2), collision_den(*p1, *p2))
                &&& w2.x == round_div(v2_after_x_num(*p1, *p2), collision_den(*p1, *p2))
                &&& w2.y == round_div(v2_after_y_num(*p1, *p2), collision_den(*p1, *p2))
                &&& w1.within(7 * COORD_LIMIT as int)
                &&& w2.within(7 * COORD_LIMIT as int)
            },
            None => true,
        },
{
    if !(p1.position.check_within(COORD_LIMIT) && p2.position.check_within(COORD_LIMIT)
        && p1.velocity.check_within(COORD_LIMIT) && p2.velocity.check_within(COORD_LIMIT)) {
        return None;
    }
    let dx: i128 = p2.position.x as i128 - p1.position.x as i128;
    let dy: i128 = p2.position.y as i128 - p1.position.y as i128;
    proof {
        assert(dx * dx <= 4_000_000_000_000 && dy * dy <= 4_000_000_000_000) by (nonlinear_arith)
            requires
                -2_000_000 <= dx <= 2_000_000,
                -2_000_000 <= dy <= 2_000_000,
        ;
        assert(dx * dx >= 0 && dy * dy >= 0) by (nonlinear_arith);
    }
    let q: i128 = dx * dx + dy * dy;
    if q == 0 {
        assert(!collidable(*p1, *p2));
        return None;
    }
    let m1: i128 = p1.mass as i128;
    let m2: i128 = p2.mass as i128;
    proof {
        assert((m1 + m2) * q > 0 && (m1 + m2) * q <= 2_000_000 * 8_000_000_000_000)
            by (nonlinear_arith)
            requires
                1 <= m1 <= 1_000_000,
                1 <= m2 <= 1_000_000,
                0 < q <= 8_000_000_000_000,
        ;
    }
    let den: i128 = (m1 + m2) * q;
    let rx: i128 = p1.velocity.x as i128 - p2.velocity.x as i128;
    let ry: i128 = p1.velocity.y as i128 - p2.velocity.y as i128;
    proof {
        assert(rx * dx <= 4_000_000_000_000 && rx * dx >= -4_000_000_000_000 && ry * dy
            <= 4_000_000_000_000 && ry * dy >= -4_000_000_000_000) by (nonlinear_arith)
            requires
                -2_000_000 <= rx <= 2_000_000,
                -2_000_000 <= ry <= 2_000_000,
                -2_000_000 <= dx <= 2_000_000,
                -2_000_000 <= dy <= 2_000_000,
        ;
    }
    let imp: i128 = 2 * (rx * dx + ry * dy);
    let n1x: i128 = compute_numerator(p1.velocity.x, den, m2, imp, dx, false);
    let n1y: i128 = compute_numerator(p1.velocity.y, den, m2, imp, dy, false);
    let n2x: i128 = compute_numerator(p2.velocity.x, den, m1, imp, dx, true);
    let n2y: i128 = compute_numerator(p2.velocity.y, den, m1, imp, dy, true);
    proof {
        lemma_cross_term_bound(m2 as int, rx as int, ry as int, dx as int, dy as int,
            (m1 + m2) as int, COORD_LIMIT as int);
        lemma_cross_term_bound(m2 as int, ry as int, rx as int, dy as int, dx as int,
            (m1 + m2) as int, COORD_LIMIT as int);
        lemma_cross_term_bound(m1 as int, rx as int, ry as int, dx as int, dy as int,
            (m1 + m2) as int, COORD_LIMIT as int);
        lemma_cross_term_bound(m1 as int, ry as int, rx as int, dy as int, dx as int,
            (m1 + m2) as int, COORD_LIMIT as int);
        assert(dy * dy + dx * dx == dx * dx + dy * dy);
        assert(den as int == ((m1 + m2) as int) * ((dx as int) * (dx as int) + (dy as int) * (dy
            as int)));
        assert(imp as int == 2 * (((rx as int) * (dx as int) + (ry as int) * (dy as int))));
        lemma_sum_bound(p1.velocity.x as int, (m2 as int) * (imp as int) * (dx as int),
            den as int, COORD_LIMIT as int);
        lemma_sum_bound(p1.velocity.y as int, (m2 as int) * (imp as int) * (dy as int),
            den as int, COORD_LIMIT as int);
        lemma_sum_bound(p2.velocity.x as int, (m1 as int) * (imp as int) * (dx as int),
            den as int, COORD_LIMIT as int);
        lemma_sum_bound(p2.velocity.y as int, (m1 as int) * (imp as int) * (dy as int),
            den as int, COORD_LIMIT as int);
        lemma_round_div_bound(n1x as int, den as int, 7 * COORD_LIMIT as int);
        lemma_round_div_bound(n1y as int, den as int, 7 * COORD_LIMIT as int);
        lemma_round_div_bound(n2x as int, den as int, 7 * COORD_LIMIT as int);
        lemma_round_div_bound(n2y as int, den as int, 7 * COORD_LIMIT as int);
        assert((7 * COORD_LIMIT as int) * (den as int) < 0x1000_0000_0000_0000_0000_0000_0000_0000)
            by (nonlinear_arith)
            requires
                COORD_LIMIT == 1_000_000i64,
                0 < den as int <= 16_000_000_000_000_000_000,
        ;
    }
    let w1x: i128 = round_div_i128(n1x, den);
    let w1y: i128 = round_div_i128(n1y, den);
    let w2x: i128 = round_div_i128(n2x, den);
    let w2y: i128 = round_div_i128(n2y, den);
    Some((Vec2 { x: w1x as i64, y: w1y as i64 }, Vec2 { x: w2x as i64, y: w2y as i64 }))
}

/// Adding a cross term of magnitude at most `6 * lim * den` to `v * den`
/// stays within `7 * lim * den`.
proof fn lemma_sum_bound(v: int, cross: int, den: int, lim: int)
    requires
        lim > 0,
        den > 0,
        -lim <= v <= lim,
        -(6 * lim) * den <= cross <= (6 * lim) * den,
    ensures
        -((7 * lim) * den) <= v * den + cross <= (7 * lim) * den,
        -((7 * lim) * den) <= v * den - cross <= (7 * lim) * den,
{
    assert(-(lim * den) <= v * den <= lim * den) by (nonlinear_arith)
        requires
            -lim <= v <= lim,
            den > 0,
    ;
    assert(-((6 * lim) * den) <= cross <= (6 * lim) * den) by (nonlinear_arith)
        requires
            -(6 * lim) * den <= cross <= (6 * lim) * den,
    ;
    assert(-((7 * lim) * den) == -(lim * den) + -((6 * lim) * den)) by (nonlinear_arith);
    assert((7 * lim) * den == lim * den + (6 * lim) * den) by (nonlinear_arith);
}

/// One numerator `v * den -/+ mo * imp * g` of the exact outcome, computed
/// in 128-bit arithmetic that provably cannot overflow.
fn compute_numerator(v: i64, den: i128, mo: i128, imp: i128, g: i128, plus: bool) -> (n: i128)
    requires
        -1_000_000 <= v <= 1_000_000,
        0 < den <= 16_000_000_000_000_000_000,
        1 <= mo <= 1_000_000,
        -16_000_000_000_000 <= imp <= 16_000_000_000_000,
        -2_000_000 <= g <= 2_000_000,
    ensures
        !plus ==> n == v * den - mo * imp * g,
        plus ==> n == v * den + mo * imp * g,
{
    proof {
        assert(-16_000_000_000_000_000_000_000_000_000_000 <= (v as int) * (den as int)
            <= 16_000_000_000_000_000_000_000_000_000_000) by (nonlinear_arith)
            requires
                -1_000_000 <= v as int <= 1_000_000,
                0 < den as int <= 16_000_000_000_000_000_000,
        ;
        assert(-16_000_000_000_000_000_000 <= (mo as int) * (imp as int)
            <= 16_000_000_000_000_000_000) by (nonlinear_arith)
            requires
                1 <= mo as int <= 1_000_000,
                -16_000_000_000_000 <= imp as int <= 16_000_000_000_000,
        ;
        assert(-32_000_000_000_000_000_000_000_000 <= ((mo as int) * (imp as int)) * (g as int)
            <= 32_000_000_000_000_000_000_000_000) by (nonlinear_arith)
            requires
                -16_000_000_000_000_000_000 <= (mo as int) * (imp as int)
                    <= 16_000_000_000_000_000_000,
                -2_000_000 <= g as int <= 2_000_000,
        ;
    }
    if plus {
        v as i128 * den + mo * imp * g
    } else {
        v as i128 * den - mo * imp * g
    }
}


/// A pair after full narrow-phase resolution: the rounded exact velocities,
/// and each particle's temperature recomputed from its own new speed,
/// unscaled by the reducer.  A degenerate or out-of-bounds pair resolves to
/// nothing.
pub open spec fn collide_pair_spec(p1: Particle, p2: Particle, reducer: int) -> Option<
    (Particle, Particle),
> {
    if !collidable(p1, p2) {
        None
    } else {
        let w1 = Vec2 {
            x: round_div(v1_after_x_num(p1, p2), collision_den(p1, p2)) as i64,
            y: round_div(v1_after_y_num(p1, p2), collision_den(p1, p2)) as i64,
        };
        let w2 = Vec2 {
            x: round_div(v2_after_x_num(p1, p2), collision_den(p1, p2)) as i64,
            y: round_div(v2_after_y_num(p1, p2), collision_den(p1, p2)) as i64,
        };
        Some(
            (
                Particle {
                    velocity: w1,
                    temperature: temp_from_speed_sq_spec(
                        p1.mass as int,
                        unscaled_speed_sq_spec(w1.norm_sq(), reducer),
                    ) as i64,
                    ..p1
                },
                Particle {
                    velocity: w2,
                    temperature: temp_from_speed_sq_spec(
                        p2.mass as int,
                        unscaled_speed_sq_spec(w2.norm_sq(), reducer),
                    ) as i64,
                    ..p2
                },
            ),
        )
    }
}

pub fn collide_pair(p1: &Particle, p2: &Particle, reducer: i64) -> (r: Option<
    (Particle, Particle),
>)
    requires
        p1.wf(),
        p2.wf(),
        REDUCER_MIN <= reducer <= REDUCER_MAX,
    ensures
        r == collide_pair_spec(*p1, *p2, reducer as int),
        match r {
            Some((q1, q2)) => q1.wf() && q2.wf(),
            None => true,
        },
{
    match after_collision_velocities(p1, p2) {
        None => None,
        Some((w1, w2)) => {
            let t1: i64 = temperature_from_velocity(p1.mass, w1, reducer);
            let t2: i64 = temperature_from_velocity(p2.mass, w2, reducer);
            Some(
                (
                    Particle { velocity: w1, temperature: t1, ..*p1 },
                    Particle { velocity: w2, temperature: t2, ..*p2 },
                ),
            )
        },
    }
}

/// One candidate pair applied to the arena: both records replaced when the
/// pair resolves, nothing touched when it does not or when an index is
/// stale.
pub open spec fn apply_pair_spec(s: Seq<Particle>, a: int, b: int, reducer: int) -> Seq<
    Particle,
> {
    if 0 <= a < s.len() && 0 <= b < s.len() && a != b {
        match collide_pair_spec(s[a], s[b], reducer) {
            Some((q1, q2)) => s.update(a, q1).update(b, q2),
            None => s,
        }
    } else {
        s
    }
}

/// The candidate pairs applied in order, each one a sequential transaction
/// over the arena.
pub open spec fn apply_pairs_spec(
    s: Seq<Particle>,
    pairs: Seq<(usize, usize)>,
    reducer: int,
) -> Seq<Particle>
    decreases pairs.len(),
{
    if pairs.len() == 0 {
        s
    } else {
        let prev = apply_pairs_spec(s, pairs.drop_last(), reducer);
        apply_pair_spec(prev, pairs.last().0 as int, pairs.last().1 as int, reducer)
    }
}

/// Narrow-phase resolution of every candidate pair, in order.  Pairs that
/// share a particle see the earlier pair's outcome: the updates are
/// serialized, never applied to stale state.
pub fn check_between_ball_collisions(
    ps: &mut Vec<Particle>,
    pairs: &Vec<(usize, usize)>,
    reducer: i64,
)
    requires
        forall|j: int| 0 <= j < old(ps)@.len() ==> old(ps)@[j].wf(),
        REDUCER_MIN <= reducer <= REDUCER_MAX,
    ensures
        final(ps)@ == apply_pairs_spec(old(ps)@, pairs@, reducer as int),
        final(ps)@.len() == old(ps)@.len(),
        forall|j: int| 0 <= j < final(ps)@.len() ==> final(ps)@[j].wf(),
{
    let ghost orig = ps@;
    let mut i: usize = 0;
    while i < pairs.len()
        invariant
            i <= pairs@.len(),
            ps@ == apply_pairs_spec(orig, pairs@.take(i as int), reducer as int),
            ps@.len() == orig.len(),
            forall|j: int| 0 <= j < ps@.len() ==> ps@[j].wf(),
            forall|j: int| 0 <= j < orig.len() ==> orig[j].wf(),
            REDUCER_MIN <= reducer <= REDUCER_MAX,
        decreases pairs@.len() - i,
    {
        let (a, b) = pairs[i];
        let ghost before = ps@;
        if a < ps.len() && b < ps.len() && a != b {
            let pa: Particle = ps[a];
            let pb: Particle = ps[b];
            match collide_pair(&pa, &pb, reducer) {
                Some((q1, q2)) => {
                    ps.set(a, q1);
                    ps.set(b, q2);
                },
                None => {},
            }
        }
        proof {
            assert(ps@ == apply_pair_spec(before, a as int, b as int, reducer as int));
            assert(pairs@.take(i + 1).drop_last() =~= pairs@.take(i as int));
            assert(pairs@.take(i + 1).last() == pairs@[i as int]);
        }
        i = i + 1;
    }
    proof {
        assert(pairs@.take(pairs@.len() as int) =~= pairs@);
    }
}

} // verus!
