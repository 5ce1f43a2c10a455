//! Conservation laws of the narrow-phase resolution, proved of the exact
//! rational outcome.  Every post-collision component is the rational
//! `num / den` with `den = collision_den`; the laws are equalities of such
//! rationals, stated by cross multiplication through `rat_eq`.

use vstd::prelude::*;
use crate::math::rat_eq;
use crate::narrow_phase::collision_den;
use crate::narrow_phase::dist_sq;
use crate::narrow_phase::gap_x;
use crate::narrow_phase::gap_y;
use crate::narrow_phase::impulse;
use crate::narrow_phase::v1_after_x_num;
use crate::narrow_phase::v1_after_y_num;
use crate::narrow_phase::v2_after_x_num;
use crate::narrow_phase::v2_after_y_num;
use crate::particle::Particle;

verus! {

/// The denominator of the exact outcome is nonzero whenever the pair is
/// nondegenerate and both masses are positive.
pub proof fn lemma_collision_den_positive(p1: Particle, p2: Particle)
    requires
        p1.wf(),
        p2.wf(),
        dist_sq(p1, p2) != 0,
    ensures
        collision_den(p1, p2) > 0,
{
    let gx = gap_x(p1, p2);
    let gy = gap_y(p1, p2);
    assert((p1.mass + p2.mass) * (gx * gx + gy * gy) > 0) by (nonlinear_arith)
        requires
            p1.mass >= 1,
            p2.mass >= 1,
            gx * gx + gy * gy != 0,
    ;
}

/// The ring identity behind momentum conservation: the two impulse cross
/// terms cancel.
proof fn lemma_momentum_identity(m1: int, m2: int, v1: int, v2: int, i: int, g: int, d: int)
    ensures
        m1 * (v1 * d - m2 * i * g) + m2 * (v2 * d + m1 * i * g) == (m1 * v1 + m2 * v2) * d,
{
    let c1 = m2 * i * g;
    let c2 = m1 * i * g;
    assert(m1 * (v1 * d - c1) == m1 * (v1 * d) - m1 * c1) by (nonlinear_arith);
    assert(m2 * (v2 * d + c2) == m2 * (v2 * d) + m2 * c2) by (nonlinear_arith);
    assert(m1 * c1 == m2 * c2) by (nonlinear_arith)
        requires
            c1 == (m2 * i) * g,
            c2 == (m1 * i) * g,
    ;
    assert(m1 * (v1 * d) == (m1 * v1) * d) by (nonlinear_arith);
    assert(m2 * (v2 * d) == (m2 * v2) * d) by (nonlinear_arith);
    assert((m1 * v1 + m2 * v2) * d == (m1 * v1) * d + (m2 * v2) * d) by (nonlinear_arith);
}

/// Momentum conservation: for any nondegenerate pair, the total momentum of
/// the exact post-collision velocities equals the total momentum before, on
/// each axis.
pub proof fn lemma_momentum_conserved(p1: Particle, p2: Particle)
    requires
        p1.wf(),
        p2.wf(),
        dist_sq(p1, p2) != 0,
    ensures
        collision_den(p1, p2) > 0,
        rat_eq(
            p1.mass * v1_after_x_num(p1, p2) + p2.mass * v2_after_x_num(p1, p2),
            collision_den(p1, p2),
            p1.mass * p1.velocity.x + p2.mass * p2.velocity.x,
            1,
        ),
        rat_eq(
            p1.mass * v1_after_y_num(p1, p2) + p2.mass * v2_after_y_num(p1, p2),
            collision_den(p1, p2),
            p1.mass * p1.velocity.y + p2.mass * p2.velocity.y,
            1,
        ),
{
    lemma_collision_den_positive(p1, p2);
    let m1 = p1.mass as int;
    let m2 = p2.mass as int;
    let v1x = p1.velocity.x as int;
    let v1y = p1.velocity.y as int;
    let v2x = p2.velocity.x as int;
    let v2y = p2.velocity.y as int;
    let gx = gap_x(p1, p2);
    let gy = gap_y(p1, p2);
    let i = impulse(p1, p2);
    let d = collision_den(p1, p2);
    lemma_momentum_identity(m1, m2, v1x, v2x, i, gx, d);
    lemma_momentum_identity(m1, m2, v1y, v2y, i, gy, d);
    assert((m1 * v1_after_x_num(p1, p2) + m2 * v2_after_x_num(p1, p2)) * 1 == m1
        * v1_after_x_num(p1, p2) + m2 * v2_after_x_num(p1, p2));
    assert((m1 * v1_after_y_num(p1, p2) + m2 * v2_after_y_num(p1, p2)) * 1 == m1
        * v1_after_y_num(p1, p2) + m2 * v2_after_y_num(p1, p2));
}

/// Squared length of an outcome vector `v * d - c * g`, expanded.
proof fn lemma_square_expansion_minus(vx: int, vy: int, d: int, c: int, gx: int, gy: int)
    ensures
        (vx * d - c * gx) * (vx * d - c * gx) + (vy * d - c * gy) * (vy * d - c * gy) == (vx * vx
            + vy * vy) * (d * d) - 2 * d * c * (vx * gx + vy * gy) + c * c * (gx * gx + gy * gy),
{
    let a1 = vx * d;
    let b1 = c * gx;
    let a2 = vy * d;
    let b2 = c * gy;
    assert((a1 - b1) * (a1 - b1) == a1 * a1 - 2 * (a1 * b1) + b1 * b1) by (nonlinear_arith);
    assert((a2 - b2) * (a2 - b2) == a2 * a2 - 2 * (a2 * b2) + b2 * b2) by (nonlinear_arith);
    assert(a1 * a1 == (vx * vx) * (d * d)) by (nonlinear_arith)
        requires
            a1 == vx * d,
    ;
    assert(a2 * a2 == (vy * vy) * (d * d)) by (nonlinear_arith)
        requires
            a2 == vy * d,
    ;
    assert(a1 * b1 == (d * c) * (vx * gx)) by (nonlinear_arith)
        requires
            a1 == vx * d,
            b1 == c * gx,
    ;
    assert(a2 * b2 == (d * c) * (vy * gy)) by (nonlinear_arith)
        requires
            a2 == vy * d,
            b2 == c * gy,
    ;
    assert(b1 * b1 == (c * c) * (gx * gx)) by (nonlinear_arith)
        requires
            b1 == c * gx,
    ;
    assert(b2 * b2 == (c * c) * (gy * gy)) by (nonlinear_arith)
        requires
            b2 == c * gy,
    ;
    assert((vx * vx) * (d * d) + (vy * vy) * (d * d) == (vx * vx + vy * vy) * (d * d))
        by (nonlinear_arith);
    assert((c * c) * (gx * gx) + (c * c) * (gy * gy) == (c * c) * (gx * gx + gy * gy))
        by (nonlinear_arith);
    assert(2 * ((d * c) * (vx * gx)) + 2 * ((d * c) * (vy * gy)) == 2 * d * c * (vx * gx + vy
        * gy)) by (nonlinear_arith);
}

/// Squared length of an outcome vector `v * d + c * g`, expanded.
proof fn lemma_square_expansion_plus(vx: int, vy: int, d: int, c: int, gx: int, gy: int)
    ensures
        (vx * d + c * gx) * (vx * d + c * gx) + (vy * d + c * gy) * (vy * d + c * gy) == (vx * vx
            + vy * vy) * (d * d) + 2 * d * c * (vx * gx + vy * gy) + c * c * (gx * gx + gy * gy),
{
    lemma_square_expansion_minus(vx, vy, d, -c, gx, gy);
    assert(vx * d - -c * gx == vx * d + c * gx && vy * d - -c * gy == vy * d + c * gy)
        by (nonlinear_arith);
    assert(-c * -c == c * c) by (nonlinear_arith);
    assert(2 * d * -c * (vx * gx + vy * gy) == -(2 * d * c * (vx * gx + vy * gy)))
        by (nonlinear_arith);
}

/// The mass-weighted sum of the expanded squares: the mixed terms cancel
/// once the impulse is twice the normal relative component and the
/// denominator is `(m1 + m2)` times the squared gap.
proof fn lemma_energy_weighted_sum(
    m1: int,
    m2: int,
    a1: int,
    a2: int,
    b1: int,
    b2: int,
    e1: int,
    e2: int,
    i: int,
    s: int,
    q: int,
    mm: int,
    d: int,
)
    requires
        e1 == a1 * (d * d) - 2 * d * (m2 * i) * b1 + (m2 * i) * (m2 * i) * q,
        e2 == a2 * (d * d) + 2 * d * (m1 * i) * b2 + (m1 * i) * (m1 * i) * q,
        s == b1 - b2,
        i == 2 * s,
        mm == m1 + m2,
        d == mm * q,
    ensures
        m1 * e1 + m2 * e2 == (m1 * a1 + m2 * a2) * (d * d),
{
    let dd = d * d;
    let t1 = a1 * dd;
    let t2 = 2 * d * (m2 * i) * b1;
    let t3 = (m2 * i) * (m2 * i) * q;
    let u1 = a2 * dd;
    let u2 = 2 * d * (m1 * i) * b2;
    let u3 = (m1 * i) * (m1 * i) * q;
    let mm12 = m1 * m2;
    assert(m1 * e1 == m1 * t1 - m1 * t2 + m1 * t3) by (nonlinear_arith)
        requires
            e1 == t1 - t2 + t3,
    ;
    assert(m2 * e2 == m2 * u1 + m2 * u2 + m2 * u3) by (nonlinear_arith)
        requires
            e2 == u1 + u2 + u3,
    ;
    assert(m1 * t1 + m2 * u1 == (m1 * a1 + m2 * a2) * dd) by (nonlinear_arith)
        requires
            t1 == a1 * dd,
            u1 == a2 * dd,
    ;
    assert(m1 * t2 == (2 * d * i) * (mm12 * b1)) by (nonlinear_arith)
        requires
            t2 == 2 * d * (m2 * i) * b1,
            mm12 == m1 * m2,
    ;
    assert(m2 * u2 == (2 * d * i) * (mm12 * b2)) by (nonlinear_arith)
        requires
            u2 == 2 * d * (m1 * i) * b2,
            mm12 == m1 * m2,
    ;
    assert(m1 * t3 == (mm12 * m2) * ((i * i) * q)) by (nonlinear_arith)
        requires
            t3 == (m2 * i) * (m2 * i) * q,
            mm12 == m1 * m2,
    ;
    assert(m2 * u3 == (mm12 * m1) * ((i * i) * q)) by (nonlinear_arith)
        requires
            u3 == (m1 * i) * (m1 * i) * q,
            mm12 == m1 * m2,
    ;
    assert(-((2 * d * i) * (mm12 * b1)) + (2 * d * i) * (mm12 * b2) == -((2 * d * i) * (mm12
        * s))) by (nonlinear_arith)
        requires
            s == b1 - b2,
    ;
    assert((mm12 * m2) * ((i * i) * q) + (mm12 * m1) * ((i * i) * q) == (mm12 * mm) * ((i * i)
        * q)) by (nonlinear_arith)
        requires
            mm == m1 + m2,
    ;
    assert(-((2 * d * i) * (mm12 * s)) + (mm12 * mm) * ((i * i) * q) == 0) by (nonlinear_arith)
        requires
            i == 2 * s,
            d == mm * q,
    ;
}

/// Kinetic energy conservation: with no thermal resampling, the mass-weighted
/// sum of squared speeds of the exact outcome equals the one before the
/// collision.
pub proof fn lemma_energy_conserved(p1: Particle, p2: Particle)
    requires
        p1.wf(),
        p2.wf(),
        dist_sq(p1, p2) != 0,
    ensures
        collision_den(p1, p2) > 0,
        rat_eq(
            p1.mass * (v1_after_x_num(p1, p2) * v1_after_x_num(p1, p2) + v1_after_y_num(p1, p2)
                * v1_after_y_num(p1, p2)) + p2.mass * (v2_after_x_num(p1, p2) * v2_after_x_num(
                p1,
                p2,
            ) + v2_after_y_num(p1, p2) * v2_after_y_num(p1, p2)),
            collision_den(p1, p2) * collision_den(p1, p2),
            p1.mass * (p1.velocity.x * p1.velocity.x + p1.velocity.y * p1.velocity.y) + p2.mass
                * (p2.velocity.x * p2.velocity.x + p2.velocity.y * p2.velocity.y),
            1,
        ),
{
    lemma_collision_den_positive(p1, p2);
    let m1 = p1.mass as int;
    let m2 = p2.mass as int;
    let v1x = p1.velocity.x as int;
    let v1y = p1.velocity.y as int;
    let v2x = p2.velocity.x as int;
    let v2y = p2.velocity.y as int;
    let gx = gap_x(p1, p2);
    let gy = gap_y(p1, p2);
    let q = dist_sq(p1, p2);
    let s = (v1x - v2x) * gx + (v1y - v2y) * gy;
    let i = impulse(p1, p2);
    let mm = m1 + m2;
    let d = collision_den(p1, p2);
    let a1 = v1x * v1x + v1y * v1y;
    let a2 = v2x * v2x + v2y * v2y;
    let b1 = v1x * gx + v1y * gy;
    let b2 = v2x * gx + v2y * gy;
    let e1 = v1_after_x_num(p1, p2) * v1_after_x_num(p1, p2) + v1_after_y_num(p1, p2)
        * v1_after_y_num(p1, p2);
    let e2 = v2_after_x_num(p1, p2) * v2_after_x_num(p1, p2) + v2_after_y_num(p1, p2)
        * v2_after_y_num(p1, p2);
    assert(s == b1 - b2) by (nonlinear_arith)
        requires
            s == (v1x - v2x) * gx + (v1y - v2y) * gy,
            b1 == v1x * gx + v1y * gy,
            b2 == v2x * gx + v2y * gy,
    ;
    lemma_square_expansion_minus(v1x, v1y, d, m2 * i, gx, gy);
    lemma_square_expansion_plus(v2x, v2y, d, m1 * i, gx, gy);
    assert(e1 == a1 * (d * d) - 2 * d * (m2 * i) * b1 + (m2 * i) * (m2 * i) * q);
    assert(e2 == a2 * (d * d) + 2 * d * (m1 * i) * b2 + (m1 * i) * (m1 * i) * q);
    lemma_energy_weighted_sum(m1, m2, a1, a2, b1, b2, e1, e2, i, s, q, mm, d);
    assert((m1 * e1 + m2 * e2) * 1 == m1 * e1 + m2 * e2);
}

/// The tangential component of `v * d - c * g` is the old tangential
/// component scaled by `d`: the correction is parallel to the gap.
proof fn lemma_tangential_identity_minus(vx: int, vy: int, d: int, c: int, gx: int, gy: int)
    ensures
        (vx * d - c * gx) * -gy + (vy * d - c * gy) * gx == (vx * -gy + vy * gx) * d,
{
    let a = vx * d;
    let b = c * gx;
    let e = vy * d;
    let f = c * gy;
    assert((a - b) * -gy == a * -gy - b * -gy) by (nonlinear_arith);
    assert((e - f) * gx == e * gx - f * gx) by (nonlinear_arith);
    assert(a * -gy == (vx * -gy) * d) by (nonlinear_arith)
        requires
            a == vx * d,
    ;
    assert(e * gx == (vy * gx) * d) by (nonlinear_arith)
        requires
            e == vy * d,
    ;
    assert(b * -gy + f * gx == 0) by (nonlinear_arith)
        requires
            b == c * gx,
            f == c * gy,
    ;
    assert((vx * -gy + vy * gx) * d == (vx * -gy) * d + (vy * gx) * d) by (nonlinear_arith);
}

/// As above for an outcome vector `v * d + c * g`.
proof fn lemma_tangential_identity_plus(vx: int, vy: int, d: int, c: int, gx: int, gy: int)
    ensures
        (vx * d + c * gx) * -gy + (vy * d + c * gy) * gx == (vx * -gy + vy * gx) * d,
{
    lemma_tangential_identity_minus(vx, vy, d, -c, gx, gy);
    assert(vx * d - -c * gx == vx * d + c * gx && vy * d - -c * gy == vy * d + c * gy)
        by (nonlinear_arith);
}

/// The tangential velocity components pass through a collision unchanged,
/// whatever the two masses are.
pub proof fn lemma_tangential_preserved(p1: Particle, p2: Particle)
    requires
        p1.wf(),
        p2.wf(),
        dist_sq(p1, p2) != 0,
    ensures
        collision_den(p1, p2) > 0,
        rat_eq(
            v1_after_x_num(p1, p2) * -gap_y(p1, p2) + v1_after_y_num(p1, p2) * gap_x(p1, p2),
            collision_den(p1, p2),
            p1.velocity.x * -gap_y(p1, p2) + p1.velocity.y * gap_x(p1, p2),
            1,
        ),
        rat_eq(
            v2_after_x_num(p1, p2) * -gap_y(p1, p2) + v2_after_y_num(p1, p2) * gap_x(p1, p2),
            collision_den(p1, p2),
            p2.velocity.x * -gap_y(p1, p2) + p2.velocity.y * gap_x(p1, p2),
            1,
        ),
{
    lemma_collision_den_positive(p1, p2);
    let m1 = p1.mass as int;
    let m2 = p2.mass as int;
    let v1x = p1.velocity.x as int;
    let v1y = p1.velocity.y as int;
    let v2x = p2.velocity.x as int;
    let v2y = p2.velocity.y as int;
    let gx = gap_x(p1, p2);
    let gy = gap_y(p1, p2);
    let i = impulse(p1, p2);
    let d = collision_den(p1, p2);
    lemma_tangential_identity_minus(v1x, v1y, d, m2 * i, gx, gy);
    lemma_tangential_identity_plus(v2x, v2y, d, m1 * i, gx, gy);
    assert((v1_after_x_num(p1, p2) * -gy + v1_after_y_num(p1, p2) * gx) * 1 == v1_after_x_num(
        p1,
        p2,
    ) * -gy + v1_after_y_num(p1, p2) * gx);
    assert((v2_after_x_num(p1, p2) * -gy + v2_after_y_num(p1, p2) * gx) * 1 == v2_after_x_num(
        p1,
        p2,
    ) * -gy + v2_after_y_num(p1, p2) * gx);
}

/// For equal masses the normal component of each exact outcome is the other
/// particle's old normal component scaled by `d`.
proof fn lemma_swap_identity(
    m: int,
    v1x: int,
    v1y: int,
    v2x: int,
    v2y: int,
    gx: int,
    gy: int,
    q: int,
    i: int,
    d: int,
)
    requires
        i == 2 * ((v1x - v2x) * gx + (v1y - v2y) * gy),
        d == (m + m) * q,
        q == gx * gx + gy * gy,
    ensures
        (v1x * d - m * i * gx) * gx + (v1y * d - m * i * gy) * gy == (v2x * gx + v2y * gy) * d,
        (v2x * d + m * i * gx) * gx + (v2y * d + m * i * gy) * gy == (v1x * gx + v1y * gy) * d,
{
    let b1 = v1x * gx + v1y * gy;
    let b2 = v2x * gx + v2y * gy;
    let c = m * i;
    assert((v1x * d - c * gx) * gx == (v1x * gx) * d - c * (gx * gx)) by (nonlinear_arith);
    assert((v1y * d - c * gy) * gy == (v1y * gy) * d - c * (gy * gy)) by (nonlinear_arith);
    assert((v2x * d + c * gx) * gx == (v2x * gx) * d + c * (gx * gx)) by (nonlinear_arith);
    assert((v2y * d + c * gy) * gy == (v2y * gy) * d + c * (gy * gy)) by (nonlinear_arith);
    assert((v1x * gx) * d + (v1y * gy) * d == b1 * d) by (nonlinear_arith)
        requires
            b1 == v1x * gx + v1y * gy,
    ;
    assert((v2x * gx) * d + (v2y * gy) * d == b2 * d) by (nonlinear_arith)
        requires
            b2 == v2x * gx + v2y * gy,
    ;
    assert(c * (gx * gx) + c * (gy * gy) == c * q) by (nonlinear_arith)
        requires
            q == gx * gx + gy * gy,
    ;
    assert(i == 2 * b1 - 2 * b2) by (nonlinear_arith)
        requires
            i == 2 * ((v1x - v2x) * gx + (v1y - v2y) * gy),
            b1 == v1x * gx + v1y * gy,
            b2 == v2x * gx + v2y * gy,
    ;
    assert(b1 * d - c * q == b2 * d) by (nonlinear_arith)
        requires
            c == m * i,
            i == 2 * b1 - 2 * b2,
            d == (m + m) * q,
    ;
    assert(b2 * d + c * q == b1 * d) by (nonlinear_arith)
        requires
            c == m * i,
            i == 2 * b1 - 2 * b2,
            d == (m + m) * q,
    ;
}

/// Two particles of equal mass exchange the normal components of their
/// velocities exactly.
pub proof fn lemma_equal_mass_swap(p1: Particle, p2: Particle)
    requires
        p1.wf(),
        p2.wf(),
        dist_sq(p1, p2) != 0,
        p1.mass == p2.mass,
    ensures
        collision_den(p1, p2) > 0,
        rat_eq(
            v1_after_x_num(p1, p2) * gap_x(p1, p2) + v1_after_y_num(p1, p2) * gap_y(p1, p2),
            collision_den(p1, p2),
            p2.velocity.x * gap_x(p1, p2) + p2.velocity.y * gap_y(p1, p2),
            1,
        ),
        rat_eq(
            v2_after_x_num(p1, p2) * gap_x(p1, p2) + v2_after_y_num(p1, p2) * gap_y(p1, p2),
            collision_den(p1, p2),
            p1.velocity.x * gap_x(p1, p2) + p1.velocity.y * gap_y(p1, p2),
            1,
        ),
{
    lemma_collision_den_positive(p1, p2);
    let m = p1.mass as int;
    let v1x = p1.velocity.x as int;
    let v1y = p1.velocity.y as int;
    let v2x = p2.velocity.x as int;
    let v2y = p2.velocity.y as int;
    let gx = gap_x(p1, p2);
    let gy = gap_y(p1, p2);
    let q = dist_sq(p1, p2);
    let i = impulse(p1, p2);
    let d = collision_den(p1, p2);
    lemma_swap_identity(m, v1x, v1y, v2x, v2y, gx, gy, q, i, d);
    assert((v1_after_x_num(p1, p2) * gx + v1_after_y_num(p1, p2) * gy) * 1 == v1_after_x_num(
        p1,
        p2,
    ) * gx + v1_after_y_num(p1, p2) * gy);
    assert((v2_after_x_num(p1, p2) * gx + v2_after_y_num(p1, p2) * gy) * 1 == v2_after_x_num(
        p1,
        p2,
    ) * gx + v2_after_y_num(p1, p2) * gy);
}

/// With equal masses and both velocities along the line of centres, each
/// exact outcome component is the other particle's old component scaled by
/// `d`.
proof fn lemma_head_on_identity(
    m: int,
    v1x: int,
    v1y: int,
    v2x: int,
    v2y: int,
    gx: int,
    gy: int,
    q: int,
    i: int,
    d: int,
)
    requires
        i == 2 * ((v1x - v2x) * gx + (v1y - v2y) * gy),
        d == (m + m) * q,
        q == gx * gx + gy * gy,
        v1x * gy == v1y * gx,
        v2x * gy == v2y * gx,
    ensures
        v1x * d - m * i * gx == v2x * d,
        v1y * d - m * i * gy == v2y * d,
        v2x * d + m * i * gx == v1x * d,
        v2y * d + m * i * gy == v1y * d,
{
    let u = v1x - v2x;
    let w = v1y - v2y;
    assert(u * gy == w * gx) by (nonlinear_arith)
        requires
            u == v1x - v2x,
            w == v1y - v2y,
            v1x * gy == v1y * gx,
            v2x * gy == v2y * gx,
    ;
    assert(i == 2 * (u * gx + w * gy)) by (nonlinear_arith)
        requires
            i == 2 * ((v1x - v2x) * gx + (v1y - v2y) * gy),
            u == v1x - v2x,
            w == v1y - v2y,
    ;
    assert(u * q == (u * gx + w * gy) * gx) by (nonlinear_arith)
        requires
            q == gx * gx + gy * gy,
            u * gy == w * gx,
    ;
    assert(w * q == (u * gx + w * gy) * gy) by (nonlinear_arith)
        requires
            q == gx * gx + gy * gy,
            u * gy == w * gx,
    ;
    assert(u * d == (m * i) * gx) by (nonlinear_arith)
        requires
            d == (m + m) * q,
            i == 2 * (u * gx + w * gy),
            u * q == (u * gx + w * gy) * gx,
    ;
    assert(w * d == (m * i) * gy) by (nonlinear_arith)
        requires
            d == (m + m) * q,
            i == 2 * (u * gx + w * gy),
            w * q == (u * gx + w * gy) * gy,
    ;
    assert(v1x * d - v2x * d == u * d) by (nonlinear_arith)
        requires
            u == v1x - v2x,
    ;
    assert(v1y * d - v2y * d == w * d) by (nonlinear_arith)
        requires
            w == v1y - v2y,
    ;
}

/// The head-on special case: equal masses and both velocities collinear with
/// the line of centres make each exact post-collision velocity exactly the
/// other particle's old velocity.
pub proof fn lemma_equal_mass_head_on_swap(p1: Particle, p2: Particle)
    requires
        p1.wf(),
        p2.wf(),
        dist_sq(p1, p2) != 0,
        p1.mass == p2.mass,
        p1.velocity.x * gap_y(p1, p2) == p1.velocity.y * gap_x(p1, p2),
        p2.velocity.x * gap_y(p1, p2) == p2.velocity.y * gap_x(p1, p2),
    ensures
        collision_den(p1, p2) > 0,
        rat_eq(v1_after_x_num(p1, p2), collision_den(p1, p2), p2.velocity.x as int, 1),
        rat_eq(v1_after_y_num(p1, p2), collision_den(p1, p2), p2.velocity.y as int, 1),
        rat_eq(v2_after_x_num(p1, p2), collision_den(p1, p2), p1.velocity.x as int, 1),
        rat_eq(v2_after_y_num(p1, p2), collision_den(p1, p2), p1.velocity.y as int, 1),
{
    lemma_collision_den_positive(p1, p2);
    let m = p1.mass as int;
    let v1x = p1.velocity.x as int;
    let v1y = p1.velocity.y as int;
    let v2x = p2.velocity.x as int;
    let v2y = p2.velocity.y as int;
    let gx = gap_x(p1, p2);
    let gy = gap_y(p1, p2);
    let q = dist_sq(p1, p2);
    let i = impulse(p1, p2);
    let d = collision_den(p1, p2);
    lemma_head_on_identity(m, v1x, v1y, v2x, v2y, gx, gy, q, i, d);
    assert(v1_after_x_num(p1, p2) * 1 == v1_after_x_num(p1, p2));
    assert(v1_after_y_num(p1, p2) * 1 == v1_after_y_num(p1, p2));
    assert(v2_after_x_num(p1, p2) * 1 == v2_after_x_num(p1, p2));
    assert(v2_after_y_num(p1, p2) * 1 == v2_after_y_num(p1, p2));
}

} // verus!
