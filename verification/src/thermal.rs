//! The thermal model: the kinetic relation between temperature and speed,
//! wall equilibration, the characteristic speed that parameterizes the
//! stochastic resampler, and the application of a sampled speed magnitude to
//! an existing direction.
//!
//! The characteristic speed `sqrt(4 k T / (3 m))` is an equipartition-derived
//! scale, not the true root-mean-square speed; it is the model's chosen
//! approximation.  A non-positive mass or temperature is clamped to the
//! smallest positive value rather than fed to the square root, so no thermal
//! state produces an undefined sample parameter.

use vstd::prelude::*;
use vstd::arithmetic::div_mod::lemma_div_nonincreasing;
use vstd::arithmetic::div_mod::lemma_div_pos_is_pos;
use crate::geom::Vec2;
use crate::particle::Particle;
use crate::math::clamp_spec;
use crate::math::clamp_i64;
use crate::math::round_div;
use crate::math::round_div_i128;
use crate::math::sqrt_floor;
use crate::math::isqrt_u64;
use crate::math::lemma_sqrt_floor_bounds;
use crate::math::lemma_round_div_bound;
use crate::math::lemma_round_div_sign;
use crate::params::BOLTZMANN;
use crate::params::COORD_LIMIT;
use crate::params::MASS_LIMIT;
use crate::params::MILLI;
use crate::params::REDUCER_MAX;
use crate::params::REDUCER_MIN;
use crate::params::SPEED_SAMPLE_CEIL;
use crate::params::TEMP_CEIL;
use crate::params::TEMP_FLOOR;

verus! {

/// Squared speed before the velocity-scaling factor was applied: rendered
/// speeds are the physical ones times `reducer / MILLI`.
pub open spec fn unscaled_speed_sq_spec(q: int, reducer: int) -> int
    recommends
        q >= 0,
        reducer >= 1,
{
    q * (MILLI * MILLI) / (reducer * reducer)
}

/// Temperature implied by an unscaled squared speed through the kinetic
/// relation `T = 3 m v^2 / (4 k)`, clamped into the model's range.
pub open spec fn temp_from_speed_sq_spec(mass: int, q_unscaled: int) -> int {
    clamp_spec(3 * mass * q_unscaled / (4 * BOLTZMANN), TEMP_FLOOR as int, TEMP_CEIL as int)
}

/// The temperature a particle takes after a collision gave it `velocity`:
/// the kinetic relation applied to its own new speed, unscaled by the
/// configured reducer.
pub fn temperature_from_velocity(mass: i64, velocity: Vec2, reducer: i64) -> (t: i64)
    requires
        1 <= mass <= MASS_LIMIT,
        velocity.within(16 * COORD_LIMIT as int),
        REDUCER_MIN <= reducer <= REDUCER_MAX,
    ensures
        t == temp_from_speed_sq_spec(
            mass as int,
            unscaled_speed_sq_spec(velocity.norm_sq(), reducer as int),
        ),
        TEMP_FLOOR <= t <= TEMP_CEIL,
{
    let vx: i128 = velocity.x as i128;
    let vy: i128 = velocity.y as i128;
    proof {
        assert(0 <= vx * vx <= 256_000_000_000_000 && 0 <= vy * vy <= 256_000_000_000_000)
            by (nonlinear_arith)
            requires
                -16_000_000 <= vx <= 16_000_000,
                -16_000_000 <= vy <= 16_000_000,
        ;
        assert(1 <= (reducer as i128) * (reducer as i128) <= 1_000_000_000_000)
            by (nonlinear_arith)
            requires
                1 <= reducer as i128 <= 1_000_000,
        ;
    }
    let q: i128 = vx * vx + vy * vy;
    proof {
        assert(0 <= q <= 512_000_000_000_000);
    }
    let num: i128 = q * 1_000_000;
    let rr: i128 = (reducer as i128) * (reducer as i128);
    let qu: i128 = num / rr;
    proof {
        lemma_div_pos_is_pos(num as int, rr as int);
        lemma_div_nonincreasing(num as int, rr as int);
        assert(0 <= (3 * (mass as i128)) * qu <= 3_000_000 * 512_000_000_000_000_000_000)
            by (nonlinear_arith)
            requires
                1 <= mass as i128 <= 1_000_000,
                0 <= qu <= 512_000_000_000_000_000_000,
        ;
    }
    let t_raw: i128 = 3 * (mass as i128) * qu / (4 * 1000);
    proof {
        lemma_div_pos_is_pos((3 * (mass as i128)) * qu as int, 4000);
    }
    let t: i128 = if t_raw < TEMP_FLOOR as i128 {
        TEMP_FLOOR as i128
    } else if t_raw > TEMP_CEIL as i128 {
        TEMP_CEIL as i128
    } else {
        t_raw
    };
    t as i64
}

/// Thermal equilibration on wall contact: the particle's new temperature is
/// the average of its own and the wall's.
pub open spec fn equilibrated_spec(t_ball: int, t_wall: int) -> int {
    (t_ball + t_wall) / 2
}

pub fn equilibrate(t_ball: i64, t_wall: i64) -> (t: i64)
    requires
        TEMP_FLOOR <= t_ball <= TEMP_CEIL,
        TEMP_FLOOR <= t_wall <= TEMP_CEIL,
    ensures
        t == equilibrated_spec(t_ball as int, t_wall as int),
        TEMP_FLOOR <= t <= TEMP_CEIL,
{
    (t_ball + t_wall) / 2
}

/// The characteristic speed `sqrt(4 k T / (3 m))` of a thermal state, with
/// non-positive inputs clamped to the smallest positive value first and the
/// squared speed clamped to at least one, so the result is always positive.
pub open spec fn char_speed_spec(mass: int, temperature: int) -> int {
    let m = clamp_spec(mass, 1, MASS_LIMIT as int);
    let t = clamp_spec(temperature, TEMP_FLOOR as int, TEMP_CEIL as int);
    let vc2 = 4 * BOLTZMANN * t / (3 * m);
    if vc2 < 1 {
        1
    } else {
        sqrt_floor(vc2 as nat) as int
    }
}

pub fn characteristic_speed(mass: i64, temperature: i64) -> (v: i64)
    ensures
        v == char_speed_spec(mass as int, temperature as int),
        1 <= v <= SPEED_SAMPLE_CEIL,
{
    let m: i64 = clamp_i64(mass, 1, MASS_LIMIT);
    let t: i64 = clamp_i64(temperature, TEMP_FLOOR, TEMP_CEIL);
    let vc2: i64 = 4 * BOLTZMANN * t / (3 * m);
    proof {
        lemma_div_pos_is_pos(4 * BOLTZMANN * t as int, 3 * m as int);
        lemma_div_nonincreasing(4 * BOLTZMANN * t as int, 3 * m as int);
    }
    if vc2 < 1 {
        1
    } else {
        let r: u64 = isqrt_u64(vc2 as u64);
        proof {
            lemma_sqrt_floor_bounds(vc2 as nat);
            assert(r >= 1) by (nonlinear_arith)
                requires
                    vc2 as int >= 1,
                    (vc2 as int) < ((r as int) + 1) * ((r as int) + 1),
                    r as int >= 0,
            ;
            assert(r <= 100_000_000) by (nonlinear_arith)
                requires
                    (r as int) * (r as int) <= vc2 as int,
                    vc2 as int <= 4_000_000_000_000_000,
                    r as int >= 0,
            ;
        }
        r as i64
    }
}

/// The velocity after resampling: the old direction, the sampled magnitude
/// `speed` scaled by the reducer.  Each component is the exact rational
/// `v_i * speed * reducer / (MILLI * |v|)` rounded to the nearest integer,
/// with the floor square root of the squared speed standing in for the
/// irrational length `|v|`.  A zero velocity has no direction to preserve
/// and stays zero.
pub open spec fn rescaled_spec(v: Vec2, speed: int, reducer: int) -> (int, int) {
    if v.norm_sq() == 0 {
        (0, 0)
    } else {
        let len = sqrt_floor(v.norm_sq() as nat) as int;
        (
            round_div(v.x * speed * reducer, MILLI * len),
            round_div(v.y * speed * reducer, MILLI * len),
        )
    }
}

pub fn rescale_velocity(v: Vec2, speed: i64, reducer: i64) -> (r: Vec2)
    requires
        v.within(16 * COORD_LIMIT as int),
        0 <= speed <= SPEED_SAMPLE_CEIL,
        REDUCER_MIN <= reducer <= REDUCER_MAX,
    ensures
        (r.x as int, r.y as int) == rescaled_spec(v, speed as int, reducer as int),
        v.x >= 0 ==> r.x >= 0,
        v.x <= 0 ==> r.x <= 0,
        v.y >= 0 ==> r.y >= 0,
        v.y <= 0 ==> r.y <= 0,
        -(speed * reducer) <= r.x <= speed * reducer,
        -(speed * reducer) <= r.y <= speed * reducer,
{
    let vx: i128 = v.x as i128;
    let vy: i128 = v.y as i128;
    proof {
        assert(0 <= (speed as int) * (reducer as int) <= 100_000_000_000_000) by (nonlinear_arith)
            requires
                0 <= speed as int <= 100_000_000,
                1 <= reducer as int <= 1_000_000,
        ;
        assert(0 <= vx * vx <= 256_000_000_000_000 && 0 <= vy * vy <= 256_000_000_000_000)
            by (nonlinear_arith)
            requires
                -16_000_000 <= vx <= 16_000_000,
                -16_000_000 <= vy <= 16_000_000,
        ;
    }
    let q: i128 = vx * vx + vy * vy;
    if q == 0 {
        return Vec2 { x: 0, y: 0 };
    }
    let len: u64 = isqrt_u64(q as u64);
    proof {
        lemma_sqrt_floor_bounds(q as nat);
        assert(len >= 1) by (nonlinear_arith)
            requires
                q as int >= 1,
                (q as int) < ((len as int) + 1) * ((len as int) + 1),
                len as int >= 0,
        ;
        assert(vx * vx <= q as int && vy * vy <= q as int);
        assert(-(len as int) <= vx <= len as int) by (nonlinear_arith)
            requires
                vx * vx <= q as int,
                (q as int) < ((len as int) + 1) * ((len as int) + 1),
                len as int >= 0,
        ;
        assert(-(len as int) <= vy <= len as int) by (nonlinear_arith)
            requires
                vy * vy <= q as int,
                (q as int) < ((len as int) + 1) * ((len as int) + 1),
                len as int >= 0,
        ;
        assert(-1_600_000_000_000_000 <= vx * (speed as int) <= 1_600_000_000_000_000
            && -1_600_000_000_000_000 <= vy * (speed as int) <= 1_600_000_000_000_000)
            by (nonlinear_arith)
            requires
                -16_000_000 <= vx <= 16_000_000,
                -16_000_000 <= vy <= 16_000_000,
                0 <= speed as int <= 100_000_000,
        ;
        assert(-1_600_000_000_000_000_000_000 <= (vx * (speed as int)) * (reducer as int)
            <= 1_600_000_000_000_000_000_000 && -1_600_000_000_000_000_000_000 <= (vy * (speed
            as int)) * (reducer as int) <= 1_600_000_000_000_000_000_000) by (nonlinear_arith)
            requires
                -1_600_000_000_000_000 <= vx * (speed as int) <= 1_600_000_000_000_000,
                -1_600_000_000_000_000 <= vy * (speed as int) <= 1_600_000_000_000_000,
                1 <= reducer as int <= 1_000_000,
        ;
    }
    let den: i128 = 1000 * (len as i128);
    let nx: i128 = vx * (speed as i128) * (reducer as i128);
    let ny: i128 = vy * (speed as i128) * (reducer as i128);
    proof {
        let sr = (speed as int) * (reducer as int);
        assert(-(sr * (1000 * (len as int))) <= vx * (speed as int) * (reducer as int) <= sr
            * (1000 * (len as int)) && -(sr * (1000 * (len as int))) <= vy * (speed as int)
            * (reducer as int) <= sr * (1000 * (len as int))) by (nonlinear_arith)
            requires
                -(len as int) <= vx <= len as int,
                -(len as int) <= vy <= len as int,
                sr == (speed as int) * (reducer as int),
                sr >= 0,
                len as int >= 1,
        ;
        lemma_round_div_bound(nx as int, den as int, sr);
        lemma_round_div_bound(ny as int, den as int, sr);
        lemma_round_div_sign(nx as int, den as int);
        lemma_round_div_sign(ny as int, den as int);
        assert((vx >= 0 ==> nx >= 0) && (vx <= 0 ==> nx <= 0)) by (nonlinear_arith)
            requires
                nx == vx * (speed as int) * (reducer as int),
                speed as int >= 0,
                reducer as int >= 1,
        ;
        assert((vy >= 0 ==> ny >= 0) && (vy <= 0 ==> ny <= 0)) by (nonlinear_arith)
            requires
                ny == vy * (speed as int) * (reducer as int),
                speed as int >= 0,
                reducer as int >= 1,
        ;
    }
    let rx: i128 = round_div_i128(nx, den);
    let ry: i128 = round_div_i128(ny, den);
    Vec2 { x: rx as i64, y: ry as i64 }
}

/// A particle after a resampling draw: the velocity is the old direction
/// at the sampled magnitude scaled by the reducer; everything else is
/// unchanged.
pub fn resample_velocity(p: &Particle, sample: i64, reducer: i64) -> (q: Particle)
    requires
        p.wf(),
        p.velocity.within(16 * COORD_LIMIT as int),
        0 <= sample <= SPEED_SAMPLE_CEIL,
        REDUCER_MIN <= reducer <= REDUCER_MAX,
    ensures
        q.wf(),
        (q.velocity.x as int, q.velocity.y as int) == rescaled_spec(
            p.velocity,
            sample as int,
            reducer as int,
        ),
        q.position == p.position,
        q.mass == p.mass,
        q.temperature == p.temperature,
        q.molecule == p.molecule,
{
    let velocity: Vec2 = rescale_velocity(p.velocity, sample, reducer);
    Particle { velocity, ..*p }
}

} // verus!
