//! Integrator: advance every particle's position by velocity times the
//! frame's elapsed time, a variable step supplied as the exact rational
//! `dt_num / dt_den`.
//!
//! Under the periodic boundary policy a particle that crosses a boundary
//! minus the detection margin reappears at the opposite edge plus the
//! placement margin.  That re-entry conflicts with wall bouncing over the
//! same boundary, so it is applied only when the run's policy says so.

use vstd::prelude::*;
use crate::geom::Vec2;
use crate::math::clamp_spec;
use crate::math::round_div;
use crate::math::round_div_i128;
use crate::params::BoundaryPolicy;
use crate::params::COORD_LIMIT;
use crate::params::WALL_BOTTOM;
use crate::params::WALL_LEFT;
use crate::params::WALL_RIGHT;
use crate::params::WALL_TOP;
use crate::params::WRAP_DETECT;
use crate::params::WRAP_PLACE;
use crate::particle::Particle;

verus! {

/// One coordinate advanced by `v * dt_num / dt_den`, rounded to the nearest
/// integer and clamped into the machine bounds of the model.
pub open spec fn integrated_coord_spec(x: int, v: int, dt_num: int, dt_den: int) -> int
    recommends
        dt_den >= 1,
{
    clamp_spec(x + round_div(v * dt_num, dt_den), -COORD_LIMIT as int, COORD_LIMIT as int)
}

/// Periodic re-entry: past a boundary minus the detection margin the
/// particle reappears at the opposite edge plus the placement margin.  At
/// most one axis wraps per tick, x taking precedence, as a single pass over
/// the four boundaries does.
pub open spec fn wrapped_spec(x: int, y: int) -> (int, int) {
    if x > WALL_RIGHT - WRAP_DETECT {
        (WALL_LEFT + WRAP_PLACE, y)
    } else if x < WALL_LEFT + WRAP_DETECT {
        (WALL_RIGHT - WRAP_PLACE, y)
    } else if y > WALL_TOP - WRAP_DETECT {
        (x, WALL_BOTTOM + WRAP_PLACE)
    } else if y < WALL_BOTTOM + WRAP_DETECT {
        (x, WALL_TOP - WRAP_PLACE)
    } else {
        (x, y)
    }
}

/// The position a particle reaches this tick under the given boundary
/// policy.
pub open spec fn integrated_position_spec(
    p: Particle,
    dt_num: int,
    dt_den: int,
    policy: BoundaryPolicy,
) -> (int, int)
    recommends
        dt_den >= 1,
{
    let nx = integrated_coord_spec(p.position.x as int, p.velocity.x as int, dt_num, dt_den);
    let ny = integrated_coord_spec(p.position.y as int, p.velocity.y as int, dt_num, dt_den);
    if policy == BoundaryPolicy::Wrap {
        wrapped_spec(nx, ny)
    } else {
        (nx, ny)
    }
}

fn integrate_coord(x: i64, v: i64, dt_num: i64, dt_den: i64) -> (r: i64)
    requires
        1 <= dt_den <= 1_000_000_000,
        0 <= dt_num <= 1_000_000_000,
    ensures
        r == integrated_coord_spec(x as int, v as int, dt_num as int, dt_den as int),
        -COORD_LIMIT <= r <= COORD_LIMIT,
{
    proof {
        assert(-10_000_000_000_000_000_000_000_000_000 <= (v as i128) * (dt_num as i128)
            <= 10_000_000_000_000_000_000_000_000_000) by (nonlinear_arith)
            requires
                -10_000_000_000_000_000_000 <= v as i128 <= 10_000_000_000_000_000_000,
                0 <= dt_num as i128 <= 1_000_000_000,
        ;
    }
    let step: i128 = round_div_i128((v as i128) * (dt_num as i128), dt_den as i128);
    proof {
        crate::math::lemma_round_div_bound(
            ((v as i128) * (dt_num as i128)) as int,
            dt_den as int,
            10_000_000_000_000_000_000_000_000_000,
        );
        assert(10_000_000_000_000_000_000_000_000_000 * (dt_den as int)
            >= 10_000_000_000_000_000_000_000_000_000) by (nonlinear_arith)
            requires
                dt_den as int >= 1,
        ;
    }
    let moved: i128 = x as i128 + step;
    let clamped: i128 = if moved < -(COORD_LIMIT as i128) {
        -(COORD_LIMIT as i128)
    } else if moved > COORD_LIMIT as i128 {
        COORD_LIMIT as i128
    } else {
        moved
    };
    clamped as i64
}

/// Advance every particle by one tick.  Only the position changes; under
/// the periodic policy the re-entry rule is applied to the advanced
/// position.
pub fn update_positions(ps: &mut Vec<Particle>, dt_num: i64, dt_den: i64, policy: BoundaryPolicy)
    requires
        1 <= dt_den <= 1_000_000_000,
        0 <= dt_num <= 1_000_000_000,
    ensures
        final(ps)@.len() == old(ps)@.len(),
        forall|i: int|
            0 <= i < old(ps)@.len() ==> final(ps)@[i] == (Particle {
                position: (Vec2 {
                    x: integrated_position_spec(
                        old(ps)@[i],
                        dt_num as int,
                        dt_den as int,
                        policy,
                    ).0 as i64,
                    y: integrated_position_spec(
                        old(ps)@[i],
                        dt_num as int,
                        dt_den as int,
                        policy,
                    ).1 as i64,
                }),
                ..old(ps)@[i]
            }),
{
    let ghost orig = ps@;
    let mut i: usize = 0;
    while i < ps.len()
        invariant
            ps@.len() == orig.len(),
            i <= ps@.len(),
            1 <= dt_den <= 1_000_000_000,
            0 <= dt_num <= 1_000_000_000,
            forall|j: int|
                0 <= j < i ==> ps@[j] == (Particle {
                    position: (Vec2 {
                        x: integrated_position_spec(
                            orig[j],
                            dt_num as int,
                            dt_den as int,
                            policy,
                        ).0 as i64,
                        y: integrated_position_spec(
                            orig[j],
                            dt_num as int,
                            dt_den as int,
                            policy,
                        ).1 as i64,
                    }),
                    ..orig[j]
                }),
            forall|j: int| i <= j < ps@.len() ==> ps@[j] == orig[j],
        decreases ps@.len() - i,
    {
        let p: Particle = ps[i];
        let nx: i64 = integrate_coord(p.position.x, p.velocity.x, dt_num, dt_den);
        let ny: i64 = integrate_coord(p.position.y, p.velocity.y, dt_num, dt_den);
        let pos: Vec2 = if matches!(policy, BoundaryPolicy::Wrap) {
            if nx > WALL_RIGHT - WRAP_DETECT {
                Vec2 { x: WALL_LEFT + WRAP_PLACE, y: ny }
            } else if nx < WALL_LEFT + WRAP_DETECT {
                Vec2 { x: WALL_RIGHT - WRAP_PLACE, y: ny }
            } else if ny > WALL_TOP - WRAP_DETECT {
                Vec2 { x: nx, y: WALL_BOTTOM + WRAP_PLACE }
            } else if ny < WALL_BOTTOM + WRAP_DETECT {
                Vec2 { x: nx, y: WALL_TOP - WRAP_PLACE }
            } else {
                Vec2 { x: nx, y: ny }
            }
        } else {
            Vec2 { x: nx, y: ny }
        };
        ps.set(i, Particle { position: pos, ..p });
        i = i + 1;
    }
}

} // verus!
