//! Wall interaction: circle/box contact testing, face determination,
//! one-sided velocity reflection and optional thermal equilibration.
//!
//! A face tag names the wall as seen from the enclosure: a particle pressed
//! against the right wall gets `Collision::Right` (the nearest box point
//! lies to its right), and only a particle actually moving toward that wall
//! has the perpendicular velocity component negated.  The one-sided check
//! prevents double reflection while a particle still overlaps a wall it is
//! already leaving.

use vstd::prelude::*;
use crate::geom::Aabb;
use crate::geom::BoundingCircle;
use crate::geom::Vec2;
use crate::math::clamp_spec;
use crate::math::clamp_i64;
use crate::params::COORD_LIMIT;
use crate::params::SimulationData;
use crate::params::TEMP_CEIL;
use crate::params::TEMP_FLOOR;
use crate::params::WALL_BOTTOM;
use crate::params::WALL_LEFT;
use crate::params::WALL_RIGHT;
use crate::params::WALL_HALF_LEN_X;
use crate::params::WALL_HALF_LEN_Y;
use crate::params::WALL_HALF_THICKNESS;
use crate::params::WALL_TOP;
use crate::particle::Particle;
use crate::thermal::char_speed_spec;
use crate::thermal::characteristic_speed;
use crate::thermal::equilibrate;
use crate::thermal::equilibrated_spec;

verus! {

/// The four cardinal walls of the enclosure.
#[derive(Clone, Copy, PartialEq, Eq, Structural, Debug)]
pub enum WallLocation {
    Left,
    Right,
    Top,
    Bottom,
}

impl WallLocation {
    /// Centre of this wall, on the enclosure's boundary lines.
    pub open spec fn center_spec(self) -> Vec2 {
        match self {
            WallLocation::Left => Vec2 { x: WALL_LEFT, y: 0 },
            WallLocation::Right => Vec2 { x: WALL_RIGHT, y: 0 },
            WallLocation::Top => Vec2 { x: 0, y: WALL_TOP },
            WallLocation::Bottom => Vec2 { x: 0, y: WALL_BOTTOM },
        }
    }

    pub fn position(&self) -> (p: Vec2)
        ensures
            p == self.center_spec(),
    {
        match self {
            WallLocation::Left => Vec2 { x: WALL_LEFT, y: 0 },
            WallLocation::Right => Vec2 { x: WALL_RIGHT, y: 0 },
            WallLocation::Top => Vec2 { x: 0, y: WALL_TOP },
            WallLocation::Bottom => Vec2 { x: 0, y: WALL_BOTTOM },
        }
    }

    /// Half-extents of this wall's box: half the thickness across the
    /// boundary, half the enclosure span plus the thickness along it.
    pub open spec fn half_extent_spec(self) -> Vec2 {
        match self {
            WallLocation::Left | WallLocation::Right => Vec2 {
                x: WALL_HALF_THICKNESS,
                y: WALL_HALF_LEN_Y,
            },
            WallLocation::Top | WallLocation::Bottom => Vec2 {
                x: WALL_HALF_LEN_X,
                y: WALL_HALF_THICKNESS,
            },
        }
    }

    pub fn size(&self) -> (s: Vec2)
        ensures
            s == self.half_extent_spec(),
    {
        match self {
            WallLocation::Left | WallLocation::Right => Vec2 {
                x: WALL_HALF_THICKNESS,
                y: WALL_HALF_LEN_Y,
            },
            WallLocation::Top | WallLocation::Bottom => Vec2 {
                x: WALL_HALF_LEN_X,
                y: WALL_HALF_THICKNESS,
            },
        }
    }
}

/// A wall: its location tag, the box geometry derived once from the
/// enclosure constants, and a configurable temperature.
#[derive(Clone, Copy, PartialEq, Eq, Structural, Debug)]
pub struct Wall {
    pub location: WallLocation,
    pub center: Vec2,
    pub half: Vec2,
    pub temperature: i64,
}

impl Wall {
    /// Geometry matches the location and the temperature is positive.
    pub open spec fn wf(self) -> bool {
        &&& self.center == self.location.center_spec()
        &&& self.half == self.location.half_extent_spec()
        &&& TEMP_FLOOR <= self.temperature <= TEMP_CEIL
    }

    /// A wall on the given side; an out-of-range temperature is clamped.
    pub fn new(location: WallLocation, temperature: i64) -> (w: Wall)
        ensures
            w.wf(),
            w.location == location,
            w.temperature == clamp_spec(temperature as int, TEMP_FLOOR as int, TEMP_CEIL as int),
    {
        Wall {
            location,
            center: location.position(),
            half: location.size(),
            temperature: clamp_i64(temperature, TEMP_FLOOR, TEMP_CEIL),
        }
    }

    pub fn get_bounding_box(&self) -> (b: Aabb)
        requires
            self.wf(),
        ensures
            b.center == self.center,
            b.half == self.half,
            b.wf(),
    {
        Aabb { center: self.center, half: self.half }
    }
}

/// Which wall a particle contacted, named from the particle's point of
/// view: `Right` means the contacted face lies in the `+x` direction.
#[derive(Clone, Copy, PartialEq, Eq, Structural, Debug)]
pub enum Collision {
    Left,
    Right,
    Top,
    Bottom,
}

/// Circle/box contact test and face determination: the circle intersects
/// the box when the nearest box point is within the radius; the dominant
/// axis of the offset from that point back to the centre picks the face,
/// and the offset's sign on that axis picks its side.
pub open spec fn collide_with_wall_spec(ball: BoundingCircle, wall: Aabb) -> Option<Collision> {
    let cx = clamp_spec(
        ball.center.x as int,
        wall.center.x - wall.half.x,
        wall.center.x + wall.half.x,
    );
    let cy = clamp_spec(
        ball.center.y as int,
        wall.center.y - wall.half.y,
        wall.center.y + wall.half.y,
    );
    let ox = ball.center.x - cx;
    let oy = ball.center.y - cy;
    let ax = if ox >= 0 {
        ox
    } else {
        -ox
    };
    let ay = if oy >= 0 {
        oy
    } else {
        -oy
    };
    if ox * ox + oy * oy > ball.radius * ball.radius {
        None
    } else if ax > ay {
        if ox < 0 {
            Some(Collision::Right)
        } else {
            Some(Collision::Left)
        }
    } else if oy > 0 {
        Some(Collision::Bottom)
    } else {
        Some(Collision::Top)
    }
}

pub fn collide_with_wall(ball: BoundingCircle, wall: Aabb) -> (c: Option<Collision>)
    requires
        wall.wf(),
        ball.center.within(COORD_LIMIT as int),
        0 <= ball.radius <= COORD_LIMIT,
    ensures
        c == collide_with_wall_spec(ball, wall),
{
    let closest: Vec2 = wall.closest_point(ball.center);
    let ox: i64 = ball.center.x - closest.x;
    let oy: i64 = ball.center.y - closest.y;
    proof {
        assert(0 <= (ox as i128) * (ox as i128) <= 16_000_000_000_000 && 0 <= (oy as i128) * (oy
            as i128) <= 16_000_000_000_000 && 0 <= (ball.radius as i128) * (ball.radius as i128)
            <= 16_000_000_000_000) by (nonlinear_arith)
            requires
                -4_000_000 <= ox as i128 <= 4_000_000,
                -4_000_000 <= oy as i128 <= 4_000_000,
                0 <= ball.radius as i128 <= 4_000_000,
        ;
    }
    if (ox as i128) * (ox as i128) + (oy as i128) * (oy as i128) > (ball.radius as i128) * (
    ball.radius as i128) {
        return None;
    }
    let ax: i64 = if ox >= 0 {
        ox
    } else {
        -ox
    };
    let ay: i64 = if oy >= 0 {
        oy
    } else {
        -oy
    };
    if ax > ay {
        if ox < 0 {
            Some(Collision::Right)
        } else {
            Some(Collision::Left)
        }
    } else if oy > 0 {
        Some(Collision::Bottom)
    } else {
        Some(Collision::Top)
    }
}

/// The x component after one-sided reflection: negated only when the
/// particle is moving into the contacted vertical wall.
pub open spec fn reflect_x_spec(v: Vec2, side: Collision) -> int {
    if (side == Collision::Left && v.x < 0) || (side == Collision::Right && v.x > 0) {
        -(v.x as int)
    } else {
        v.x as int
    }
}

/// The y component after one-sided reflection: negated only when the
/// particle is moving into the contacted horizontal wall.
pub open spec fn reflect_y_spec(v: Vec2, side: Collision) -> int {
    if (side == Collision::Top && v.y > 0) || (side == Collision::Bottom && v.y < 0) {
        -(v.y as int)
    } else {
        v.y as int
    }
}

pub fn reflect(v: Vec2, side: Collision) -> (r: Vec2)
    requires
        v.within(COORD_LIMIT as int),
    ensures
        r.x == reflect_x_spec(v, side),
        r.y == reflect_y_spec(v, side),
        r.within(COORD_LIMIT as int),
{
    let x: i64 = if (matches!(side, Collision::Left) && v.x < 0) || (matches!(side, Collision::Right)
        && v.x > 0) {
        -v.x
    } else {
        v.x
    };
    let y: i64 = if (matches!(side, Collision::Top) && v.y > 0) || (matches!(side, Collision::Bottom)
        && v.y < 0) {
        -v.y
    } else {
        v.y
    };
    Vec2 { x, y }
}

/// One-sided reflection: a particle moving away from (or along) the face it
/// overlaps keeps that velocity component unchanged.
pub proof fn lemma_one_sided_reflection(v: Vec2, side: Collision)
    ensures
        side == Collision::Left && v.x >= 0 ==> reflect_x_spec(v, side) == v.x,
        side == Collision::Right && v.x <= 0 ==> reflect_x_spec(v, side) == v.x,
        side == Collision::Top && v.y <= 0 ==> reflect_y_spec(v, side) == v.y,
        side == Collision::Bottom && v.y >= 0 ==> reflect_y_spec(v, side) == v.y,
        side == Collision::Left || side == Collision::Right ==> reflect_y_spec(v, side) == v.y,
        side == Collision::Top || side == Collision::Bottom ==> reflect_x_spec(v, side) == v.x,
{
}

/// One particle against one wall: detect a contact, reflect one-sidedly,
/// and, when wall thermal exchange is enabled, equilibrate the temperature
/// and hand back the characteristic speed that parameterizes the caller's
/// stochastic resampling draw.  Without a contact the particle is returned
/// unchanged.
pub fn resolve_wall_collision(p: &Particle, wall: &Wall, radius: i64, data: &SimulationData) -> (r:
    (Particle, Option<i64>))
    requires
        p.wf(),
        wall.wf(),
        p.position.within(COORD_LIMIT as int),
        p.velocity.within(COORD_LIMIT as int),
        0 <= radius <= COORD_LIMIT,
        data.valid(),
    ensures
        r.0.wf(),
        r.0.position == p.position,
        r.0.mass == p.mass,
        r.0.molecule == p.molecule,
        r.0.velocity.within(COORD_LIMIT as int),
        match collide_with_wall_spec(
            (BoundingCircle { center: p.position, radius }),
            (Aabb { center: wall.center, half: wall.half }),
        ) {
            None => r.0 == *p && r.1.is_none(),
            Some(side) => {
                &&& r.0.velocity.x == reflect_x_spec(p.velocity, side)
                &&& r.0.velocity.y == reflect_y_spec(p.velocity, side)
                &&& r.0.temperature == (if data.wall_interactions {
                    equilibrated_spec(p.temperature as int, wall.temperature as int)
                } else {
                    p.temperature as int
                })
                &&& r.1 == (if data.wall_interactions {
                    Some(
                        char_speed_spec(
                            p.mass as int,
                            equilibrated_spec(p.temperature as int, wall.temperature as int),
                        ) as i64,
                    )
                } else {
                    None::<i64>
                })
            },
        },
{
    let circle: BoundingCircle = p.get_bounding_circle(radius);
    let bbox: Aabb = wall.get_bounding_box();
    match collide_with_wall(circle, bbox) {
        None => (*p, None),
        Some(side) => {
            let velocity: Vec2 = reflect(p.velocity, side);
            if data.wall_interactions {
                let temperature: i64 = equilibrate(p.temperature, wall.temperature);
                let vc: i64 = characteristic_speed(p.mass, temperature);
                (Particle { velocity, temperature, ..*p }, Some(vc))
            } else {
                (Particle { velocity, ..*p }, None)
            }
        },
    }
}

} // verus!
