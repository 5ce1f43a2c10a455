//! Simulation-wide constants and the externally mutable configuration.
//!
//! Lengths (positions, velocities, radii) are plain integer units.
//! Temperatures and the velocity-scaling factor ("reducer") are in
//! thousandths of a unit, so a reducer of `500` scales speeds by one half.

use vstd::prelude::*;
use crate::math::clamp_spec;
use crate::math::clamp_i64;

verus! {

/// One thousandth steps for temperatures and the reducer.
pub const MILLI: i64 = 1000;

/// Boltzmann scale of the model, chosen so that the kinetic relation
/// `T = 3 * m * v * v / (4 * BOLTZMANN)` maps species masses of a few tens
/// and speeds of a few hundreds onto the configured temperature ranges.
pub const BOLTZMANN: i64 = 1000;

// Enclosure geometry.  The four walls are centred on these lines.
pub const WALL_LEFT: i64 = -570;

pub const WALL_RIGHT: i64 = 570;

pub const WALL_TOP: i64 = 350;

pub const WALL_BOTTOM: i64 = -350;

pub const WALL_THICKNESS: i64 = 30;

/// Half of `WALL_THICKNESS`.
pub const WALL_HALF_THICKNESS: i64 = 15;

/// Half the length of a vertical wall's box: half of the enclosure height
/// `WALL_TOP - WALL_BOTTOM` plus `WALL_THICKNESS`.
pub const WALL_HALF_LEN_Y: i64 = 365;

/// Half the length of a horizontal wall's box: half of the enclosure width
/// `WALL_RIGHT - WALL_LEFT` plus `WALL_THICKNESS`.
pub const WALL_HALF_LEN_X: i64 = 585;

/// Radius shared by every particle.
pub const BALL_RADIUS: i64 = 2;

// Particles are placed uniformly inside this box at setup.
pub const SPAWN_X: i64 = 270;

pub const SPAWN_Y: i64 = 140;

// Periodic re-entry: a particle beyond a boundary minus the detection margin
// reappears at the opposite edge plus the placement margin.
pub const WRAP_DETECT: i64 = 15;

pub const WRAP_PLACE: i64 = 20;

// Machine bounds of the integer model.  Coordinates, velocity components and
// masses beyond these would overflow the fixed-width collision arithmetic,
// so the resolvers refuse (skip) such states instead of computing with them.
pub const COORD_LIMIT: i64 = 1_000_000;

pub const MASS_LIMIT: i64 = 1_000_000;

// Temperatures are clamped into this range (in thousandths), the policy for
// an invalid thermal state or an out-of-range configuration value.
pub const TEMP_FLOOR: i64 = 1;

pub const TEMP_CEIL: i64 = 1_000_000_000_000;

// Documented bounds of the configuration surface (temperatures in
// thousandths of a unit).
pub const BALLS_MIN: i64 = 100;

pub const BALLS_MAX: i64 = 10_000;

pub const BALL_TEMP_MIN: i64 = 100;

pub const BALL_TEMP_MAX: i64 = 273_150;

pub const WALL_TEMP_MIN: i64 = 100;

pub const WALL_TEMP_MAX: i64 = 10_000_000;

pub const REDUCER_MIN: i64 = 1;

pub const REDUCER_MAX: i64 = 1_000_000;

/// Largest speed magnitude the resampler accepts from the sampling layer.
pub const SPEED_SAMPLE_CEIL: i64 = 100_000_000;

/// Boundary policy of a run: particles either bounce off the walls or wrap
/// around to the opposite edge.  The two behaviours conflict over the same
/// boundary, so exactly one is active per configuration.
#[derive(Clone, Copy, PartialEq, Eq, Structural, Debug)]
pub enum BoundaryPolicy {
    Bounce,
    Wrap,
}

/// The mutable configuration the engine reads every tick.  The control
/// surface owns it; the core only reads sanitized copies.
#[derive(Clone, Copy, PartialEq, Eq, Structural, Debug)]
pub struct SimulationData {
    /// Velocity-scaling factor applied to resampled speeds, in thousandths.
    pub reducer: i64,
    pub number_of_balls: i64,
    /// Wall temperature in thousandths of a unit.
    pub wall_temperature: i64,
    /// Initial gas temperature in thousandths of a unit.
    pub ball_temperature: i64,
    /// Whether particles thermally equilibrate with the walls on contact.
    pub wall_interactions: bool,
    pub boundary: BoundaryPolicy,
}

impl SimulationData {
    /// Every value inside its documented bound.
    pub open spec fn valid(self) -> bool {
        &&& REDUCER_MIN <= self.reducer <= REDUCER_MAX
        &&& BALLS_MIN <= self.number_of_balls <= BALLS_MAX
        &&& WALL_TEMP_MIN <= self.wall_temperature <= WALL_TEMP_MAX
        &&& BALL_TEMP_MIN <= self.ball_temperature <= BALL_TEMP_MAX
    }

    /// A copy with every out-of-range value clamped to the nearest bound,
    /// the recovery policy for a misconfigured control surface.
    pub fn sanitized(&self) -> (c: SimulationData)
        ensures
            c.valid(),
            c.reducer == clamp_spec(self.reducer as int, REDUCER_MIN as int, REDUCER_MAX as int),
            c.number_of_balls == clamp_spec(
                self.number_of_balls as int,
                BALLS_MIN as int,
                BALLS_MAX as int,
            ),
            c.wall_temperature == clamp_spec(
                self.wall_temperature as int,
                WALL_TEMP_MIN as int,
                WALL_TEMP_MAX as int,
            ),
            c.ball_temperature == clamp_spec(
                self.ball_temperature as int,
                BALL_TEMP_MIN as int,
                BALL_TEMP_MAX as int,
            ),
            c.wall_interactions == self.wall_interactions,
            c.boundary == self.boundary,
    {
        SimulationData {
            reducer: clamp_i64(self.reducer, REDUCER_MIN, REDUCER_MAX),
            number_of_balls: clamp_i64(self.number_of_balls, BALLS_MIN, BALLS_MAX),
            wall_temperature: clamp_i64(self.wall_temperature, WALL_TEMP_MIN, WALL_TEMP_MAX),
            ball_temperature: clamp_i64(self.ball_temperature, BALL_TEMP_MIN, BALL_TEMP_MAX),
            wall_interactions: self.wall_interactions,
            boundary: self.boundary,
        }
    }
}

impl Default for SimulationData {
    /// The configuration a fresh simulation starts from: half-scale rendered
    /// speeds, five thousand particles, walls at 273.15 units, gas at 5
    /// units, thermal exchange on, bouncing boundaries.
    fn default() -> (c: Self)
        ensures
            c == (SimulationData {
                reducer: 500,
                number_of_balls: 5000,
                wall_temperature: 273_150,
                ball_temperature: 5000,
                wall_interactions: true,
                boundary: BoundaryPolicy::Bounce,
            }),
            c.valid(),
    {
        SimulationData {
            reducer: 500,
            number_of_balls: 5000,
            wall_temperature: 273_150,
            ball_temperature: 5000,
            wall_interactions: true,
            boundary: BoundaryPolicy::Bounce,
        }
    }
}

} // verus!
