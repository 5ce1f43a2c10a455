//! The particle record and the closed set of species it can belong to.

use vstd::prelude::*;
use crate::geom::BoundingCircle;
use crate::geom::Vec2;
use crate::math::clamp_spec;
use crate::math::clamp_i64;
use crate::params::MASS_LIMIT;
use crate::params::TEMP_CEIL;
use crate::params::TEMP_FLOOR;

verus! {

/// The species a particle can be; each maps to a fixed positive mass.
#[derive(Clone, Copy, PartialEq, Eq, Structural, Debug)]
pub enum Molecule {
    Methane,
    Oxygen,
    Formaldehyde,
    CarbonDioxide,
}

impl Molecule {
    /// Mass lookup table, in relative molecular mass units.
    pub open spec fn mass_spec(self) -> int {
        match self {
            Molecule::Methane => 16,
            Molecule::Oxygen => 32,
            Molecule::Formaldehyde => 30,
            Molecule::CarbonDioxide => 44,
        }
    }

    pub fn mass(&self) -> (m: i64)
        ensures
            m == self.mass_spec(),
            1 <= m <= MASS_LIMIT,
    {
        match self {
            Molecule::Methane => 16,
            Molecule::Oxygen => 32,
            Molecule::Formaldehyde => 30,
            Molecule::CarbonDioxide => 44,
        }
    }
}

/// One molecule of the gas.  Its identity is its index in the particle
/// arena; no record refers to another.
#[derive(Clone, Copy, PartialEq, Eq, Structural, Debug)]
pub struct Particle {
    pub position: Vec2,
    pub velocity: Vec2,
    /// Fixed positive mass, derived from the species.
    pub mass: i64,
    /// Temperature in thousandths of a unit, always positive.
    pub temperature: i64,
    pub molecule: Molecule,
}

impl Particle {
    /// The record invariant: positive bounded mass, positive temperature.
    pub open spec fn wf(self) -> bool {
        &&& 1 <= self.mass <= MASS_LIMIT
        &&& TEMP_FLOOR <= self.temperature <= TEMP_CEIL
    }

    /// A fresh particle of the given species.  The mass comes from the
    /// species lookup; an out-of-range temperature is clamped, the policy
    /// for an invalid thermal state.
    pub fn new(molecule: Molecule, temperature: i64, position: Vec2, velocity: Vec2) -> (p:
        Particle)
        ensures
            p.molecule == molecule,
            p.mass == molecule.mass_spec(),
            p.temperature == clamp_spec(temperature as int, TEMP_FLOOR as int, TEMP_CEIL as int),
            p.position == position,
            p.velocity == velocity,
            p.wf(),
    {
        Particle {
            position,
            velocity,
            mass: molecule.mass(),
            temperature: clamp_i64(temperature, TEMP_FLOOR, TEMP_CEIL),
            molecule,
        }
    }

    /// The circle the broad and wall phases collide with.
    pub fn get_bounding_circle(&self, radius: i64) -> (c: BoundingCircle)
        ensures
            c.center == self.position,
            c.radius == radius,
    {
        BoundingCircle { center: self.position, radius }
    }

    /// Squared speed, the quantity the thermal model works with.
    pub open spec fn speed_sq(self) -> int {
        self.velocity.norm_sq()
    }
}

} // verus!
