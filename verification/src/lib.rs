//! Core of a 2-D kinetic gas simulation: particles bounce inside a fixed
//! rectangular enclosure, exchange momentum and a simple notion of thermal
//! energy on contact, and feed a speed histogram.
//!
//! All quantities are integers in fixed simulation units: positions and
//! velocities in plain length units, temperatures in thousandths of a unit,
//! and the velocity-scaling factor ("reducer") in thousandths.  Working over
//! integers keeps every step of the model exact, so the conservation laws of
//! the elastic collision model can be stated and proved as equalities of
//! rational numbers rather than approximations.

pub mod broad_phase;
pub mod conservation;
pub mod geom;
pub mod histogram;
pub mod integrate;
pub mod math;
pub mod narrow_phase;
pub mod params;
pub mod particle;
pub mod setup;
pub mod thermal;
pub mod wall;
