//! Simulation setup: the batch of particles a run starts from.  The whole
//! set is created together from the configuration and torn down together on
//! reset; no particle is spawned or despawned during a run.

use vstd::prelude::*;
use rand::Rng;
use crate::geom::Vec2;
use crate::params::SimulationData;
use crate::params::SPAWN_X;
use crate::params::SPAWN_Y;
use crate::particle::Molecule;
use crate::particle::Particle;

verus! {

/// Relies on rand's `Rng::gen_range` on an inclusive `i64` range: it panics
/// only on an empty range and returns a value inside it.  Nothing more is
/// assumed of a random draw.
#[verifier::external_body]
fn random_in_range(lo: i64, hi: i64) -> (r: i64)
    requires
        lo <= hi,
    ensures
        lo <= r <= hi,
{
    rand::thread_rng().gen_range(lo..=hi)
}

/// A uniformly random position inside the spawn box.
pub fn random_position() -> (p: Vec2)
    ensures
        -SPAWN_X <= p.x <= SPAWN_X,
        -SPAWN_Y <= p.y <= SPAWN_Y,
{
    Vec2 { x: random_in_range(-SPAWN_X, SPAWN_X), y: random_in_range(-SPAWN_Y, SPAWN_Y) }
}

/// The species assigned to the particle at a given arena index: oxygen at
/// even indices, methane at odd ones.
pub open spec fn species_for_index(index: int) -> Molecule {
    if index % 2 == 0 {
        Molecule::Oxygen
    } else {
        Molecule::Methane
    }
}

/// The particle batch of a fresh run: exactly the configured count, species
/// assigned by index with the mass from the species lookup, every
/// temperature the configured initial gas temperature, the velocities as
/// supplied by the sampling layer, and positions uniformly random inside
/// the spawn box.
pub fn setup(data: &SimulationData, velocities: &Vec<Vec2>) -> (ps: Vec<Particle>)
    requires
        data.valid(),
        velocities@.len() == data.number_of_balls,
    ensures
        ps@.len() == data.number_of_balls,
        forall|i: int|
            0 <= i < ps@.len() ==> {
                let p = #[trigger] ps@[i];
                &&& p.wf()
                &&& p.molecule == species_for_index(i)
                &&& p.mass == species_for_index(i).mass_spec()
                &&& p.temperature == data.ball_temperature
                &&& p.velocity == velocities@[i]
                &&& -SPAWN_X <= p.position.x <= SPAWN_X
                &&& -SPAWN_Y <= p.position.y <= SPAWN_Y
            },
{
    let n: usize = velocities.len();
    let mut ps: Vec<Particle> = Vec::new();
    let mut i: usize = 0;
    while i < n
        invariant
            data.valid(),
            velocities@.len() == n,
            i <= n,
            ps@.len() == i,
            forall|k: int|
                0 <= k < i ==> {
                    let p = #[trigger] ps@[k];
                    &&& p.wf()
                    &&& p.molecule == species_for_index(k)
                    &&& p.mass == species_for_index(k).mass_spec()
                    &&& p.temperature == data.ball_temperature
                    &&& p.velocity == velocities@[k]
                    &&& -SPAWN_X <= p.position.x <= SPAWN_X
                    &&& -SPAWN_Y <= p.position.y <= SPAWN_Y
                },
        decreases n - i,
    {
        let molecule: Molecule = if i % 2 == 0 {
            Molecule::Oxygen
        } else {
            Molecule::Methane
        };
        let p: Particle = Particle::new(
            molecule,
            data.ball_temperature,
            random_position(),
            velocities[i],
        );
        ps.push(p);
        i = i + 1;
    }
    ps
}

} // verus!
