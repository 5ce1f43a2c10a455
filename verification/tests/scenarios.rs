use kinetic_gas::broad_phase::broad_phase_collision;
use kinetic_gas::geom::Aabb;
use kinetic_gas::geom::BoundingCircle;
use kinetic_gas::geom::Vec2;
use kinetic_gas::narrow_phase::after_collision_velocities;
use kinetic_gas::params::BoundaryPolicy;
use kinetic_gas::params::SimulationData;
use kinetic_gas::particle::Molecule;
use kinetic_gas::particle::Particle;
use kinetic_gas::setup::setup;
use kinetic_gas::thermal::equilibrate;
use kinetic_gas::wall::collide_with_wall;
use kinetic_gas::wall::reflect;
use kinetic_gas::wall::Collision;

fn particle_at(x: i64, y: i64, vx: i64, vy: i64, molecule: Molecule) -> Particle {
    Particle::new(molecule, 5000, Vec2 { x, y }, Vec2 { x: vx, y: vy })
}

/// Two equal-mass particles closing head-on at distance six with radius
/// five: the broad phase flags the pair and the narrow phase swaps the
/// velocities exactly.
#[test]
fn head_on_pair_is_flagged_and_swapped() {
    let p1 = particle_at(-3, 0, 2, 0, Molecule::Oxygen);
    let p2 = particle_at(3, 0, -2, 0, Molecule::Oxygen);
    let ps = vec![p1, p2];

    let pairs = broad_phase_collision(&ps, 5);
    assert_eq!(pairs.len(), 1);
    assert_eq!(pairs[0], (0usize, 1usize));

    let (w1, w2) = after_collision_velocities(&p1, &p2).unwrap();
    assert_eq!((w1.x, w1.y), (-2, 0));
    assert_eq!((w2.x, w2.y), (2, 0));
}

/// A particle at x = 565 with radius five against a wall whose inner face
/// sits at x = 570 (half-thickness five): the contact face is the right
/// one, and the incoming (50, 0) velocity leaves as (-50, 0).
#[test]
fn right_wall_contact_reflects_incoming_velocity() {
    let ball = BoundingCircle { center: Vec2 { x: 565, y: 0 }, radius: 5 };
    let wall_box = Aabb { center: Vec2 { x: 575, y: 0 }, half: Vec2 { x: 5, y: 350 } };

    let face = collide_with_wall(ball, wall_box).unwrap();
    assert_eq!(face, Collision::Right);

    let out = reflect(Vec2 { x: 50, y: 0 }, face);
    assert_eq!((out.x, out.y), (-50, 0));
}

/// Wall thermal exchange averages the particle's and the wall's
/// temperatures: 10 units and 2730.15 units meet at exactly 1370.075.
#[test]
fn wall_exchange_averages_temperatures_exactly() {
    assert_eq!(equilibrate(10_000, 2_730_150), 1_370_075);
}

/// Each species maps to its fixed positive lookup mass.
#[test]
fn species_masses_follow_the_lookup_table() {
    assert_eq!(Molecule::Methane.mass(), 16);
    assert_eq!(Molecule::Oxygen.mass(), 32);
    assert_eq!(Molecule::Formaldehyde.mass(), 30);
    assert_eq!(Molecule::CarbonDioxide.mass(), 44);
}

/// A configuration asking for one hundred particles yields exactly one
/// hundred, each carrying its species' lookup mass and the configured
/// initial temperature.
#[test]
fn setup_creates_requested_count_with_lookup_masses() {
    let data = SimulationData {
        reducer: 500,
        number_of_balls: 100,
        wall_temperature: 273_150,
        ball_temperature: 5000,
        wall_interactions: true,
        boundary: BoundaryPolicy::Bounce,
    };
    let velocities = vec![Vec2 { x: 0, y: 0 }; 100];

    let ps = setup(&data, &velocities);
    assert_eq!(ps.len(), 100);
    for (i, p) in ps.iter().enumerate() {
        if i % 2 == 0 {
            assert_eq!(p.molecule, Molecule::Oxygen);
            assert_eq!(p.mass, 32);
        } else {
            assert_eq!(p.molecule, Molecule::Methane);
            assert_eq!(p.mass, 16);
        }
        assert_eq!(p.temperature, 5000);
        assert!(p.position.x >= -270 && p.position.x <= 270);
        assert!(p.position.y >= -140 && p.position.y <= 140);
    }
}
