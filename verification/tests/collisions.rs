use kinetic_gas::geom::Vec2;
use kinetic_gas::narrow_phase::after_collision_velocities;
use kinetic_gas::narrow_phase::check_between_ball_collisions;
use kinetic_gas::narrow_phase::collide_pair;
use kinetic_gas::particle::Molecule;
use kinetic_gas::particle::Particle;

fn particle(x: i64, y: i64, vx: i64, vy: i64, molecule: Molecule) -> Particle {
    Particle::new(molecule, 5000, Vec2 { x, y }, Vec2 { x: vx, y: vy })
}

/// Equal masses along the x axis exchange their normal (x) components and
/// keep the tangential (y) ones; the integer outcome is exact here, so
/// momentum is conserved on the nose.
#[test]
fn equal_mass_collision_swaps_normal_components() {
    let p1 = particle(0, 0, 1, 1, Molecule::Oxygen);
    let p2 = particle(2, 0, -1, 2, Molecule::Oxygen);

    let (w1, w2) = after_collision_velocities(&p1, &p2).unwrap();
    assert_eq!((w1.x, w1.y), (-1, 1));
    assert_eq!((w2.x, w2.y), (1, 2));

    let m = p1.mass;
    assert_eq!(m * p1.velocity.x + m * p2.velocity.x, m * w1.x + m * w2.x);
    assert_eq!(m * p1.velocity.y + m * p2.velocity.y, m * w1.y + m * w2.y);

    let energy_before = m * (1 + 1) + m * (1 + 4);
    let energy_after = m * (w1.x * w1.x + w1.y * w1.y) + m * (w2.x * w2.x + w2.y * w2.y);
    assert_eq!(energy_before, energy_after);
}

/// Unequal masses, one-dimensional: masses 32 and 16 with speeds 3 and -3
/// resolve to the exact elastic outcome (-1, 0) and (5, 0), conserving
/// momentum and energy exactly.
#[test]
fn unequal_mass_collision_conserves_momentum_and_energy() {
    let p1 = particle(0, 0, 3, 0, Molecule::Oxygen);
    let p2 = particle(4, 0, -3, 0, Molecule::Methane);

    let (w1, w2) = after_collision_velocities(&p1, &p2).unwrap();
    assert_eq!((w1.x, w1.y), (-1, 0));
    assert_eq!((w2.x, w2.y), (5, 0));

    assert_eq!(32 * 3 + 16 * (-3), 32 * w1.x + 16 * w2.x);
    assert_eq!(32 * 9 + 16 * 9, 32 * w1.x * w1.x + 16 * w2.x * w2.x);
}

/// Two particles at the same position have no collision normal: the pair
/// is refused rather than resolved.
#[test]
fn coincident_pair_is_refused() {
    let p1 = particle(7, 7, 1, 0, Molecule::Oxygen);
    let p2 = particle(7, 7, -1, 0, Molecule::Oxygen);
    assert!(after_collision_velocities(&p1, &p2).is_none());
    assert!(collide_pair(&p1, &p2, 1000).is_none());
}

/// The full pair resolution updates each particle's temperature from its
/// own new speed: after the swap each keeps a speed of three, and with
/// reducer one the kinetic relation gives 3 * m * 9 / 4000 clamped to the
/// positive floor.
#[test]
fn pair_resolution_updates_each_temperature_from_own_speed() {
    let p1 = particle(0, 0, 3, 0, Molecule::Oxygen);
    let p2 = particle(2, 0, -3, 0, Molecule::Oxygen);

    let (q1, q2) = collide_pair(&p1, &p2, 1000).unwrap();
    assert_eq!((q1.velocity.x, q1.velocity.y), (-3, 0));
    assert_eq!((q2.velocity.x, q2.velocity.y), (3, 0));
    // 3 * 32 * 9 / 4000 rounds down to zero, clamped to the floor of one.
    assert_eq!(q1.temperature, 1);
    assert_eq!(q2.temperature, 1);
}

/// Resolving a list of candidate pairs applies them in order over the
/// arena and leaves untouched particles alone.
#[test]
fn pair_list_is_applied_in_order() {
    let mut ps = vec![
        particle(0, 0, 2, 0, Molecule::Oxygen),
        particle(2, 0, -2, 0, Molecule::Oxygen),
        particle(100, 100, 9, 9, Molecule::CarbonDioxide),
    ];
    let pairs = vec![(0usize, 1usize)];
    check_between_ball_collisions(&mut ps, &pairs, 1000);
    assert_eq!((ps[0].velocity.x, ps[0].velocity.y), (-2, 0));
    assert_eq!((ps[1].velocity.x, ps[1].velocity.y), (2, 0));
    assert_eq!((ps[2].velocity.x, ps[2].velocity.y), (9, 9));
    assert_eq!(ps[2].temperature, 5000);
}

/// A velocity far beyond the machine bounds of the collision arithmetic is
/// refused instead of resolved.
#[test]
fn out_of_bounds_state_is_refused() {
    let p1 = particle(0, 0, 2_000_000, 0, Molecule::Oxygen);
    let p2 = particle(2, 0, -2, 0, Molecule::Oxygen);
    assert!(after_collision_velocities(&p1, &p2).is_none());
}
