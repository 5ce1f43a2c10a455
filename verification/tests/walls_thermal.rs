use kinetic_gas::geom::Aabb;
use kinetic_gas::geom::BoundingCircle;
use kinetic_gas::geom::Vec2;
use kinetic_gas::params::BoundaryPolicy;
use kinetic_gas::params::SimulationData;
use kinetic_gas::particle::Molecule;
use kinetic_gas::particle::Particle;
use kinetic_gas::thermal::characteristic_speed;
use kinetic_gas::thermal::resample_velocity;
use kinetic_gas::thermal::temperature_from_velocity;
use kinetic_gas::wall::collide_with_wall;
use kinetic_gas::wall::reflect;
use kinetic_gas::wall::resolve_wall_collision;
use kinetic_gas::wall::Collision;
use kinetic_gas::wall::Wall;
use kinetic_gas::wall::WallLocation;

fn config(wall_interactions: bool) -> SimulationData {
    SimulationData {
        reducer: 1000,
        number_of_balls: 100,
        wall_temperature: 2_730_150,
        ball_temperature: 10_000,
        wall_interactions,
        boundary: BoundaryPolicy::Bounce,
    }
}

/// The four walls sit on the enclosure's boundary lines with the derived
/// half-extents.
#[test]
fn wall_geometry_follows_location() {
    let left = Wall::new(WallLocation::Left, 273_150);
    assert_eq!((left.center.x, left.center.y), (-570, 0));
    assert_eq!((left.half.x, left.half.y), (15, 365));
    let top = Wall::new(WallLocation::Top, 273_150);
    assert_eq!((top.center.x, top.center.y), (0, 350));
    assert_eq!((top.half.x, top.half.y), (585, 15));
    // An out-of-range wall temperature is clamped to the nearest bound.
    let cold = Wall::new(WallLocation::Bottom, -40);
    assert_eq!(cold.temperature, 1);
}

/// A circle clear of the box reports no contact; one pressed against each
/// face reports that face.
#[test]
fn contact_faces_follow_the_offset() {
    let bx = Aabb { center: Vec2 { x: 0, y: 0 }, half: Vec2 { x: 10, y: 10 } };
    let far = BoundingCircle { center: Vec2 { x: 100, y: 0 }, radius: 5 };
    assert!(collide_with_wall(far, bx).is_none());

    let from_left = BoundingCircle { center: Vec2 { x: -13, y: 0 }, radius: 5 };
    assert_eq!(collide_with_wall(from_left, bx).unwrap(), Collision::Right);
    let from_right = BoundingCircle { center: Vec2 { x: 13, y: 0 }, radius: 5 };
    assert_eq!(collide_with_wall(from_right, bx).unwrap(), Collision::Left);
    let from_below = BoundingCircle { center: Vec2 { x: 0, y: -13 }, radius: 5 };
    assert_eq!(collide_with_wall(from_below, bx).unwrap(), Collision::Top);
    let from_above = BoundingCircle { center: Vec2 { x: 0, y: 13 }, radius: 5 };
    assert_eq!(collide_with_wall(from_above, bx).unwrap(), Collision::Bottom);
}

/// One-sided reflection: only motion into the contacted wall is reversed;
/// a particle already moving away keeps its velocity on that axis.
#[test]
fn reflection_is_one_sided() {
    let into_right = reflect(Vec2 { x: 50, y: 7 }, Collision::Right);
    assert_eq!((into_right.x, into_right.y), (-50, 7));
    let away_from_right = reflect(Vec2 { x: -50, y: 7 }, Collision::Right);
    assert_eq!((away_from_right.x, away_from_right.y), (-50, 7));

    let into_top = reflect(Vec2 { x: 3, y: 40 }, Collision::Top);
    assert_eq!((into_top.x, into_top.y), (3, -40));
    let away_from_top = reflect(Vec2 { x: 3, y: -40 }, Collision::Top);
    assert_eq!((away_from_top.x, away_from_top.y), (3, -40));
}

/// With thermal exchange disabled a wall contact only reflects: no
/// temperature change and no resampling request.
#[test]
fn wall_bounce_without_exchange_keeps_temperature() {
    let p = Particle::new(
        Molecule::Oxygen,
        10_000,
        Vec2 { x: 550, y: 0 },
        Vec2 { x: 50, y: 0 },
    );
    let wall = Wall::new(WallLocation::Right, 2_730_150);
    let (after, vc) = resolve_wall_collision(&p, &wall, 5, &config(false));
    assert!(vc.is_none());
    assert_eq!((after.velocity.x, after.velocity.y), (-50, 0));
    assert_eq!(after.temperature, 10_000);
}

/// With thermal exchange enabled the contact averages the temperatures and
/// asks for a resample at the characteristic speed of the new state.
#[test]
fn wall_exchange_equilibrates_and_requests_resample() {
    let p = Particle::new(
        Molecule::Oxygen,
        10_000,
        Vec2 { x: 550, y: 0 },
        Vec2 { x: 50, y: 0 },
    );
    let wall = Wall::new(WallLocation::Right, 2_730_150);
    let (after, vc) = resolve_wall_collision(&p, &wall, 5, &config(true));
    assert_eq!(after.temperature, 1_370_075);
    assert_eq!(vc.unwrap(), characteristic_speed(32, 1_370_075));
    assert_eq!((after.velocity.x, after.velocity.y), (-50, 0));
}

/// A particle nowhere near a wall passes through the resolver unchanged.
#[test]
fn no_contact_leaves_the_particle_alone() {
    let p = Particle::new(Molecule::Methane, 10_000, Vec2 { x: 0, y: 0 }, Vec2 { x: 5, y: 5 });
    let wall = Wall::new(WallLocation::Right, 2_730_150);
    let (after, vc) = resolve_wall_collision(&p, &wall, 5, &config(true));
    assert!(vc.is_none());
    assert_eq!(after, p);
}

/// The characteristic speed follows `sqrt(4 k T / (3 m))` exactly: mass 32
/// at five units gives floor(sqrt(20000000 / 96)) = 456.
#[test]
fn characteristic_speed_matches_the_kinetic_relation() {
    assert_eq!(characteristic_speed(32, 5000), 456);
}

/// An invalid thermal state is clamped to the smallest positive value
/// instead of producing an undefined sample parameter, and the result is
/// never negative or zero.
#[test]
fn invalid_thermal_state_is_clamped_positive() {
    let v = characteristic_speed(0, -5);
    // mass and temperature clamp to one: floor(sqrt(4000 / 3)) = 36.
    assert_eq!(v, 36);
    assert!(characteristic_speed(1_000_000, 1) >= 1);
    assert!(characteristic_speed(-7, 0) >= 1);
}

/// Resampling keeps the direction and takes the sampled magnitude: a (3, 4)
/// direction resampled at speed ten with unit reducer becomes (6, 8).
#[test]
fn resampling_preserves_direction_and_magnitude() {
    let p = Particle::new(Molecule::Oxygen, 5000, Vec2 { x: 0, y: 0 }, Vec2 { x: 3, y: 4 });
    let q = resample_velocity(&p, 10, 1000);
    assert_eq!((q.velocity.x, q.velocity.y), (6, 8));
    let r = resample_velocity(
        &Particle::new(Molecule::Oxygen, 5000, Vec2 { x: 0, y: 0 }, Vec2 { x: -3, y: -4 }),
        10,
        1000,
    );
    assert_eq!((r.velocity.x, r.velocity.y), (-6, -8));
    // The configured reducer scales the resampled speed: one half here.
    let s = resample_velocity(&p, 10, 500);
    assert_eq!((s.velocity.x, s.velocity.y), (3, 4));
    // A zero velocity has no direction to preserve.
    let z = resample_velocity(
        &Particle::new(Molecule::Oxygen, 5000, Vec2 { x: 0, y: 0 }, Vec2 { x: 0, y: 0 }),
        10,
        1000,
    );
    assert_eq!((z.velocity.x, z.velocity.y), (0, 0));
}

/// The post-collision temperature follows the kinetic relation on the
/// unscaled speed: mass 32 at rendered speed 100 with unit reducer gives
/// 3 * 32 * 10000 / 4000 = 240 thousandths.
#[test]
fn temperature_tracks_the_unscaled_speed() {
    assert_eq!(temperature_from_velocity(32, Vec2 { x: 100, y: 0 }, 1000), 240);
    // A reducer of one half doubles the unscaled speed, quadrupling q.
    assert_eq!(temperature_from_velocity(32, Vec2 { x: 100, y: 0 }, 500), 960);
}
