use kinetic_gas::broad_phase::broad_phase_collision;
use kinetic_gas::broad_phase::candidate_pairs;
use kinetic_gas::broad_phase::sort_indices_by_x;
use kinetic_gas::geom::Vec2;
use kinetic_gas::histogram::speed_values;
use kinetic_gas::histogram::update_graph_data;
use kinetic_gas::integrate::update_positions;
use kinetic_gas::params::BoundaryPolicy;
use kinetic_gas::params::SimulationData;
use kinetic_gas::particle::Molecule;
use kinetic_gas::particle::Particle;

fn at(x: i64, y: i64) -> Particle {
    Particle::new(Molecule::Oxygen, 5000, Vec2 { x, y }, Vec2 { x: 0, y: 0 })
}

fn moving(x: i64, y: i64, vx: i64, vy: i64) -> Particle {
    Particle::new(Molecule::Oxygen, 5000, Vec2 { x, y }, Vec2 { x: vx, y: vy })
}

/// The index sort orders particles by ascending x without moving them.
#[test]
fn sweep_sorts_indices_by_x() {
    let ps = vec![at(50, 0), at(-10, 3), at(20, -7), at(0, 0)];
    let ord = sort_indices_by_x(&ps);
    assert_eq!(ord, vec![1, 3, 2, 0]);
}

/// Only adjacent pairs in sort order within `(2 * radius)^2` are proposed.
#[test]
fn sweep_reports_adjacent_pairs_in_range() {
    let ps = vec![at(0, 0), at(8, 0), at(100, 0), at(104, 30)];
    let ord = sort_indices_by_x(&ps);
    let pairs = candidate_pairs(&ps, &ord, 5);
    // 0 and 1 are eight apart (within ten); 2 and 3 overlap on x but are
    // more than ten apart in the plane.
    assert_eq!(pairs, vec![(0, 1)]);
}

/// The adjacent-only sweep is a documented simplification: of three
/// particles all within range of each other it reports the two adjacent
/// pairs and misses the outer one.
#[test]
fn sweep_misses_the_outer_pair_of_a_cluster() {
    let ps = vec![at(0, 0), at(1, 0), at(2, 0)];
    let pairs = broad_phase_collision(&ps, 5);
    assert_eq!(pairs, vec![(0, 1), (1, 2)]);
}

/// Positions advance by velocity times the rational time step, rounded to
/// the nearest unit.
#[test]
fn integrator_advances_by_velocity_times_dt() {
    let mut ps = vec![moving(10, 20, 30, -41)];
    update_positions(&mut ps, 500, 1000, BoundaryPolicy::Bounce);
    // x: 10 + 15; y: 20 + round(-20.5) = 20 - 21 rounded away from zero.
    assert_eq!((ps[0].position.x, ps[0].position.y), (25, -1));
    assert_eq!((ps[0].velocity.x, ps[0].velocity.y), (30, -41));
}

/// Under the periodic policy a particle crossing a boundary reappears at
/// the opposite edge; under the bouncing policy it does not wrap.
#[test]
fn periodic_policy_wraps_at_the_boundary() {
    let mut wrapped = vec![moving(556, 40, 0, 0)];
    update_positions(&mut wrapped, 0, 1000, BoundaryPolicy::Wrap);
    assert_eq!((wrapped[0].position.x, wrapped[0].position.y), (-550, 40));

    let mut low = vec![moving(7, -336, 0, 0)];
    update_positions(&mut low, 0, 1000, BoundaryPolicy::Wrap);
    assert_eq!((low[0].position.x, low[0].position.y), (7, 330));

    let mut bouncing = vec![moving(556, 40, 0, 0)];
    update_positions(&mut bouncing, 0, 1000, BoundaryPolicy::Bounce);
    assert_eq!((bouncing[0].position.x, bouncing[0].position.y), (556, 40));
}

/// Speed magnitudes are the floor square root of the squared velocity,
/// unscaled by the reducer.
#[test]
fn speed_values_unscale_by_the_reducer() {
    let ps = vec![moving(0, 0, 3, 4), moving(0, 0, 0, -7)];
    let vals = speed_values(&ps, 500);
    assert_eq!(vals, vec![10, 14]);
    let unit = speed_values(&ps, 1000);
    assert_eq!(unit, vec![5, 7]);
}

/// The histogram spans the observed minimum and maximum with equal-width
/// buckets and counts every value exactly once.
#[test]
fn histogram_counts_values_into_equal_buckets() {
    let values = vec![1, 2, 3, 10];
    let counts = update_graph_data(&values, 2);
    assert_eq!(counts, vec![3, 1]);

    let all_equal = vec![4, 4, 4];
    assert_eq!(update_graph_data(&all_equal, 3), vec![3, 0, 0]);

    let spread = vec![0, 9, 5, 3, 7];
    let counts3 = update_graph_data(&spread, 5);
    let total: usize = counts3.iter().sum();
    assert_eq!(total, 5);
}

/// Out-of-range configuration values clamp to the nearest documented
/// bound; in-range ones pass through.
#[test]
fn configuration_values_clamp_to_their_bounds() {
    let wild = SimulationData {
        reducer: 0,
        number_of_balls: 5,
        wall_temperature: 99,
        ball_temperature: 400_000,
        wall_interactions: true,
        boundary: BoundaryPolicy::Wrap,
    };
    let c = wild.sanitized();
    assert_eq!(c.reducer, 1);
    assert_eq!(c.number_of_balls, 100);
    assert_eq!(c.wall_temperature, 100);
    assert_eq!(c.ball_temperature, 273_150);
    assert!(c.wall_interactions);
    assert_eq!(c.boundary, BoundaryPolicy::Wrap);

    let big = SimulationData {
        reducer: 9_000_000,
        number_of_balls: 20_000,
        wall_temperature: 99_000_000,
        ball_temperature: 50,
        wall_interactions: false,
        boundary: BoundaryPolicy::Bounce,
    };
    let b = big.sanitized();
    assert_eq!(b.reducer, 1_000_000);
    assert_eq!(b.number_of_balls, 10_000);
    assert_eq!(b.wall_temperature, 10_000_000);
    assert_eq!(b.ball_temperature, 100);
    assert!(!b.wall_interactions);

    let fine = SimulationData::default();
    assert_eq!(fine.sanitized(), fine);
    assert_eq!(fine.number_of_balls, 5000);
    assert_eq!(fine.reducer, 500);
    assert_eq!(fine.wall_temperature, 273_150);
    assert_eq!(fine.ball_temperature, 5000);
}
