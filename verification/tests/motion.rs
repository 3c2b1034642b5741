use fluid_sim::fixed::Fixed;
use fluid_sim::motion::{advance, euler_step};
use fluid_sim::params::Params;
use fluid_sim::particle::Particle;
use fluid_sim::rng::range;
use fluid_sim::vec2::Vec2;

fn moving(x: i32, y: i32, vx: i32, vy: i32) -> Particle {
    let mut p = Particle::new(
        Vec2::new(Fixed::from_int(x), Fixed::from_int(y)),
        Vec2::new(Fixed::from_int(vx), Fixed::from_int(vy)),
    );
    p.density = Fixed::from_int(1);
    p
}

fn place(p: &Particle) -> (i64, i64, i64, i64) {
    (p.position.x.raw, p.position.y.raw, p.velocity.x.raw, p.velocity.y.raw)
}

#[test]
fn a_draw_picks_a_point_of_the_interval() {
    let one = Fixed::from_int(1);
    let four = Fixed::from_int(4);
    assert_eq!(range(0, one, four).raw, 1_000_000);
    assert_eq!(range(u64::MAX, one, four).raw, 4_000_000);
    assert_eq!(range(1 << 63, one, four).raw, 2_500_000);
    assert_eq!(range(1 << 62, Fixed::from_int(600), Fixed::from_int(650)).raw, 612_500_000);
    assert_eq!(
        range(12_345_678_901_234_567_890, Fixed::from_int(-3), Fixed::from_int(5)).raw,
        2_354_084
    );
    assert_eq!(range(1, Fixed::from_int(5), Fixed::from_int(-3)).raw, 5_000_000);
    assert_eq!(range(u64::MAX, Fixed::from_int(5), Fixed::from_int(-3)).raw, -3_000_000);
}

#[test]
fn euler_step_updates_velocity_first() {
    let params = Params::standard();
    let mut p = moving(500, 300, 1, 1);
    p.force = Vec2::new(Fixed::from_int(1000), Fixed::from_int(-2000));
    p.density = Fixed::from_int(2);
    let m = euler_step(&p, &params);
    assert_eq!((m.velocity.x.raw, m.velocity.y.raw), (1_400_000, 200_000));
    assert_eq!((m.position.x.raw, m.position.y.raw), (500_001_120, 300_000_160));
    assert_eq!(m.draws_taken, 0);
    let r = advance(&p, &params, 0, 0);
    assert_eq!(place(&r), (500_001_120, 300_000_160, 1_400_000, 200_000));
    assert_eq!(r.force, p.force);
    assert_eq!(r.density, p.density);
    assert_eq!(r.pressure, p.pressure);
}

#[test]
fn free_flight_keeps_the_velocity() {
    let r = advance(&moving(500, 300, 2, -1), &Params::standard(), 9, 9);
    assert_eq!(place(&r), (500_001_600, 299_999_200, 2_000_000, -1_000_000));
}

#[test]
fn left_edge_reflects_and_damps() {
    let r = advance(&moving(15, 300, -5, 0), &Params::standard(), 0, 0);
    assert_eq!(place(&r), (16_000_000, 300_000_000, 2_500_000, 0));
}

#[test]
fn right_edge_reflects_and_damps() {
    let r = advance(&moving(1190, 300, 20, 0), &Params::standard(), 0, 0);
    assert_eq!(place(&r), (1_184_000_000, 300_000_000, -10_000_000, 0));
}

#[test]
fn edge_at_zero_height_adds_jitter() {
    let params = Params::standard();
    let p = moving(500, 10, 0, -3);
    assert_eq!(place(&advance(&p, &params, 0, u64::MAX)), (500_000_000, 17_000_000, 0, 1_500_000));
    assert_eq!(place(&advance(&p, &params, u64::MAX, 0)), (500_000_000, 18_000_000, 0, 1_500_000));
    assert_eq!(place(&advance(&p, &params, 1 << 63, 0)), (500_000_000, 17_500_000, 0, 1_500_000));
}

#[test]
fn edge_at_full_height_reflects() {
    let r = advance(&moving(500, 890, 0, 8), &Params::standard(), 0, 0);
    assert_eq!(place(&r), (500_000_000, 884_000_000, 0, -4_000_000));
}

#[test]
fn inlet_blocks_from_below_its_upper_edge() {
    let r = advance(&moving(200, 640, 0, 4), &Params::standard(), 0, 0);
    assert_eq!(place(&r), (200_000_000, 634_000_000, 0, -2_000_000));
}

#[test]
fn inlet_blocks_from_above_its_lower_edge() {
    let r = advance(&moving(200, 610, 0, -4), &Params::standard(), 0, 0);
    assert_eq!(place(&r), (200_000_000, 616_000_000, 0, 2_000_000));
}

#[test]
fn inlet_blocks_at_its_left_edge_with_jitter() {
    let r = advance(&moving(110, 620, -6, 0), &Params::standard(), 1 << 63, 0);
    assert_eq!(place(&r), (118_500_000, 620_000_000, 3_000_000, 0));
}

#[test]
fn inlet_lets_pass_what_moves_away() {
    let params = Params::standard();
    assert_eq!(
        place(&advance(&moving(200, 640, 0, -4), &params, 0, 0)),
        (200_000_000, 639_996_800, 0, -4_000_000)
    );
    assert_eq!(
        place(&advance(&moving(110, 620, 6, 0), &params, 0, 0)),
        (110_004_800, 620_000_000, 6_000_000, 0)
    );
    assert_eq!(
        place(&advance(&moving(400, 640, 0, 4), &params, 0, 0)),
        (400_000_000, 640_003_200, 0, 4_000_000)
    );
}

#[test]
fn second_correction_takes_the_second_draw() {
    let mut params = Params::standard();
    params.hose.bottom = Fixed::from_int(-10);
    let p = moving(110, 10, -6, -3);
    assert_eq!(
        place(&advance(&p, &params, u64::MAX, 1 << 63)),
        (118_500_000, 18_000_000, 3_000_000, 1_500_000)
    );
    assert_eq!(
        place(&advance(&p, &params, 0, u64::MAX)),
        (120_000_000, 17_000_000, 3_000_000, 1_500_000)
    );
}

#[test]
fn a_particle_without_density_is_still_contained() {
    let mut p = moving(500, 300, 0, 0);
    p.density = Fixed::zero();
    p.force = Vec2::new(Fixed::from_int(1), Fixed::from_int(-1));
    let r = advance(&p, &Params::standard(), 0, 0);
    assert_eq!(
        place(&r),
        (1_184_000_000, 17_000_000, -4_611_686_018_427_387_903, 4_611_686_018_427_387_904)
    );
}

#[test]
fn every_particle_ends_inside_the_margins() {
    let params = Params::standard();
    let h = params.smoothing_radius.raw;
    let speeds = [-2_000_000_000, -7, 0, 7, 2_000_000_000];
    for x in [-50, 0, 15, 16, 110, 299, 600, 1184, 1185, 1300] {
        for y in [-50, 0, 15, 16, 599, 610, 640, 651, 884, 885, 1000] {
            for vx in speeds {
                for vy in speeds {
                    let r = advance(&moving(x, y, vx, vy), &params, 3, u64::MAX);
                    assert!(h <= r.position.x.raw && r.position.x.raw <= params.view_width.raw - h);
                    assert!(h <= r.position.y.raw && r.position.y.raw <= params.view_height.raw - h);
                }
            }
        }
    }
}
