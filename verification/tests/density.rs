use fluid_sim::density::{density_pressure, density_term, pressure_of, radius_squared};
use fluid_sim::fixed::Fixed;
use fluid_sim::kernel::KernelConstants;
use fluid_sim::params::Params;
use fluid_sim::particle::Particle;
use fluid_sim::solver::Solver;
use fluid_sim::vec2::Vec2;

fn at(x: i32, y: i32) -> Particle {
    Particle::new(Vec2::new(Fixed::from_int(x), Fixed::from_int(y)), Vec2::zero())
}

fn setup() -> (Params, KernelConstants) {
    let params = Params::standard();
    (params, KernelConstants::new(params.smoothing_radius))
}

#[test]
fn radius_squared_of_sixteen() {
    assert_eq!(radius_squared(&Params::standard()).raw, 256_000_000);
}

#[test]
fn isolated_particle_has_only_its_own_term() {
    let (params, kernel) = setup();
    let own = density_term(Vec2::zero(), Vec2::zero(), &params, &kernel);
    assert_eq!(own.raw, 24_861);
    let p = at(15, 300);
    let far = at(400, 300);
    let r = density_pressure(&p, &vec![p, far], &params, &kernel);
    assert_eq!(r.density.raw, 1 + 24_861);
    assert_eq!(r.pressure.raw, -1_999_950_276_000);
    assert_eq!(r.position, p.position);
    assert_eq!(r.velocity, p.velocity);
    assert_eq!(r.force, p.force);
}

#[test]
fn neighbours_add_to_the_density() {
    let (params, kernel) = setup();
    let a = at(400, 300);
    let b = at(408, 300);
    assert_eq!(density_term(a.position, b.position, &params, &kernel).raw, 10_488);
    assert_eq!(density_term(b.position, a.position, &params, &kernel).raw, 10_488);
    let snapshot = vec![a, b];
    assert_eq!(density_pressure(&a, &snapshot, &params, &kernel).density.raw, 35_350);
    assert_eq!(density_pressure(&b, &snapshot, &params, &kernel).density.raw, 35_350);
    assert_eq!(density_pressure(&a, &snapshot, &params, &kernel).pressure.raw, -1_999_929_300_000);
}

#[test]
fn the_cutoff_is_strict() {
    let (params, kernel) = setup();
    let a = at(400, 300);
    let on_the_radius = at(416, 300);
    let inside = at(415, 300);
    assert_eq!(density_term(a.position, on_the_radius.position, &params, &kernel).raw, 0);
    assert_eq!(density_term(a.position, inside.position, &params, &kernel).raw, 44);
    assert_eq!(
        density_pressure(&a, &vec![a, on_the_radius], &params, &kernel).density.raw,
        24_862
    );
    assert_eq!(density_pressure(&a, &vec![a, inside], &params, &kernel).density.raw, 24_906);
}

#[test]
fn density_never_falls_below_the_floor() {
    let (mut params, kernel) = setup();
    params.mass = Fixed::zero();
    let a = at(400, 300);
    let r = density_pressure(&a, &vec![a, at(401, 300)], &params, &kernel);
    assert_eq!(r.density.raw, 1);
    let alone = density_pressure(&a, &Vec::new(), &Params::standard(), &kernel);
    assert_eq!(alone.density.raw, 1);
}

#[test]
fn pressure_is_the_equation_of_state() {
    let params = Params::standard();
    assert_eq!(pressure_of(Fixed::from_int(1500), &params).raw, 1_000_000_000_000);
    assert_eq!(pressure_of(Fixed::from_int(1000), &params).raw, 0);
    assert_eq!(pressure_of(Fixed::from_int(999), &params).raw, -2_000_000_000);
    assert_eq!(pressure_of(Fixed { raw: 24_862 }, &params).raw, -1_999_950_276_000);
}

#[test]
fn the_stage_reads_positions_from_before_it() {
    let mut solver = Solver::new(0);
    solver.particles = vec![at(400, 300), at(408, 300), at(700, 300)];
    solver.compute_density_pressure();
    let rho: Vec<i64> = solver.particles.iter().map(|p| p.density.raw).collect();
    assert_eq!(rho, vec![35_350, 35_350, 24_862]);
    for p in &solver.particles {
        assert!(p.density.raw >= Fixed::min_positive().raw);
        assert_eq!(p.pressure, pressure_of(p.density, &solver.params));
        assert!(p.pressure.raw < 0);
    }
}
