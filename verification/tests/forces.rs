use fluid_sim::density::density_pressure;
use fluid_sim::fixed::Fixed;
use fluid_sim::forces::{pressure_force, pressure_strength, viscosity_force, with_force};
use fluid_sim::kernel::KernelConstants;
use fluid_sim::params::Params;
use fluid_sim::particle::Particle;
use fluid_sim::vec2::Vec2;

fn particle(x: i32, y: i32, vx: i32, vy: i32) -> Particle {
    Particle::new(
        Vec2::new(Fixed::from_int(x), Fixed::from_int(y)),
        Vec2::new(Fixed::from_int(vx), Fixed::from_int(vy)),
    )
}

fn weighed(ps: Vec<Particle>) -> (Vec<Particle>, Params, KernelConstants) {
    let params = Params::standard();
    let kernel = KernelConstants::new(params.smoothing_radius);
    let out = ps.iter().map(|p| density_pressure(p, &ps, &params, &kernel)).collect();
    (out, params, kernel)
}

fn raw(v: Vec2) -> (i64, i64) {
    (v.x.raw, v.y.raw)
}

#[test]
fn pressure_between_two_particles_on_a_line() {
    let (ps, params, kernel) = weighed(vec![particle(400, 300, 1, 2), particle(408, 300, -3, 1)]);
    assert_eq!(pressure_strength(&ps[0], &ps[1], &params, &kernel).raw, 200_937_624_512);
    assert_eq!(pressure_strength(&ps[1], &ps[0], &params, &kernel).raw, 200_937_624_512);
    assert_eq!(raw(pressure_force(&ps[0], &ps[1], &params, &kernel)), (-200_937_624_512, 0));
    assert_eq!(raw(pressure_force(&ps[1], &ps[0], &params, &kernel)), (200_937_624_512, 0));
}

#[test]
fn viscosity_pulls_velocities_together() {
    let (ps, params, kernel) = weighed(vec![particle(400, 300, 1, 2), particle(408, 300, -3, 1)]);
    assert_eq!(raw(viscosity_force(&ps[0], &ps[1], &params, &kernel)), (-12_559_040, -3_139_760));
    assert_eq!(raw(viscosity_force(&ps[1], &ps[0], &params, &kernel)), (12_559_040, 3_139_760));
}

#[test]
fn net_force_adds_gravity_pressure_and_viscosity() {
    let (ps, params, kernel) = weighed(vec![particle(400, 300, 1, 2), particle(408, 300, -3, 1)]);
    let a = with_force(&ps[0], &ps, &params, &kernel);
    let b = with_force(&ps[1], &ps, &params, &kernel);
    assert_eq!(raw(a.force), (-200_950_183_552, -4_160_299_760));
    assert_eq!(raw(b.force), (200_950_183_552, -4_154_020_240));
    assert_eq!(a.position, ps[0].position);
    assert_eq!(a.velocity, ps[0].velocity);
    assert_eq!(a.density, ps[0].density);
    assert_eq!(a.pressure, ps[0].pressure);
}

#[test]
fn pressure_forces_of_a_pair_point_apart() {
    let (ps, params, kernel) = weighed(vec![particle(400, 300, 0, 0), particle(403, 304, 0, 0)]);
    let on_first = pressure_force(&ps[0], &ps[1], &params, &kernel);
    let on_second = pressure_force(&ps[1], &ps[0], &params, &kernel);
    assert_eq!(raw(on_first), (-186_829_147_315, -249_105_529_754));
    assert_eq!(raw(on_second), (186_829_147_315, 249_105_529_754));
}

#[test]
fn unequal_densities_keep_the_directions_opposite() {
    let (ps, params, kernel) = weighed(vec![
        particle(400, 300, 0, 0),
        particle(403, 304, 0, 0),
        particle(410, 310, 0, 0),
    ]);
    let rho: Vec<i64> = ps.iter().map(|p| p.density.raw).collect();
    assert_eq!(rho, vec![43_388, 50_537, 32_531]);
    let on_first = pressure_force(&ps[0], &ps[1], &params, &kernel);
    let on_second = pressure_force(&ps[1], &ps[0], &params, &kernel);
    assert_eq!(raw(on_first), (-159_438_363_328, -212_584_484_437));
    assert_eq!(raw(on_second), (185_708_872_687, 247_611_830_250));
    assert!(on_first.x.raw < 0 && on_second.x.raw > 0);
    assert!(on_first.y.raw < 0 && on_second.y.raw > 0);
    let forces: Vec<(i64, i64)> =
        ps.iter().map(|p| raw(with_force(p, &ps, &params, &kernel).force)).collect();
    assert_eq!(
        forces,
        vec![
            (-167_765_293_918, -226_013_843_827),
            (66_618_503_967, 139_591_197_740),
            (82_902_534_040, 68_125_580_681),
        ]
    );
}

#[test]
fn particles_at_one_place_do_not_push_each_other() {
    let (ps, params, kernel) = weighed(vec![particle(400, 300, 1, 0), particle(400, 300, -1, 0)]);
    assert_eq!(ps[0].density.raw, 49_723);
    assert_eq!(pressure_force(&ps[0], &ps[1], &params, &kernel), Vec2::zero());
    assert_eq!(viscosity_force(&ps[0], &ps[1], &params, &kernel), Vec2::zero());
    assert_eq!(pressure_force(&ps[0], &ps[0], &params, &kernel), Vec2::zero());
    assert_eq!(raw(with_force(&ps[0], &ps, &params, &kernel).force), (0, -5_847_424_800));
}

#[test]
fn particles_beyond_the_radius_do_not_interact() {
    let (ps, params, kernel) = weighed(vec![particle(400, 300, 1, 0), particle(416, 300, -1, 0)]);
    assert_eq!(pressure_force(&ps[0], &ps[1], &params, &kernel), Vec2::zero());
    assert_eq!(viscosity_force(&ps[0], &ps[1], &params, &kernel), Vec2::zero());
    assert_eq!(raw(with_force(&ps[0], &ps, &params, &kernel).force), (0, -2_923_771_200));
}
