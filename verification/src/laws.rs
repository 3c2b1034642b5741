//! What holds of the solver for all inputs.

use vstd::prelude::*;
use crate::density::{
    density_at, density_sum, lemma_density_sum_nonnegative, spec_density_pressure,
    spec_radius_squared,
};
use crate::fixed::{
    aligned, lemma_over_sign, lemma_times_fine_sign, lemma_times_sign, opposed, saturate, Fixed,
    SCALE,
};
use crate::forces::{spec_interacts, spec_pressure_force, spec_pressure_strength};
use crate::kernel::{lemma_kernel_signs, KernelConstants};
use crate::motion::{
    inside_margins, spec_advance, spec_bottom_edge, spec_euler_step, spec_hose_bottom,
    spec_hose_top, spec_left_edge, spec_next_jitter, spec_right_edge, spec_top_edge,
};
use crate::params::{Capacity, Params};
use crate::particle::Particle;
use crate::rng::lemma_range_between;
use crate::root::lemma_floor_sqrt_exists;
use crate::solver::{after_stage, grown, spec_inject, spec_tick, spec_ticks, TickDraws};
use crate::stage::Stage;
use crate::vec2::{square_sum, Vec2};

verus! {

/// Density floor: with valid parameters and the kernel constants of their
/// smoothing radius, the density computed at any position over any snapshot
/// is at least the smallest positive scalar.
pub proof fn lemma_density_floor(at: Vec2, snapshot: Seq<Particle>, params: Params)
    requires
        params.wf(),
    ensures
        density_at(
            at,
            snapshot,
            params,
            KernelConstants::spec_new(params.smoothing_radius),
        ).raw >= Fixed::min_positive().raw,
        Fixed::min_positive().raw > 0,
{
    let kernel = KernelConstants::spec_new(params.smoothing_radius);
    lemma_kernel_signs(params.smoothing_radius);
    lemma_density_sum_nonnegative(at, snapshot, params, kernel, snapshot.len());
}

/// What a particle adds to the density at its own position:
/// `mass * poly6 * (h^2)^3`.
pub open spec fn self_term(params: Params, kernel: KernelConstants) -> Fixed {
    let hsq = spec_radius_squared(params);
    params.mass.times(hsq.times(hsq).times(hsq)).times_fine(kernel.poly6)
}

/// No particle of the snapshot but the one at index `i` lies within the
/// smoothing radius of it.
pub open spec fn isolated(snapshot: Seq<Particle>, i: int, params: Params) -> bool {
    forall|j: int|
        0 <= j < snapshot.len() && j != i ==> #[trigger] snapshot[i].position.distance_squared(
            snapshot[j].position,
        ).raw >= spec_radius_squared(params).raw
}

proof fn lemma_density_sum_isolated(
    snapshot: Seq<Particle>,
    i: int,
    params: Params,
    kernel: KernelConstants,
    n: nat,
)
    requires
        0 <= i < snapshot.len(),
        n <= snapshot.len(),
        isolated(snapshot, i, params),
        spec_radius_squared(params).raw > 0,
    ensures
        density_sum(snapshot[i].position, snapshot, params, kernel, n) == (if i < n {
            self_term(params, kernel).raw as int
        } else {
            0
        }),
    decreases n,
{
    if n > 0 {
        lemma_density_sum_isolated(snapshot, i, params, kernel, (n - 1) as nat);
        let at = snapshot[i].position;
        if n - 1 == i {
            let d = at.minus(at);
            assert(d.x.raw == 0 && d.y.raw == 0);
            assert(square_sum(0, 0) == 0);
            assert(0int / (SCALE as int) == 0);
            assert(at.distance_squared(at).raw == 0);
        } else {
            assert(snapshot[i].position.distance_squared(snapshot[n - 1].position).raw
                >= spec_radius_squared(params).raw);
        }
    }
}

/// For valid parameters the square of the smoothing radius is positive.
pub proof fn lemma_radius_squared_positive(params: Params)
    requires
        params.wf(),
    ensures
        spec_radius_squared(params).raw > 0,
{
    let h = params.smoothing_radius.raw as int;
    assert(h * h >= 10_001 * 10_001) by (nonlinear_arith)
        requires
            h >= 10_001,
    ;
    assert((h * h) / (SCALE as int) >= 100) by (nonlinear_arith)
        requires
            h * h >= 10_001 * 10_001,
            SCALE == 1_000_000,
    ;
}

/// Isolated particle: where no other particle lies within the smoothing
/// radius of particle `i`, its density is the smallest positive scalar plus
/// its own term, and nothing else.
pub proof fn lemma_isolated_density(
    snapshot: Seq<Particle>,
    i: int,
    params: Params,
    kernel: KernelConstants,
)
    requires
        params.wf(),
        0 <= i < snapshot.len(),
        isolated(snapshot, i, params),
    ensures
        density_at(snapshot[i].position, snapshot, params, kernel) == Fixed::of(
            saturate(Fixed::min_positive().raw + self_term(params, kernel).raw),
        ),
{
    lemma_radius_squared_positive(params);
    lemma_density_sum_isolated(snapshot, i, params, kernel, snapshot.len());
}

/// Equation of state: after the density stage the pressure of a particle is
/// `gas_constant * (density - rest_density)` of its new density; with a gas
/// constant that is not negative it is not positive when the density is
/// below rest, and not negative when it is above.
pub proof fn lemma_pressure_follows_density(
    p: Particle,
    snapshot: Seq<Particle>,
    params: Params,
    kernel: KernelConstants,
)
    ensures
        ({
            let q = spec_density_pressure(p, snapshot, params, kernel);
            &&& q.pressure == params.gas_constant.times(q.density.minus(params.rest_density))
            &&& params.gas_constant.raw >= 0 && q.density.raw <= params.rest_density.raw
                ==> q.pressure.raw <= 0
            &&& params.gas_constant.raw >= 0 && q.density.raw >= params.rest_density.raw
                ==> q.pressure.raw >= 0
        }),
{
    let q = spec_density_pressure(p, snapshot, params, kernel);
    lemma_times_sign(params.gas_constant, q.density.minus(params.rest_density));
}

/// Boundary reflection: a particle without horizontal force whose Euler step
/// ends less than a smoothing radius from the left edge leaves the stage at
/// exactly one radius from it, with the horizontal velocity it came with
/// times the damping. This holds where the domain is at least two radii wide
/// and the inlet's left edge is at least one radius from the wall.
pub proof fn lemma_left_edge_reflection(p: Particle, params: Params, first: u64, second: u64)
    requires
        p.force.x.raw == 0,
        spec_euler_step(p, params).position.x.minus(params.smoothing_radius).raw < 0,
        params.smoothing_radius.plus(params.smoothing_radius).raw <= params.view_width.raw,
        params.smoothing_radius.raw <= params.hose.left.raw,
    ensures
        spec_advance(p, params, first, second).position.x == params.smoothing_radius,
        spec_advance(p, params, first, second).velocity.x == p.velocity.x.times(
            params.boundary_damping,
        ),
{
    lemma_times_sign(p.force.x, params.time_step);
    lemma_over_sign(p.force.x.times(params.time_step), p.density);
}

/// Growth under a tick: the sequence gains one particle where the capacity
/// admits it, and keeps its length where it does not.
pub proof fn lemma_tick_length(
    ps: Seq<Particle>,
    params: Params,
    kernel: KernelConstants,
    draws: TickDraws,
)
    ensures
        spec_tick(
            ps,
            params,
            kernel,
            draws.across,
            draws.along,
            draws.first,
            draws.second,
        ).len() == grown(params.capacity, ps.len(), 1),
{
}

/// Growth: after one tick for each entry of `draws`, whatever the draws, the
/// sequence holds one more particle per tick; under a bound, one more per
/// tick until the bound is reached and no more after that.
pub proof fn lemma_growth(
    ps: Seq<Particle>,
    params: Params,
    kernel: KernelConstants,
    draws: Seq<TickDraws>,
)
    ensures
        spec_ticks(ps, params, kernel, draws).len() == grown(
            params.capacity,
            ps.len(),
            draws.len(),
        ),
        params.capacity == Capacity::Unbounded ==> spec_ticks(ps, params, kernel, draws).len()
            == ps.len() + draws.len(),
    decreases draws.len(),
{
    if draws.len() > 0 {
        lemma_growth(ps, params, kernel, draws.drop_last());
        lemma_tick_length(
            spec_ticks(ps, params, kernel, draws.drop_last()),
            params,
            kernel,
            draws.last(),
        );
    }
}

/// The pressure strength has the sign that the mass-weighted pressure sum
/// and the gradient constant give it, where the density it divides by is not
/// negative.
pub proof fn lemma_pressure_strength_sign(
    pi: Particle,
    pj: Particle,
    params: Params,
    kernel: KernelConstants,
)
    requires
        pj.density.raw >= 0,
    ensures
        ({
            let a = params.mass.times(pi.pressure.plus(pj.pressure)).raw;
            let s = spec_pressure_strength(pi, pj, params, kernel).raw;
            &&& aligned(a as int, kernel.spiky_grad as int) ==> s >= 0
            &&& opposed(a as int, kernel.spiky_grad as int) ==> s <= 0
        }),
{
    let a = params.mass.times(pi.pressure.plus(pj.pressure));
    let two_rho = Fixed::from_int(2).times(pj.density);
    lemma_times_sign(Fixed::from_int(2), pj.density);
    let b = a.over(two_rho);
    lemma_over_sign(a, two_rho);
    let c = b.times_fine(kernel.spiky_grad);
    lemma_times_fine_sign(b, kernel.spiky_grad);
    let r = pj.position.minus(pi.position).length();
    let reach = params.smoothing_radius.minus(r);
    let reach2 = reach.times(reach);
    lemma_times_sign(reach, reach);
    lemma_times_sign(c, reach2);
}

proof fn lemma_unit_sign(d: Vec2)
    ensures
        d.x.raw >= 0 ==> d.normalized().negated().x.raw <= 0,
        d.x.raw <= 0 ==> d.normalized().negated().x.raw >= 0,
        d.y.raw >= 0 ==> d.normalized().negated().y.raw <= 0,
        d.y.raw <= 0 ==> d.normalized().negated().y.raw >= 0,
{
    let len = d.length();
    assert(len.raw >= 0) by {
        let s = square_sum(d.x.raw as int, d.y.raw as int);
        assert(s >= 0) by (nonlinear_arith)
            requires
                s == d.x.raw * d.x.raw + d.y.raw * d.y.raw,
        ;
        lemma_floor_sqrt_exists(s);
    }
    lemma_over_sign(d.x, len);
    lemma_over_sign(d.y, len);
}

/// Neighbour symmetry: for two particles whose densities are not negative,
/// the pressure force of the second on the first and that of the first on
/// the second never point the same way along either axis.
pub proof fn lemma_pressure_forces_oppose(
    pi: Particle,
    pj: Particle,
    params: Params,
    kernel: KernelConstants,
)
    requires
        pi.density.raw >= 0,
        pj.density.raw >= 0,
    ensures
        opposed(
            spec_pressure_force(pi, pj, params, kernel).x.raw as int,
            spec_pressure_force(pj, pi, params, kernel).x.raw as int,
        ),
        opposed(
            spec_pressure_force(pi, pj, params, kernel).y.raw as int,
            spec_pressure_force(pj, pi, params, kernel).y.raw as int,
        ),
{
    if spec_interacts(pi, pj, params) && spec_interacts(pj, pi, params) {
        let dij = pj.position.minus(pi.position);
        let dji = pi.position.minus(pj.position);
        let sij = spec_pressure_strength(pi, pj, params, kernel);
        let sji = spec_pressure_strength(pj, pi, params, kernel);
        lemma_pressure_strength_sign(pi, pj, params, kernel);
        lemma_pressure_strength_sign(pj, pi, params, kernel);
        lemma_unit_sign(dij);
        lemma_unit_sign(dji);
        let uij = dij.normalized().negated();
        let uji = dji.normalized().negated();
        lemma_times_sign(uij.x, sij);
        lemma_times_sign(uji.x, sji);
        lemma_times_sign(uij.y, sij);
        lemma_times_sign(uji.y, sji);
    }
}

/// A tick leaves every particle with a density of at least the smallest
/// positive scalar: the density stage sets it so, and the later stages keep
/// each particle's density.
pub proof fn lemma_tick_density_floor(
    ps: Seq<Particle>,
    params: Params,
    draws: TickDraws,
    i: int,
)
    requires
        params.wf(),
        0 <= i < spec_tick(
            ps,
            params,
            KernelConstants::spec_new(params.smoothing_radius),
            draws.across,
            draws.along,
            draws.first,
            draws.second,
        ).len(),
    ensures
        spec_tick(
            ps,
            params,
            KernelConstants::spec_new(params.smoothing_radius),
            draws.across,
            draws.along,
            draws.first,
            draws.second,
        )[i].density.raw >= Fixed::min_positive().raw,
{
    let injected = spec_inject(ps, params, draws.across, draws.along);
    lemma_density_floor(injected[i].position, injected, params);
}

/// Containment: in a roomy domain every particle leaves the integration
/// stage inside the margins, wherever it was and however fast it moved.
pub proof fn lemma_advance_stays_inside(p: Particle, params: Params, first: u64, second: u64)
    requires
        params.roomy(),
    ensures
        inside_margins(spec_advance(p, params, first, second).position, params),
{
    let m2 = spec_right_edge(spec_left_edge(spec_euler_step(p, params), params), params);
    let m6 = spec_hose_bottom(
        spec_hose_top(spec_bottom_edge(spec_top_edge(m2, params, first, second), params), params),
        params,
    );
    lemma_range_between(spec_next_jitter(m2, first, second), Fixed::from_int(1), Fixed::from_int(2));
    lemma_range_between(spec_next_jitter(m6, first, second), Fixed::from_int(1), Fixed::from_int(4));
}

/// Containment under a tick: in a roomy domain every particle is inside the
/// margins after a tick, the injected one too.
pub proof fn lemma_tick_stays_inside(
    ps: Seq<Particle>,
    params: Params,
    kernel: KernelConstants,
    draws: TickDraws,
    i: int,
)
    requires
        params.roomy(),
        0 <= i < spec_tick(
            ps,
            params,
            kernel,
            draws.across,
            draws.along,
            draws.first,
            draws.second,
        ).len(),
    ensures
        inside_margins(
            spec_tick(
                ps,
                params,
                kernel,
                draws.across,
                draws.along,
                draws.first,
                draws.second,
            )[i].position,
            params,
        ),
{
    let injected = spec_inject(ps, params, draws.across, draws.along);
    let weighed = after_stage(Stage::DensityPressure, injected, params, kernel, 0, 0);
    let pushed = after_stage(Stage::Forces, weighed, params, kernel, 0, 0);
    lemma_advance_stays_inside(pushed[i], params, draws.first, draws.second);
}

} // verus!
