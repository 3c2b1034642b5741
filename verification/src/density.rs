//! The density and pressure stage: each particle's density is a kernel sum
//! over a frozen copy of all particles, its pressure an equation of state.

use vstd::prelude::*;
use crate::fixed::{lemma_times_fine_sign, lemma_times_sign, saturate, saturated, Fixed};
use crate::kernel::KernelConstants;
use crate::params::Params;
use crate::particle::Particle;
use crate::vec2::Vec2;

verus! {

/// The square of the smoothing radius.
pub open spec fn spec_radius_squared(params: Params) -> Fixed {
    params.smoothing_radius.times(params.smoothing_radius)
}

/// The square of the smoothing radius.
pub fn radius_squared(params: &Params) -> (r: Fixed)
    ensures
        r == spec_radius_squared(*params),
{
    params.smoothing_radius.times(params.smoothing_radius)
}

/// What a particle at `other` adds to the density at `at`:
/// `mass * poly6 * (h^2 - r^2)^3` where the squared distance `r^2` is below
/// `h^2`, and nothing elsewhere.
pub open spec fn spec_density_term(
    at: Vec2,
    other: Vec2,
    params: Params,
    kernel: KernelConstants,
) -> Fixed {
    let hsq = spec_radius_squared(params);
    let r2 = at.distance_squared(other);
    if r2.raw < hsq.raw {
        let d = hsq.minus(r2);
        params.mass.times(d.times(d).times(d)).times_fine(kernel.poly6)
    } else {
        Fixed::zero()
    }
}

/// What a particle at `other` adds to the density at `at`.
pub fn density_term(at: Vec2, other: Vec2, params: &Params, kernel: &KernelConstants) -> (t: Fixed)
    ensures
        t == spec_density_term(at, other, *params, *kernel),
{
    let hsq: Fixed = radius_squared(params);
    let r2: Fixed = at.distance_squared(other);
    if r2.raw < hsq.raw {
        let d: Fixed = hsq.minus(r2);
        params.mass.times(d.times(d).times(d)).times_fine(kernel.poly6)
    } else {
        Fixed::zero()
    }
}

/// The sum, in raw units, of what the first `n` particles of the snapshot add
/// to the density at `at`.
pub open spec fn density_sum(
    at: Vec2,
    snapshot: Seq<Particle>,
    params: Params,
    kernel: KernelConstants,
    n: nat,
) -> int
    decreases n,
{
    if n == 0 {
        0
    } else {
        density_sum(at, snapshot, params, kernel, (n - 1) as nat) + spec_density_term(
            at,
            snapshot[n - 1].position,
            params,
            kernel,
        ).raw
    }
}

/// The density at `at`: the smallest positive scalar plus the contributions
/// of all particles of the snapshot, saturated.
pub open spec fn density_at(
    at: Vec2,
    snapshot: Seq<Particle>,
    params: Params,
    kernel: KernelConstants,
) -> Fixed {
    Fixed::of(
        saturate(Fixed::min_positive().raw + density_sum(at, snapshot, params, kernel, snapshot.len())),
    )
}

/// The equation of state: `gas_constant * (density - rest_density)`.
pub open spec fn spec_pressure_of(density: Fixed, params: Params) -> Fixed {
    params.gas_constant.times(density.minus(params.rest_density))
}

/// The pressure that the equation of state gives for `density`.
pub fn pressure_of(density: Fixed, params: &Params) -> (p: Fixed)
    ensures
        p == spec_pressure_of(density, *params),
{
    params.gas_constant.times(density.minus(params.rest_density))
}

/// The particle `p` after the density stage over `snapshot`.
pub open spec fn spec_density_pressure(
    p: Particle,
    snapshot: Seq<Particle>,
    params: Params,
    kernel: KernelConstants,
) -> Particle {
    let density = density_at(p.position, snapshot, params, kernel);
    Particle {
        position: p.position,
        velocity: p.velocity,
        force: p.force,
        density,
        pressure: spec_pressure_of(density, params),
    }
}

/// Density and pressure of one particle from a frozen snapshot of all of them.
pub fn density_pressure(
    p: &Particle,
    snapshot: &Vec<Particle>,
    params: &Params,
    kernel: &KernelConstants,
) -> (r: Particle)
    ensures
        r == spec_density_pressure(*p, snapshot@, *params, *kernel),
{
    let n: usize = snapshot.len();
    let mut acc: i128 = 1;
    let mut j: usize = 0;
    while j < n
        invariant
            j <= n,
            n == snapshot@.len(),
            acc == 1 + density_sum(p.position, snapshot@, *params, *kernel, j as nat),
            -(j as int) * 0x8000_0000_0000_0000 <= acc - 1 <= (j as int) * 0x7fff_ffff_ffff_ffff,
        decreases n - j,
    {
        let t: Fixed = density_term(p.position, snapshot[j].position, params, kernel);
        acc = acc + (t.raw as i128);
        j = j + 1;
    }
    let density: Fixed = Fixed { raw: saturated(acc) };
    Particle {
        position: p.position,
        velocity: p.velocity,
        force: p.force,
        density,
        pressure: pressure_of(density, params),
    }
}

/// With a mass and a density constant that are not negative, no particle
/// takes density away.
pub proof fn lemma_density_term_nonnegative(
    at: Vec2,
    other: Vec2,
    params: Params,
    kernel: KernelConstants,
)
    requires
        params.mass.raw >= 0,
        kernel.poly6 >= 0,
    ensures
        spec_density_term(at, other, params, kernel).raw >= 0,
{
    let hsq = spec_radius_squared(params);
    let r2 = at.distance_squared(other);
    if r2.raw < hsq.raw {
        let d = hsq.minus(r2);
        lemma_times_sign(d, d);
        lemma_times_sign(d.times(d), d);
        lemma_times_sign(params.mass, d.times(d).times(d));
        lemma_times_fine_sign(params.mass.times(d.times(d).times(d)), kernel.poly6);
    }
}

/// Under the same conditions every partial density sum is at least zero.
pub proof fn lemma_density_sum_nonnegative(
    at: Vec2,
    snapshot: Seq<Particle>,
    params: Params,
    kernel: KernelConstants,
    n: nat,
)
    requires
        params.mass.raw >= 0,
        kernel.poly6 >= 0,
    ensures
        density_sum(at, snapshot, params, kernel, n) >= 0,
    decreases n,
{
    if n > 0 {
        lemma_density_sum_nonnegative(at, snapshot, params, kernel, (n - 1) as nat);
        lemma_density_term_nonnegative(at, snapshot[n - 1].position, params, kernel);
    }
}

} // verus!
