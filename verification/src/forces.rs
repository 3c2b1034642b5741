//! The force stage: pressure gradient, viscosity and gravity, again summed
//! over a frozen copy of all particles.

use vstd::prelude::*;
use crate::fixed::{saturate, saturated, Fixed};
use crate::kernel::KernelConstants;
use crate::params::Params;
use crate::particle::Particle;
use crate::vec2::Vec2;

verus! {

/// Whether `pj` acts on `pi` in the force stage: the two are apart, and
/// closer than the smoothing radius.
pub open spec fn spec_interacts(pi: Particle, pj: Particle, params: Params) -> bool {
    let r = pj.position.minus(pi.position).length();
    r.raw != 0 && r.raw < params.smoothing_radius.raw
}

/// The scalar part of the pressure force of `pj` on `pi`:
/// `mass * (p_i + p_j) / (2 rho_j) * spiky_grad * (h - r)^2`.
pub open spec fn spec_pressure_strength(
    pi: Particle,
    pj: Particle,
    params: Params,
    kernel: KernelConstants,
) -> Fixed {
    let r = pj.position.minus(pi.position).length();
    let reach = params.smoothing_radius.minus(r);
    params.mass.times(pi.pressure.plus(pj.pressure)).over(
        Fixed::from_int(2).times(pj.density),
    ).times_fine(kernel.spiky_grad).times(reach.times(reach))
}

/// The scalar part of the pressure force of `pj` on `pi`.
pub fn pressure_strength(
    pi: &Particle,
    pj: &Particle,
    params: &Params,
    kernel: &KernelConstants,
) -> (s: Fixed)
    ensures
        s == spec_pressure_strength(*pi, *pj, *params, *kernel),
{
    let r: Fixed = pj.position.minus(pi.position).length();
    let reach: Fixed = params.smoothing_radius.minus(r);
    params.mass.times(pi.pressure.plus(pj.pressure)).over(
        Fixed::from_int(2).times(pj.density),
    ).times_fine(kernel.spiky_grad).times(reach.times(reach))
}

/// The pressure force of `pj` on `pi`: along the unit vector from `pj` to
/// `pi`, scaled by the pressure strength; nothing if the two do not interact.
pub open spec fn spec_pressure_force(
    pi: Particle,
    pj: Particle,
    params: Params,
    kernel: KernelConstants,
) -> Vec2 {
    if spec_interacts(pi, pj, params) {
        pj.position.minus(pi.position).normalized().negated().scaled(
            spec_pressure_strength(pi, pj, params, kernel),
        )
    } else {
        Vec2::zero()
    }
}

/// The pressure force of `pj` on `pi`.
pub fn pressure_force(
    pi: &Particle,
    pj: &Particle,
    params: &Params,
    kernel: &KernelConstants,
) -> (f: Vec2)
    ensures
        f == spec_pressure_force(*pi, *pj, *params, *kernel),
{
    let rij: Vec2 = pj.position.minus(pi.position);
    let r: Fixed = rij.length();
    if r.raw != 0 && r.raw < params.smoothing_radius.raw {
        rij.normalized().negated().scaled(pressure_strength(pi, pj, params, kernel))
    } else {
        Vec2::zero()
    }
}

/// The viscosity force of `pj` on `pi`:
/// `viscosity * mass * (v_j - v_i) / rho_j * visc_lap * (h - r)`;
/// nothing if the two do not interact.
pub open spec fn spec_viscosity_force(
    pi: Particle,
    pj: Particle,
    params: Params,
    kernel: KernelConstants,
) -> Vec2 {
    if spec_interacts(pi, pj, params) {
        let r = pj.position.minus(pi.position).length();
        let reach = params.smoothing_radius.minus(r);
        pj.velocity.minus(pi.velocity).scaled(params.viscosity.times(params.mass)).divided(
            pj.density,
        ).scaled_fine(kernel.visc_lap).scaled(reach)
    } else {
        Vec2::zero()
    }
}

/// The viscosity force of `pj` on `pi`.
pub fn viscosity_force(
    pi: &Particle,
    pj: &Particle,
    params: &Params,
    kernel: &KernelConstants,
) -> (f: Vec2)
    ensures
        f == spec_viscosity_force(*pi, *pj, *params, *kernel),
{
    let r: Fixed = pj.position.minus(pi.position).length();
    if r.raw != 0 && r.raw < params.smoothing_radius.raw {
        let reach: Fixed = params.smoothing_radius.minus(r);
        pj.velocity.minus(pi.velocity).scaled(params.viscosity.times(params.mass)).divided(
            pj.density,
        ).scaled_fine(kernel.visc_lap).scaled(reach)
    } else {
        Vec2::zero()
    }
}

/// The sums, in raw units and by component, of the pressure forces of the
/// first `n` particles of the snapshot on `pi`.
pub open spec fn pressure_sum(
    pi: Particle,
    snapshot: Seq<Particle>,
    params: Params,
    kernel: KernelConstants,
    n: nat,
) -> (int, int)
    decreases n,
{
    if n == 0 {
        (0, 0)
    } else {
        let rest = pressure_sum(pi, snapshot, params, kernel, (n - 1) as nat);
        let f = spec_pressure_force(pi, snapshot[n - 1], params, kernel);
        (rest.0 + f.x.raw, rest.1 + f.y.raw)
    }
}

/// The same sums for the viscosity forces.
pub open spec fn viscosity_sum(
    pi: Particle,
    snapshot: Seq<Particle>,
    params: Params,
    kernel: KernelConstants,
    n: nat,
) -> (int, int)
    decreases n,
{
    if n == 0 {
        (0, 0)
    } else {
        let rest = viscosity_sum(pi, snapshot, params, kernel, (n - 1) as nat);
        let f = spec_viscosity_force(pi, snapshot[n - 1], params, kernel);
        (rest.0 + f.x.raw, rest.1 + f.y.raw)
    }
}

/// A pair of raw sums as a vector, each component saturated.
pub open spec fn saturated_vector(sums: (int, int)) -> Vec2 {
    Vec2 { x: Fixed::of(saturate(sums.0)), y: Fixed::of(saturate(sums.1)) }
}

/// The net force on `pi`: gravity scaled by its own density, plus the
/// pressure forces and the viscosity forces of all particles of the snapshot.
pub open spec fn force_on(
    pi: Particle,
    snapshot: Seq<Particle>,
    params: Params,
    kernel: KernelConstants,
) -> Vec2 {
    params.gravity.scaled(pi.density).plus(
        saturated_vector(pressure_sum(pi, snapshot, params, kernel, snapshot.len())),
    ).plus(saturated_vector(viscosity_sum(pi, snapshot, params, kernel, snapshot.len())))
}

/// The particle `p` after the force stage over `snapshot`.
pub open spec fn spec_with_force(
    p: Particle,
    snapshot: Seq<Particle>,
    params: Params,
    kernel: KernelConstants,
) -> Particle {
    Particle {
        position: p.position,
        velocity: p.velocity,
        force: force_on(p, snapshot, params, kernel),
        density: p.density,
        pressure: p.pressure,
    }
}

/// The net force on one particle from a frozen snapshot of all of them.
pub fn with_force(
    p: &Particle,
    snapshot: &Vec<Particle>,
    params: &Params,
    kernel: &KernelConstants,
) -> (r: Particle)
    ensures
        r == spec_with_force(*p, snapshot@, *params, *kernel),
{
    let n: usize = snapshot.len();
    let mut press_x: i128 = 0;
    let mut press_y: i128 = 0;
    let mut visc_x: i128 = 0;
    let mut visc_y: i128 = 0;
    let mut j: usize = 0;
    while j < n
        invariant
            j <= n,
            n == snapshot@.len(),
            (press_x as int, press_y as int) == pressure_sum(
                *p,
                snapshot@,
                *params,
                *kernel,
                j as nat,
            ),
            (visc_x as int, visc_y as int) == viscosity_sum(
                *p,
                snapshot@,
                *params,
                *kernel,
                j as nat,
            ),
            -(j as int) * 0x8000_0000_0000_0000 <= press_x <= (j as int) * 0x7fff_ffff_ffff_ffff,
            -(j as int) * 0x8000_0000_0000_0000 <= press_y <= (j as int) * 0x7fff_ffff_ffff_ffff,
            -(j as int) * 0x8000_0000_0000_0000 <= visc_x <= (j as int) * 0x7fff_ffff_ffff_ffff,
            -(j as int) * 0x8000_0000_0000_0000 <= visc_y <= (j as int) * 0x7fff_ffff_ffff_ffff,
        decreases n - j,
    {
        let fp: Vec2 = pressure_force(p, &snapshot[j], params, kernel);
        let fv: Vec2 = viscosity_force(p, &snapshot[j], params, kernel);
        press_x = press_x + (fp.x.raw as i128);
        press_y = press_y + (fp.y.raw as i128);
        visc_x = visc_x + (fv.x.raw as i128);
        visc_y = visc_y + (fv.y.raw as i128);
        j = j + 1;
    }
    let fpress: Vec2 = Vec2 {
        x: Fixed { raw: saturated(press_x) },
        y: Fixed { raw: saturated(press_y) },
    };
    let fvisc: Vec2 = Vec2 { x: Fixed { raw: saturated(visc_x) }, y: Fixed { raw: saturated(visc_y) } };
    Particle {
        position: p.position,
        velocity: p.velocity,
        force: params.gravity.scaled(p.density).plus(fpress).plus(fvisc),
        density: p.density,
        pressure: p.pressure,
    }
}

} // verus!
