//! The three per-particle stages of a tick, and the data-parallel map that
//! applies one of them to every particle against a frozen snapshot.

use vstd::prelude::*;
use rayon::iter::{IntoParallelRefMutIterator, ParallelIterator};
use crate::density::{density_pressure, spec_density_pressure};
use crate::forces::{spec_with_force, with_force};
use crate::kernel::KernelConstants;
use crate::motion::{advance, spec_advance};
use crate::params::Params;
use crate::particle::Particle;

verus! {

/// A stage of the tick.
#[derive(Clone, Copy, Debug, PartialEq, Eq, Structural)]
pub enum Stage {
    /// Density and pressure from the positions of the snapshot.
    DensityPressure,
    /// Net force from the densities, pressures and velocities of the snapshot.
    Forces,
    /// Integration and boundaries; reads no other particle.
    Advance,
}

/// What `stage` makes of the particle `p`, reading the other particles from
/// `snapshot` and the jitter from the two draws.
pub open spec fn stage_result(
    stage: Stage,
    p: Particle,
    snapshot: Seq<Particle>,
    params: Params,
    kernel: KernelConstants,
    first: u64,
    second: u64,
) -> Particle {
    match stage {
        Stage::DensityPressure => spec_density_pressure(p, snapshot, params, kernel),
        Stage::Forces => spec_with_force(p, snapshot, params, kernel),
        Stage::Advance => spec_advance(p, params, first, second),
    }
}

/// Applies `stage` to one particle.
pub fn run_stage(
    stage: Stage,
    p: &Particle,
    snapshot: &Vec<Particle>,
    params: &Params,
    kernel: &KernelConstants,
    first: u64,
    second: u64,
) -> (r: Particle)
    ensures
        r == stage_result(stage, *p, snapshot@, *params, *kernel, first, second),
{
    match stage {
        Stage::DensityPressure => density_pressure(p, snapshot, params, kernel),
        Stage::Forces => with_force(p, snapshot, params, kernel),
        Stage::Advance => advance(p, params, first, second),
    }
}

/// The particles `ps` after `stage` was applied to each of them against the
/// same snapshot: same length, same order.
pub open spec fn stage_map(
    stage: Stage,
    ps: Seq<Particle>,
    snapshot: Seq<Particle>,
    params: Params,
    kernel: KernelConstants,
    first: u64,
    second: u64,
) -> Seq<Particle> {
    Seq::new(
        ps.len(),
        |i: int| stage_result(stage, ps[i], snapshot, params, kernel, first, second),
    )
}

/// rayon's `par_iter_mut` on the vector followed by `for_each`: the closure,
/// which is one call of `run_stage`, is applied to every element exactly once,
/// each call writing only its own element, and all calls have returned when
/// `for_each` returns. So each particle is replaced by what the stage makes of
/// it, whatever the order in which the workers take them.
#[verifier::external_body]
pub(crate) fn for_each_in_parallel(
    particles: &mut Vec<Particle>,
    stage: Stage,
    snapshot: &Vec<Particle>,
    params: &Params,
    kernel: &KernelConstants,
    first: u64,
    second: u64,
)
    ensures
        final(particles)@ == stage_map(
            stage,
            old(particles)@,
            snapshot@,
            *params,
            *kernel,
            first,
            second,
        ),
{
    particles.par_iter_mut().for_each(
        |p| *p = run_stage(stage, &*p, snapshot, params, kernel, first, second),
    );
}

} // verus!
