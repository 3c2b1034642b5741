//! The solver: the particle sequence, its parameters and generator, and the
//! tick that injects one particle and runs the three stages in order.

use vstd::prelude::*;
use rand_xorshift::XorShiftRng;
use crate::density::spec_pressure_of;
use crate::fixed::Fixed;
use crate::laws::{
    lemma_advance_stays_inside, lemma_density_floor, lemma_tick_density_floor,
    lemma_tick_length,
};
use crate::motion::inside_margins;
use crate::kernel::KernelConstants;
use crate::packing::{
    lemma_standard_packing, pack, packing, standard_count, standard_particle,
};
use crate::params::{Capacity, Params};
use crate::particle::Particle;
use crate::rng::{lemma_range_between, next_draw, range, seeded_generator, spec_range};
use crate::stage::{for_each_in_parallel, stage_map, Stage};
use crate::vec2::Vec2;

verus! {

/// Whether a sequence of `len` particles takes one more under `capacity`.
pub open spec fn spec_admits(capacity: Capacity, len: nat) -> bool {
    match capacity {
        Capacity::Unbounded => true,
        Capacity::AtMost(max) => len < max,
    }
}

/// Whether a sequence of `len` particles takes one more under `capacity`.
pub fn admits(capacity: Capacity, len: usize) -> (b: bool)
    ensures
        b == spec_admits(capacity, len as nat),
{
    match capacity {
        Capacity::Unbounded => true,
        Capacity::AtMost(max) => len < max,
    }
}

/// The length that `len` particles reach after `ticks` ticks under
/// `capacity`: one more per tick, up to the bound where there is one.
pub open spec fn grown(capacity: Capacity, len: nat, ticks: nat) -> nat {
    match capacity {
        Capacity::Unbounded => len + ticks,
        Capacity::AtMost(max) => if len >= max {
            len
        } else if len + ticks <= max {
            len + ticks
        } else {
            max as nat
        },
    }
}

/// The particle that a tick injects: just right of the inlet's left edge, at
/// the edge plus the radius plus a jitter between one and four picked by
/// `across`; inside the inlet's vertical span at the height picked by `along`;
/// moving right at the inlet speed.
pub open spec fn spec_spawn(params: Params, across: u64, along: u64) -> Particle {
    Particle::new(
        Vec2 {
            x: params.hose.left.plus(params.smoothing_radius).plus(
                spec_range(across, Fixed::from_int(1), Fixed::from_int(4)),
            ),
            y: spec_range(along, params.hose.bottom, params.hose.top),
        },
        Vec2 { x: params.inlet_speed, y: Fixed::zero() },
    )
}

/// The particle that a tick injects for the draws `across` and `along`.
pub fn spawn(params: &Params, across: u64, along: u64) -> (p: Particle)
    ensures
        p == spec_spawn(*params, across, along),
        params.hose.bottom.raw <= params.hose.top.raw ==> params.hose.bottom.raw
            <= p.position.y.raw <= params.hose.top.raw,
{
    proof {
        if params.hose.bottom.raw <= params.hose.top.raw {
            lemma_range_between(along, params.hose.bottom, params.hose.top);
        }
    }
    Particle::new(
        Vec2 {
            x: params.hose.left.plus(params.smoothing_radius).plus(
                range(across, Fixed::from_int(1), Fixed::from_int(4)),
            ),
            y: range(along, params.hose.bottom, params.hose.top),
        },
        Vec2 { x: params.inlet_speed, y: Fixed::zero() },
    )
}

/// The particles after injection: one more at the end where the capacity
/// admits it, unchanged where it does not.
pub open spec fn spec_inject(ps: Seq<Particle>, params: Params, across: u64, along: u64) -> Seq<
    Particle,
> {
    if spec_admits(params.capacity, ps.len()) {
        ps.push(spec_spawn(params, across, along))
    } else {
        ps
    }
}

/// A stage applied to all particles, each reading the state before the stage.
pub open spec fn after_stage(
    stage: Stage,
    ps: Seq<Particle>,
    params: Params,
    kernel: KernelConstants,
    first: u64,
    second: u64,
) -> Seq<Particle> {
    stage_map(stage, ps, ps, params, kernel, first, second)
}

/// The particles after one tick: injection, then the density and pressure
/// stage, then the force stage, then integration; each stage on the complete
/// result of the one before. `across` and `along` place the injected
/// particle, `first` and `second` are the jitter draws of the integration.
pub open spec fn spec_tick(
    ps: Seq<Particle>,
    params: Params,
    kernel: KernelConstants,
    across: u64,
    along: u64,
    first: u64,
    second: u64,
) -> Seq<Particle> {
    let injected = spec_inject(ps, params, across, along);
    let weighed = after_stage(Stage::DensityPressure, injected, params, kernel, 0, 0);
    let pushed = after_stage(Stage::Forces, weighed, params, kernel, 0, 0);
    after_stage(Stage::Advance, pushed, params, kernel, first, second)
}

/// Every particle has at least the smallest positive density.
pub open spec fn densities_floored(ps: Seq<Particle>) -> bool {
    forall|i: int| 0 <= i < ps.len() ==> (#[trigger] ps[i]).density.raw >= Fixed::min_positive().raw
}

/// Every particle's pressure is the equation of state of its density.
pub open spec fn pressures_follow(ps: Seq<Particle>, params: Params) -> bool {
    forall|i: int|
        0 <= i < ps.len() ==> (#[trigger] ps[i]).pressure == spec_pressure_of(ps[i].density, params)
}

/// Every particle keeps one smoothing radius from every edge of the domain.
pub open spec fn all_inside(ps: Seq<Particle>, params: Params) -> bool {
    forall|i: int| 0 <= i < ps.len() ==> inside_margins((#[trigger] ps[i]).position, params)
}

/// The four draws that one tick takes.
#[derive(Clone, Copy, Debug, PartialEq, Eq, Structural)]
pub struct TickDraws {
    /// Places the injected particle across the inlet's mouth.
    pub across: u64,
    /// Places the injected particle along the inlet's vertical span.
    pub along: u64,
    /// First jitter draw of the integration.
    pub first: u64,
    /// Second jitter draw of the integration.
    pub second: u64,
}

/// The particles after one tick for each entry of `draws`, in order.
pub open spec fn spec_ticks(
    ps: Seq<Particle>,
    params: Params,
    kernel: KernelConstants,
    draws: Seq<TickDraws>,
) -> Seq<Particle>
    decreases draws.len(),
{
    if draws.len() == 0 {
        ps
    } else {
        let d = draws.last();
        spec_tick(
            spec_ticks(ps, params, kernel, draws.drop_last()),
            params,
            kernel,
            d.across,
            d.along,
            d.first,
            d.second,
        )
    }
}

/// The simulation state.
pub struct Solver {
    /// The particles, in render order. A reader takes them between ticks.
    pub particles: Vec<Particle>,
    /// The parameters the solver was made with.
    pub params: Params,
    /// The kernel constants of the smoothing radius, computed at construction.
    pub kernel: KernelConstants,
    /// The generator that places injected particles.
    pub rng: XorShiftRng,
}

impl Solver {
    /// The parameters are valid and the kernel constants are those of the
    /// smoothing radius.
    pub open spec fn wf(&self) -> bool {
        &&& self.params.wf()
        &&& self.kernel == KernelConstants::spec_new(self.params.smoothing_radius)
    }

    /// A solver for the standard scene with up to `count` particles packed on
    /// the initial grid of 19 columns and 54 rows. The layout depends on
    /// `count` alone.
    pub fn new(count: u32) -> (s: Solver)
        ensures
            s.wf(),
            s.params == Params::spec_standard(),
            s.particles@ == packing(Params::spec_standard(), count as nat),
            s.particles@.len() == standard_count(count as nat),
            forall|k: int|
                0 <= k < s.particles@.len() ==> #[trigger] s.particles@[k] == standard_particle(k),
    {
        proof {
            lemma_standard_packing(count as nat);
        }
        Solver::with_params(count, Params::standard())
    }

    /// A solver for the scene that `params` describes. The kernel constants
    /// are computed here, once; the generator is seeded with `params.seed`.
    pub fn with_params(count: u32, params: Params) -> (s: Solver)
        requires
            params.wf(),
        ensures
            s.wf(),
            s.params == params,
            s.particles@ == packing(params, count as nat),
    {
        let particles: Vec<Particle> = pack(&params, count);
        let kernel: KernelConstants = KernelConstants::new(params.smoothing_radius);
        let rng: XorShiftRng = seeded_generator(params.seed);
        Solver { particles, params, kernel, rng }
    }

    fn run(&mut self, stage: Stage, first: u64, second: u64)
        ensures
            final(self).params == old(self).params,
            final(self).kernel == old(self).kernel,
            final(self).particles@ == after_stage(
                stage,
                old(self).particles@,
                old(self).params,
                old(self).kernel,
                first,
                second,
            ),
    {
        let snapshot: Vec<Particle> = self.particles.clone();
        assert(snapshot@ =~= self.particles@);
        for_each_in_parallel(
            &mut self.particles,
            stage,
            &snapshot,
            &self.params,
            &self.kernel,
            first,
            second,
        );
    }

    /// The density and pressure stage: every particle gets its density from
    /// the positions as they are before the stage, and its pressure from that
    /// density. Positions, velocities and forces stay.
    pub fn compute_density_pressure(&mut self)
        ensures
            final(self).params == old(self).params,
            final(self).kernel == old(self).kernel,
            final(self).particles@ == after_stage(
                Stage::DensityPressure,
                old(self).particles@,
                old(self).params,
                old(self).kernel,
                0,
                0,
            ),
            old(self).wf() ==> densities_floored(final(self).particles@),
            pressures_follow(final(self).particles@, old(self).params),
    {
        let ghost before = self.particles@;
        self.run(Stage::DensityPressure, 0, 0);
        proof {
            if old(self).wf() {
                assert forall|i: int| 0 <= i < self.particles@.len() implies (
                #[trigger] self.particles@[i]).density.raw >= Fixed::min_positive().raw by {
                    lemma_density_floor(before[i].position, before, self.params);
                }
            }
        }
    }

    /// The force stage.
    pub fn compute_forces(&mut self)
        ensures
            final(self).params == old(self).params,
            final(self).kernel == old(self).kernel,
            final(self).particles@ == after_stage(
                Stage::Forces,
                old(self).particles@,
                old(self).params,
                old(self).kernel,
                0,
                0,
            ),
    {
        self.run(Stage::Forces, 0, 0);
    }

    /// The integration and boundary stage with the given jitter draws.
    pub fn integrate_with(&mut self, first: u64, second: u64)
        ensures
            final(self).params == old(self).params,
            final(self).kernel == old(self).kernel,
            final(self).particles@ == after_stage(
                Stage::Advance,
                old(self).particles@,
                old(self).params,
                old(self).kernel,
                first,
                second,
            ),
            old(self).params.roomy() ==> all_inside(final(self).particles@, old(self).params),
    {
        let ghost before = self.particles@;
        self.run(Stage::Advance, first, second);
        proof {
            if self.params.roomy() {
                assert forall|i: int| 0 <= i < self.particles@.len() implies inside_margins(
                    (#[trigger] self.particles@[i]).position,
                    self.params,
                ) by {
                    lemma_advance_stays_inside(before[i], self.params, first, second);
                }
            }
        }
    }

    /// The integration and boundary stage. Its two jitter draws come from a
    /// generator seeded afresh with `jitter_seed`, so every particle and every
    /// tick sees the same two.
    pub fn integrate(&mut self)
        ensures
            final(self).params == old(self).params,
            final(self).kernel == old(self).kernel,
            exists|first: u64, second: u64|
                final(self).particles@ == after_stage(
                    Stage::Advance,
                    old(self).particles@,
                    old(self).params,
                    old(self).kernel,
                    first,
                    second,
                ),
            old(self).params.roomy() ==> all_inside(final(self).particles@, old(self).params),
    {
        let mut jitter: XorShiftRng = seeded_generator(self.params.jitter_seed);
        let first: u64 = next_draw(&mut jitter);
        let second: u64 = next_draw(&mut jitter);
        self.integrate_with(first, second);
    }

    /// Appends the injected particle where the capacity admits it.
    pub fn inject(&mut self, across: u64, along: u64)
        ensures
            final(self).params == old(self).params,
            final(self).kernel == old(self).kernel,
            final(self).particles@ == spec_inject(
                old(self).particles@,
                old(self).params,
                across,
                along,
            ),
    {
        if admits(self.params.capacity, self.particles.len()) {
            let p: Particle = spawn(&self.params, across, along);
            self.particles.push(p);
        }
    }

    /// One tick with all four draws given.
    pub fn update_with(&mut self, across: u64, along: u64, first: u64, second: u64)
        ensures
            final(self).params == old(self).params,
            final(self).kernel == old(self).kernel,
            final(self).particles@ == spec_tick(
                old(self).particles@,
                old(self).params,
                old(self).kernel,
                across,
                along,
                first,
                second,
            ),
            final(self).particles@.len() == grown(
                old(self).params.capacity,
                old(self).particles@.len(),
                1,
            ),
            old(self).wf() ==> densities_floored(final(self).particles@),
            old(self).params.roomy() ==> all_inside(final(self).particles@, old(self).params),
    {
        let ghost before = self.particles@;
        self.inject(across, along);
        self.compute_density_pressure();
        self.compute_forces();
        self.integrate_with(first, second);
        proof {
            let draws = TickDraws { across, along, first, second };
            lemma_tick_length(before, self.params, self.kernel, draws);
            if old(self).wf() {
                assert forall|i: int| 0 <= i < self.particles@.len() implies (
                #[trigger] self.particles@[i]).density.raw >= Fixed::min_positive().raw by {
                    lemma_tick_density_floor(before, self.params, draws, i);
                }
            }
        }
    }

    /// One tick: injects a particle placed by two draws of the solver's
    /// generator, then runs the three stages.
    pub fn update(&mut self)
        ensures
            final(self).params == old(self).params,
            final(self).kernel == old(self).kernel,
            exists|across: u64, along: u64, first: u64, second: u64|
                final(self).particles@ == spec_tick(
                    old(self).particles@,
                    old(self).params,
                    old(self).kernel,
                    across,
                    along,
                    first,
                    second,
                ),
            final(self).particles@.len() == grown(
                old(self).params.capacity,
                old(self).particles@.len(),
                1,
            ),
            old(self).wf() ==> densities_floored(final(self).particles@),
            old(self).params.roomy() ==> all_inside(final(self).particles@, old(self).params),
    {
        let across: u64 = next_draw(&mut self.rng);
        let along: u64 = next_draw(&mut self.rng);
        let mut jitter: XorShiftRng = seeded_generator(self.params.jitter_seed);
        let first: u64 = next_draw(&mut jitter);
        let second: u64 = next_draw(&mut jitter);
        self.update_with(across, along, first, second);
    }
}

} // verus!
