//! The parameters of a simulation: named, with the values of the standard
//! dam-break scene as defaults.

use vstd::prelude::*;
use crate::fixed::{Fixed, SCALE};
use crate::vec2::Vec2;

verus! {

/// The inlet: a rectangle that blocks particles at its top and bottom edges
/// and at its left edge, leaving a channel through which the jet enters.
/// `bottom` is the smaller and `top` the larger vertical coordinate.
#[derive(Clone, Copy, Debug, PartialEq, Eq, Structural)]
pub struct Hose {
    pub left: Fixed,
    pub right: Fixed,
    pub top: Fixed,
    pub bottom: Fixed,
}

/// What happens to the particle that a tick would inject.
#[derive(Clone, Copy, Debug, PartialEq, Eq, Structural)]
pub enum Capacity {
    /// Every tick injects a particle.
    Unbounded,
    /// A tick injects a particle only while fewer than this many are held.
    AtMost(usize),
}

/// The parameters of a scene.
#[derive(Clone, Copy, Debug, PartialEq, Eq, Structural)]
pub struct Params {
    /// Cutoff distance of the smoothing kernels.
    pub smoothing_radius: Fixed,
    /// Density at which the pressure vanishes.
    pub rest_density: Fixed,
    /// Pressure per unit of density above rest.
    pub gas_constant: Fixed,
    /// Mass of one particle.
    pub mass: Fixed,
    /// Viscosity coefficient.
    pub viscosity: Fixed,
    /// Gravity, scaled by a particle's own density to give its weight.
    pub gravity: Vec2,
    /// Factor applied to the velocity component normal to a wall on impact.
    pub boundary_damping: Fixed,
    /// Length of one tick.
    pub time_step: Fixed,
    /// The inlet rectangle.
    pub hose: Hose,
    /// Width of the domain.
    pub view_width: Fixed,
    /// Height of the domain.
    pub view_height: Fixed,
    /// Horizontal velocity of an injected particle.
    pub inlet_speed: Fixed,
    /// Bound on the number of particles.
    pub capacity: Capacity,
    /// Seed of the generator that places injected particles.
    pub seed: u64,
    /// Seed of the generator that supplies the wall jitter of each tick.
    pub jitter_seed: u64,
}

impl Params {
    /// The parameters for which the solver is meant: a smoothing radius above
    /// the hundredth that the packing step subtracts from it, and a mass that
    /// is not negative.
    pub open spec fn wf(self) -> bool {
        &&& self.smoothing_radius.raw > 10_000
        &&& self.mass.raw >= 0
    }

    /// The domain has room for the margins and the inlet: the radius is not
    /// negative, the domain is at least two radii wide and two radii and the
    /// largest jitter high, its size is below the end of the scalar range,
    /// and the places where the inlet's edges put a particle lie inside the
    /// margins.
    pub open spec fn roomy(self) -> bool {
        let h = self.smoothing_radius.raw;
        let hose = self.hose;
        &&& 0 <= h
        &&& self.view_width.raw < i64::MAX
        &&& self.view_height.raw < i64::MAX
        &&& 2 * h <= self.view_width.raw
        &&& 2 * h + 2 * SCALE <= self.view_height.raw
        &&& 0 <= hose.left.raw
        &&& hose.left.raw + 2 * h + 4 * SCALE <= self.view_width.raw
        &&& 0 <= hose.bottom.raw
        &&& hose.bottom.raw + 2 * h <= self.view_height.raw
        &&& 2 * h <= hose.top.raw <= self.view_height.raw
    }

    /// Whether `wf` holds.
    pub fn is_valid(&self) -> (b: bool)
        ensures
            b == self.wf(),
    {
        self.smoothing_radius.raw > 10_000 && self.mass.raw >= 0
    }

    pub open spec fn spec_standard() -> Params {
        Params {
            smoothing_radius: Fixed { raw: 16_000_000 },
            rest_density: Fixed { raw: 1_000_000_000 },
            gas_constant: Fixed { raw: 2_000_000_000 },
            mass: Fixed { raw: 65_000_000 },
            viscosity: Fixed { raw: 250_000_000 },
            gravity: Vec2 { x: Fixed { raw: 0 }, y: Fixed::of(-117_600_000_000) },
            boundary_damping: Fixed::of(-500_000),
            time_step: Fixed { raw: 800 },
            hose: Hose {
                left: Fixed { raw: 100_000_000 },
                right: Fixed { raw: 300_000_000 },
                top: Fixed { raw: 650_000_000 },
                bottom: Fixed { raw: 600_000_000 },
            },
            view_width: Fixed { raw: 1_200_000_000 },
            view_height: Fixed { raw: 900_000_000 },
            inlet_speed: Fixed { raw: 10_000_000 },
            capacity: Capacity::Unbounded,
            seed: 1234,
            jitter_seed: 23562,
        }
    }

    /// The standard scene: a domain of 1200 by 900 with smoothing radius 16,
    /// rest density 1000, gas constant 2000, mass 65, viscosity 250, gravity
    /// -117600 along y, damping -0.5, a tick of 0.0008, the inlet at
    /// 100..300 by 600..650, and no bound on the number of particles.
    #[verifier::when_used_as_spec(spec_standard)]
    pub fn standard() -> (p: Params)
        ensures
            p == Params::spec_standard(),
            p.wf(),
            p.roomy(),
    {
        Params {
            smoothing_radius: Fixed { raw: 16_000_000 },
            rest_density: Fixed { raw: 1_000_000_000 },
            gas_constant: Fixed { raw: 2_000_000_000 },
            mass: Fixed { raw: 65_000_000 },
            viscosity: Fixed { raw: 250_000_000 },
            gravity: Vec2 { x: Fixed { raw: 0 }, y: Fixed { raw: -117_600_000_000 } },
            boundary_damping: Fixed { raw: -500_000 },
            time_step: Fixed { raw: 800 },
            hose: Hose {
                left: Fixed { raw: 100_000_000 },
                right: Fixed { raw: 300_000_000 },
                top: Fixed { raw: 650_000_000 },
                bottom: Fixed { raw: 600_000_000 },
            },
            view_width: Fixed { raw: 1_200_000_000 },
            view_height: Fixed { raw: 900_000_000 },
            inlet_speed: Fixed { raw: 10_000_000 },
            capacity: Capacity::Unbounded,
            seed: 1234,
            jitter_seed: 23562,
        }
    }
}

impl Default for Hose {
    /// The empty rectangle at the origin.
    fn default() -> (h: Hose)
        ensures
            h == (Hose {
                left: Fixed::spec_zero(),
                right: Fixed::spec_zero(),
                top: Fixed::spec_zero(),
                bottom: Fixed::spec_zero(),
            }),
    {
        Hose { left: Fixed::zero(), right: Fixed::zero(), top: Fixed::zero(), bottom: Fixed::zero() }
    }
}

impl Default for Params {
    /// The standard scene.
    fn default() -> (p: Params)
        ensures
            p == Params::spec_standard(),
    {
        Params::standard()
    }
}

} // verus!
