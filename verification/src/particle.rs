//! The unit of simulation state.

use vstd::prelude::*;
use crate::fixed::Fixed;
use crate::vec2::Vec2;

verus! {

/// One particle of fluid.
#[derive(Clone, Copy, Debug, PartialEq, Eq, Structural)]
pub struct Particle {
    /// Position in world units.
    pub position: Vec2,
    pub velocity: Vec2,
    /// Net force, recomputed by every tick.
    pub force: Vec2,
    /// Local density, at least the smallest positive scalar once the density
    /// stage has run.
    pub density: Fixed,
    /// Equation-of-state pressure; negative below rest density.
    pub pressure: Fixed,
}

impl Particle {
    pub open spec fn spec_new(position: Vec2, velocity: Vec2) -> Particle {
        Particle {
            position,
            velocity,
            force: Vec2::zero(),
            density: Fixed::zero(),
            pressure: Fixed::zero(),
        }
    }

    /// A particle at `position` moving with `velocity`, with no force, density
    /// or pressure yet.
    #[verifier::when_used_as_spec(spec_new)]
    pub fn new(position: Vec2, velocity: Vec2) -> (p: Particle)
        ensures
            p == Particle::spec_new(position, velocity),
    {
        Particle {
            position,
            velocity,
            force: Vec2::zero(),
            density: Fixed::zero(),
            pressure: Fixed::zero(),
        }
    }
}

impl Default for Particle {
    /// A particle at rest at the origin.
    fn default() -> (p: Particle)
        ensures
            p == Particle::spec_new(Vec2::spec_zero(), Vec2::spec_zero()),
    {
        Particle::new(Vec2::zero(), Vec2::zero())
    }
}

} // verus!
