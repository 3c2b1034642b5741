//! Two-dimensional vectors of fixed-point scalars.

use vstd::prelude::*;
use crate::fixed::{saturate, wide_product, Fixed, SCALE};
use crate::root::{floor_sqrt, isqrt};

verus! {

/// A vector in the plane.
#[derive(Clone, Copy, Debug, PartialEq, Eq, Structural)]
pub struct Vec2 {
    pub x: Fixed,
    pub y: Fixed,
}

/// The sum of the squares of two raw components: never negative.
pub open spec fn square_sum(a: int, b: int) -> int {
    a * a + b * b
}

fn raw_square_sum(a: i64, b: i64) -> (s: u128)
    ensures
        s == square_sum(a as int, b as int),
{
    let aa: i128 = wide_product(a, a);
    let bb: i128 = wide_product(b, b);
    assert(0 <= a * a <= 0x4000_0000_0000_0000_0000_0000_0000_0000) by (nonlinear_arith)
        requires
            -0x8000_0000_0000_0000 <= a <= 0x8000_0000_0000_0000,
    ;
    assert(0 <= b * b <= 0x4000_0000_0000_0000_0000_0000_0000_0000) by (nonlinear_arith)
        requires
            -0x8000_0000_0000_0000 <= b <= 0x8000_0000_0000_0000,
    ;
    (aa as u128) + (bb as u128)
}

impl Vec2 {
    pub open spec fn spec_new(x: Fixed, y: Fixed) -> Vec2 {
        Vec2 { x, y }
    }

    /// The vector with components `x` and `y`.
    #[verifier::when_used_as_spec(spec_new)]
    pub fn new(x: Fixed, y: Fixed) -> (r: Vec2)
        ensures
            r == Vec2::spec_new(x, y),
    {
        Vec2 { x, y }
    }

    pub open spec fn spec_zero() -> Vec2 {
        Vec2 { x: Fixed::zero(), y: Fixed::zero() }
    }

    /// The zero vector.
    #[verifier::when_used_as_spec(spec_zero)]
    pub fn zero() -> (r: Vec2)
        ensures
            r == Vec2::spec_zero(),
    {
        Vec2 { x: Fixed::zero(), y: Fixed::zero() }
    }

    pub open spec fn spec_plus(self, other: Vec2) -> Vec2 {
        Vec2 { x: self.x.plus(other.x), y: self.y.plus(other.y) }
    }

    /// Componentwise saturating sum.
    #[verifier::when_used_as_spec(spec_plus)]
    pub fn plus(self, other: Vec2) -> (r: Vec2)
        ensures
            r == self.spec_plus(other),
    {
        Vec2 { x: self.x.plus(other.x), y: self.y.plus(other.y) }
    }

    pub open spec fn spec_minus(self, other: Vec2) -> Vec2 {
        Vec2 { x: self.x.minus(other.x), y: self.y.minus(other.y) }
    }

    /// Componentwise saturating difference.
    #[verifier::when_used_as_spec(spec_minus)]
    pub fn minus(self, other: Vec2) -> (r: Vec2)
        ensures
            r == self.spec_minus(other),
    {
        Vec2 { x: self.x.minus(other.x), y: self.y.minus(other.y) }
    }

    pub open spec fn spec_negated(self) -> Vec2 {
        Vec2 { x: self.x.negated(), y: self.y.negated() }
    }

    /// Componentwise saturating negation.
    #[verifier::when_used_as_spec(spec_negated)]
    pub fn negated(self) -> (r: Vec2)
        ensures
            r == self.spec_negated(),
    {
        Vec2 { x: self.x.negated(), y: self.y.negated() }
    }

    pub open spec fn spec_scaled(self, s: Fixed) -> Vec2 {
        Vec2 { x: self.x.times(s), y: self.y.times(s) }
    }

    /// Both components times `s`.
    #[verifier::when_used_as_spec(spec_scaled)]
    pub fn scaled(self, s: Fixed) -> (r: Vec2)
        ensures
            r == self.spec_scaled(s),
    {
        Vec2 { x: self.x.times(s), y: self.y.times(s) }
    }

    pub open spec fn spec_scaled_fine(self, factor: i64) -> Vec2 {
        Vec2 { x: self.x.times_fine(factor), y: self.y.times_fine(factor) }
    }

    /// Both components times a factor given in units of `1 / FINE_SCALE`.
    #[verifier::when_used_as_spec(spec_scaled_fine)]
    pub fn scaled_fine(self, factor: i64) -> (r: Vec2)
        ensures
            r == self.spec_scaled_fine(factor),
    {
        Vec2 { x: self.x.times_fine(factor), y: self.y.times_fine(factor) }
    }

    pub open spec fn spec_divided(self, s: Fixed) -> Vec2 {
        Vec2 { x: self.x.over(s), y: self.y.over(s) }
    }

    /// Both components over `s`.
    #[verifier::when_used_as_spec(spec_divided)]
    pub fn divided(self, s: Fixed) -> (r: Vec2)
        ensures
            r == self.spec_divided(s),
    {
        Vec2 { x: self.x.over(s), y: self.y.over(s) }
    }

    pub open spec fn spec_length(self) -> Fixed {
        Fixed { raw: saturate(floor_sqrt(square_sum(self.x.raw as int, self.y.raw as int))) as i64 }
    }

    /// The Euclidean length, rounded down to a raw unit and saturated.
    #[verifier::when_used_as_spec(spec_length)]
    pub fn length(self) -> (r: Fixed)
        ensures
            r == self.spec_length(),
            r.raw >= 0,
            r.raw == 0 <==> (self.x.raw == 0 && self.y.raw == 0),
    {
        let s: u128 = raw_square_sum(self.x.raw, self.y.raw);
        let root: u64 = isqrt(s);
        assert(root == 0 <==> (self.x.raw == 0 && self.y.raw == 0)) by (nonlinear_arith)
            requires
                s == self.x.raw * self.x.raw + self.y.raw * self.y.raw,
                root * root <= s < (root + 1) * (root + 1),
                root >= 0,
        ;
        if root > 0x7fff_ffff_ffff_ffff {
            Fixed { raw: i64::MAX }
        } else {
            Fixed { raw: root as i64 }
        }
    }

    pub open spec fn spec_distance_squared(self, other: Vec2) -> Fixed {
        let d = self.minus(other);
        Fixed { raw: saturate(square_sum(d.x.raw as int, d.y.raw as int) / (SCALE as int)) as i64 }
    }

    /// The squared distance to `other`, rounded down and saturated.
    #[verifier::when_used_as_spec(spec_distance_squared)]
    pub fn distance_squared(self, other: Vec2) -> (r: Fixed)
        ensures
            r == self.spec_distance_squared(other),
            r.raw >= 0,
    {
        let d: Vec2 = self.minus(other);
        let s: u128 = raw_square_sum(d.x.raw, d.y.raw);
        let q: u128 = s / 1_000_000u128;
        if q > 0x7fff_ffff_ffff_ffff {
            Fixed { raw: i64::MAX }
        } else {
            Fixed { raw: q as i64 }
        }
    }

    pub open spec fn spec_normalized(self) -> Vec2 {
        self.divided(self.length())
    }

    /// The vector over its own length.
    #[verifier::when_used_as_spec(spec_normalized)]
    pub fn normalized(self) -> (r: Vec2)
        ensures
            r == self.spec_normalized(),
    {
        self.divided(self.length())
    }
}

impl Default for Vec2 {
    /// The zero vector.
    fn default() -> (r: Vec2)
        ensures
            r == Vec2::spec_zero(),
    {
        Vec2::zero()
    }
}

} // verus!
