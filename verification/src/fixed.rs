//! Fixed-point scalars: a signed 64-bit count of millionths, with operations
//! that round toward zero and saturate at the ends of the range.

use vstd::prelude::*;
use vstd::arithmetic::div_mod::{lemma_div_pos_is_pos, lemma_fundamental_div_mod, lemma_mod_bound};

verus! {

/// Raw units per world unit.
pub const SCALE: i64 = 1_000_000;

/// Raw units per one for the factors that are kept at fine resolution
/// (the kernel normalisation constants, which are far below one millionth).
pub const FINE_SCALE: i64 = 1_000_000_000_000_000_000;

/// A scalar: `raw` millionths.
#[derive(Clone, Copy, Debug, PartialEq, Eq, Structural)]
pub struct Fixed {
    pub raw: i64,
}

/// `x` brought into the range of `i64`.
pub open spec fn saturate(x: int) -> int {
    if x < i64::MIN as int {
        i64::MIN as int
    } else if x > i64::MAX as int {
        i64::MAX as int
    } else {
        x
    }
}

/// The absolute value of `x`.
pub open spec fn magnitude(x: int) -> int {
    if x < 0 {
        -x
    } else {
        x
    }
}

/// `num / den` rounded toward zero.
pub open spec fn trunc_div(num: int, den: int) -> int
    recommends
        den != 0,
{
    if (num >= 0) == (den > 0) {
        magnitude(num) / magnitude(den)
    } else {
        -(magnitude(num) / magnitude(den))
    }
}

/// The total quotient that all scalar operations share: `num / den` rounded
/// toward zero and saturated; a zero divisor gives the end of the range on the
/// side of `num`, and zero for zero over zero.
pub open spec fn quotient(num: int, den: int) -> int {
    if den == 0 {
        if num > 0 {
            i64::MAX as int
        } else if num < 0 {
            i64::MIN as int
        } else {
            0
        }
    } else {
        saturate(trunc_div(num, den))
    }
}

/// The sign of a quotient follows the signs of its operands; a zero divisor
/// counts as positive.
pub proof fn lemma_quotient_sign(num: int, den: int)
    ensures
        i64::MIN <= quotient(num, den) <= i64::MAX,
        num >= 0 && den >= 0 ==> quotient(num, den) >= 0,
        num <= 0 && den >= 0 ==> quotient(num, den) <= 0,
        num >= 0 && den < 0 ==> quotient(num, den) <= 0,
        num <= 0 && den < 0 ==> quotient(num, den) >= 0,
        num == 0 ==> quotient(num, den) == 0,
{
    if den != 0 {
        lemma_div_pos_is_pos(magnitude(num), magnitude(den));
        if num == 0 {
            assert(0int / magnitude(den) == 0) by (nonlinear_arith)
                requires
                    magnitude(den) > 0,
            ;
        }
    }
}

/// A product of two 64-bit factors, exact in 128 bits.
pub fn wide_product(a: i64, b: i64) -> (p: i128)
    ensures
        p == a * b,
{
    let x: i128 = a as i128;
    let y: i128 = b as i128;
    assert(-0x4000_0000_0000_0000_0000_0000_0000_0000 <= x * y
        <= 0x4000_0000_0000_0000_0000_0000_0000_0000) by (nonlinear_arith)
        requires
            -0x8000_0000_0000_0000 <= x <= 0x8000_0000_0000_0000,
            -0x8000_0000_0000_0000 <= y <= 0x8000_0000_0000_0000,
    ;
    x * y
}

fn magnitude_of(x: i128) -> (m: u128)
    ensures
        m == magnitude(x as int),
{
    if x < 0 {
        let y: i128 = -(x + 1);
        (y as u128) + 1
    } else {
        x as u128
    }
}

/// `x` saturated to 64 bits.
pub fn saturated(x: i128) -> (r: i64)
    ensures
        r == saturate(x as int),
{
    if x < -0x8000_0000_0000_0000 {
        i64::MIN
    } else if x > 0x7fff_ffff_ffff_ffff {
        i64::MAX
    } else {
        x as i64
    }
}

/// The shared total quotient, computed on magnitudes.
pub fn saturating_quotient(num: i128, den: i128) -> (r: i64)
    ensures
        r == quotient(num as int, den as int),
{
    if den == 0 {
        if num > 0 {
            i64::MAX
        } else if num < 0 {
            i64::MIN
        } else {
            0
        }
    } else {
        let n: u128 = magnitude_of(num);
        let d: u128 = magnitude_of(den);
        let q: u128 = n / d;
        if (num >= 0) == (den > 0) {
            if q > 0x7fff_ffff_ffff_ffff {
                i64::MAX
            } else {
                q as i64
            }
        } else {
            if q >= 0x8000_0000_0000_0000 {
                i64::MIN
            } else {
                -(q as i64)
            }
        }
    }
}

impl Fixed {
    /// The scalar of `raw` millionths.
    pub open spec fn of(raw: int) -> Fixed {
        Fixed { raw: raw as i64 }
    }

    pub open spec fn spec_from_int(n: i32) -> Fixed {
        Fixed { raw: (n * SCALE) as i64 }
    }

    /// The whole number `n`.
    #[verifier::when_used_as_spec(spec_from_int)]
    pub fn from_int(n: i32) -> (r: Fixed)
        ensures
            r == Fixed::spec_from_int(n),
            r.raw == n * SCALE,
    {
        Fixed { raw: (n as i64) * SCALE }
    }

    pub open spec fn spec_min_positive() -> Fixed {
        Fixed { raw: 1 }
    }

    /// The smallest scalar above zero: one raw unit.
    #[verifier::when_used_as_spec(spec_min_positive)]
    pub fn min_positive() -> (r: Fixed)
        ensures
            r == Fixed::spec_min_positive(),
    {
        Fixed { raw: 1 }
    }

    pub open spec fn spec_zero() -> Fixed {
        Fixed { raw: 0 }
    }

    /// Zero.
    #[verifier::when_used_as_spec(spec_zero)]
    pub fn zero() -> (r: Fixed)
        ensures
            r == Fixed::spec_zero(),
    {
        Fixed { raw: 0 }
    }

    pub open spec fn spec_plus(self, other: Fixed) -> Fixed {
        Fixed { raw: saturate(self.raw + other.raw) as i64 }
    }

    /// Saturating sum.
    #[verifier::when_used_as_spec(spec_plus)]
    pub fn plus(self, other: Fixed) -> (r: Fixed)
        ensures
            r == self.spec_plus(other),
    {
        Fixed { raw: saturated(self.raw as i128 + other.raw as i128) }
    }

    pub open spec fn spec_minus(self, other: Fixed) -> Fixed {
        Fixed { raw: saturate(self.raw - other.raw) as i64 }
    }

    /// Saturating difference.
    #[verifier::when_used_as_spec(spec_minus)]
    pub fn minus(self, other: Fixed) -> (r: Fixed)
        ensures
            r == self.spec_minus(other),
    {
        Fixed { raw: saturated(self.raw as i128 - other.raw as i128) }
    }

    pub open spec fn spec_negated(self) -> Fixed {
        Fixed { raw: saturate(-self.raw) as i64 }
    }

    /// Saturating negation.
    #[verifier::when_used_as_spec(spec_negated)]
    pub fn negated(self) -> (r: Fixed)
        ensures
            r == self.spec_negated(),
    {
        Fixed { raw: saturated(-(self.raw as i128)) }
    }

    pub open spec fn spec_times(self, other: Fixed) -> Fixed {
        Fixed { raw: quotient(self.raw * other.raw, SCALE as int) as i64 }
    }

    /// Product, rounded toward zero and saturated.
    #[verifier::when_used_as_spec(spec_times)]
    pub fn times(self, other: Fixed) -> (r: Fixed)
        ensures
            r == self.spec_times(other),
    {
        Fixed { raw: saturating_quotient(wide_product(self.raw, other.raw), SCALE as i128) }
    }

    pub open spec fn spec_over(self, other: Fixed) -> Fixed {
        Fixed { raw: quotient(self.raw * SCALE, other.raw as int) as i64 }
    }

    /// Quotient, rounded toward zero and saturated. Division by zero saturates
    /// on the side of the dividend.
    #[verifier::when_used_as_spec(spec_over)]
    pub fn over(self, other: Fixed) -> (r: Fixed)
        ensures
            r == self.spec_over(other),
    {
        Fixed { raw: saturating_quotient(wide_product(self.raw, SCALE), other.raw as i128) }
    }

    pub open spec fn spec_times_fine(self, factor: i64) -> Fixed {
        Fixed { raw: quotient(self.raw * factor, FINE_SCALE as int) as i64 }
    }

    /// Product with a factor given in units of `1 / FINE_SCALE`.
    #[verifier::when_used_as_spec(spec_times_fine)]
    pub fn times_fine(self, factor: i64) -> (r: Fixed)
        ensures
            r == self.spec_times_fine(factor),
    {
        Fixed { raw: saturating_quotient(wide_product(self.raw, factor), FINE_SCALE as i128) }
    }
}

/// `a` and `b` do not lie on the same side of zero.
pub open spec fn opposed(a: int, b: int) -> bool {
    (a >= 0 && b <= 0) || (a <= 0 && b >= 0)
}

/// `a` and `b` do not lie on different sides of zero.
pub open spec fn aligned(a: int, b: int) -> bool {
    (a >= 0 && b >= 0) || (a <= 0 && b <= 0)
}

/// The sign of a product of raw values follows the signs of the factors.
pub proof fn lemma_product_sign(a: int, b: int)
    ensures
        a >= 0 && b >= 0 ==> a * b >= 0,
        a <= 0 && b <= 0 ==> a * b >= 0,
        a >= 0 && b <= 0 ==> a * b <= 0,
        a <= 0 && b >= 0 ==> a * b <= 0,
        a == 0 || b == 0 ==> a * b == 0,
{
    assert(a >= 0 && b >= 0 ==> a * b >= 0) by (nonlinear_arith);
    assert(a <= 0 && b <= 0 ==> a * b >= 0) by (nonlinear_arith);
    assert(a >= 0 && b <= 0 ==> a * b <= 0) by (nonlinear_arith);
    assert(a <= 0 && b >= 0 ==> a * b <= 0) by (nonlinear_arith);
    assert(a == 0 || b == 0 ==> a * b == 0) by (nonlinear_arith);
}

/// The sign of a scalar product follows the signs of its factors, and a zero
/// factor gives zero.
pub proof fn lemma_times_sign(a: Fixed, b: Fixed)
    ensures
        a.raw >= 0 && b.raw >= 0 ==> a.times(b).raw >= 0,
        a.raw <= 0 && b.raw <= 0 ==> a.times(b).raw >= 0,
        a.raw >= 0 && b.raw <= 0 ==> a.times(b).raw <= 0,
        a.raw <= 0 && b.raw >= 0 ==> a.times(b).raw <= 0,
        a.raw == 0 || b.raw == 0 ==> a.times(b).raw == 0,
{
    lemma_product_sign(a.raw as int, b.raw as int);
    lemma_quotient_sign(a.raw * b.raw, SCALE as int);
}

/// The same for a product with a fine factor.
pub proof fn lemma_times_fine_sign(a: Fixed, factor: i64)
    ensures
        a.raw >= 0 && factor >= 0 ==> a.times_fine(factor).raw >= 0,
        a.raw <= 0 && factor <= 0 ==> a.times_fine(factor).raw >= 0,
        a.raw >= 0 && factor <= 0 ==> a.times_fine(factor).raw <= 0,
        a.raw <= 0 && factor >= 0 ==> a.times_fine(factor).raw <= 0,
        a.raw == 0 || factor == 0 ==> a.times_fine(factor).raw == 0,
{
    lemma_product_sign(a.raw as int, factor as int);
    lemma_quotient_sign(a.raw * factor, FINE_SCALE as int);
}

/// A quotient by a divisor that is not negative has the sign of the
/// dividend, and zero over anything is zero.
pub proof fn lemma_over_sign(a: Fixed, b: Fixed)
    ensures
        a.raw >= 0 && b.raw >= 0 ==> a.over(b).raw >= 0,
        a.raw <= 0 && b.raw >= 0 ==> a.over(b).raw <= 0,
        a.raw == 0 ==> a.over(b).raw == 0,
{
    lemma_product_sign(a.raw as int, SCALE as int);
    lemma_quotient_sign(a.raw * SCALE, b.raw as int);
}

impl Default for Fixed {
    /// Zero.
    fn default() -> (r: Fixed)
        ensures
            r == Fixed::spec_zero(),
    {
        Fixed { raw: 0 }
    }
}

/// Accuracy of the shared quotient: short of saturation it is the exact ratio
/// rounded toward zero, so it misses `num / den` by less than one.
pub proof fn lemma_quotient_error(num: int, den: int)
    requires
        den != 0,
        i64::MIN <= trunc_div(num, den) <= i64::MAX,
    ensures
        magnitude(quotient(num, den) * den) <= magnitude(num),
        magnitude(num) - magnitude(quotient(num, den) * den) < magnitude(den),
{
    let a = magnitude(num);
    let b = magnitude(den);
    let k = a / b;
    lemma_fundamental_div_mod(a, b);
    lemma_mod_bound(a, b);
    lemma_div_pos_is_pos(a, b);
    let q = quotient(num, den);
    assert(magnitude(q * den) == b * k) by (nonlinear_arith)
        requires
            q == k || q == -k,
            den == b || den == -b,
            b > 0,
            k >= 0,
    ;
}

} // verus!
