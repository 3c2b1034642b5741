//! The pseudo-random generator and the scalars drawn from it.

use vstd::prelude::*;
use vstd::arithmetic::div_mod::{lemma_div_is_ordered, lemma_div_pos_is_pos};
use rand_core::{RngCore, SeedableRng};
use rand_xorshift::XorShiftRng;
use crate::fixed::{quotient, saturating_quotient, Fixed};

verus! {

/// rand_xorshift's `XorShiftRng`, carried as an opaque value: nothing is
/// claimed of what it holds.
#[verifier::external_type_specification]
#[verifier::external_body]
pub struct ExXorShiftRng(XorShiftRng);

/// `XorShiftRng::seed_from_u64` of rand_core's `SeedableRng`: a generator
/// started from `seed`. Nothing is claimed of its state.
#[verifier::external_body]
pub(crate) fn seeded_generator(seed: u64) -> XorShiftRng {
    XorShiftRng::seed_from_u64(seed)
}

/// `XorShiftRng::next_u64` of rand_core's `RngCore`: the generator's next 64
/// bits. Nothing is claimed of their value.
#[verifier::external_body]
pub(crate) fn next_draw(rng: &mut XorShiftRng) -> u64 {
    rng.next_u64()
}

/// The scalar that a draw picks between `start` and `end`: the draw, taken as
/// a fraction of the largest draw, of the way from `start` to `end`.
pub open spec fn spec_range(draw: u64, start: Fixed, end: Fixed) -> Fixed {
    start.plus(Fixed::of(quotient(draw * end.minus(start).raw, u64::MAX as int)))
}

/// Maps a draw to a scalar between `start` and `end`.
#[verifier::when_used_as_spec(spec_range)]
pub fn range(draw: u64, start: Fixed, end: Fixed) -> (r: Fixed)
    ensures
        r == spec_range(draw, start, end),
        start.raw <= end.raw ==> start.raw <= r.raw <= end.raw,
{
    let width: Fixed = end.minus(start);
    let d: i128 = draw as i128;
    let w: i128 = width.raw as i128;
    assert(-0x7fff_ffff_ffff_ffff_8000_0000_0000_0000 <= d * w
        <= 0x7fff_ffff_ffff_ffff_8000_0000_0000_0000) by (nonlinear_arith)
        requires
            0 <= d <= 0xffff_ffff_ffff_ffff,
            -0x8000_0000_0000_0000 <= w <= 0x8000_0000_0000_0000,
    ;
    let offset: i64 = saturating_quotient(d * w, 0xffff_ffff_ffff_ffff);
    proof {
        if start.raw <= end.raw {
            lemma_range_between(draw, start, end);
        }
    }
    start.plus(Fixed { raw: offset })
}

/// A draw takes a width that is not negative to an offset between zero and
/// that width.
pub proof fn lemma_range_offset(draw: u64, width: i64)
    requires
        width >= 0,
    ensures
        0 <= quotient(draw * width, u64::MAX as int) <= width,
{
    let m = u64::MAX as int;
    assert(0 <= draw * width <= m * width) by (nonlinear_arith)
        requires
            0 <= draw <= m,
            width >= 0,
    ;
    lemma_div_pos_is_pos(draw * width, m);
    lemma_div_is_ordered(draw * width, m * width, m);
    assert((m * width) / m == width) by (nonlinear_arith)
        requires
            m > 0,
    ;
}

/// The scalar picked between `start` and `end` lies between them.
pub proof fn lemma_range_between(draw: u64, start: Fixed, end: Fixed)
    requires
        start.raw <= end.raw,
    ensures
        start.raw <= spec_range(draw, start, end).raw <= end.raw,
{
    lemma_range_offset(draw, end.minus(start).raw);
}

} // verus!
