//! The initial packing: a rectangular block of particles on a grid.

use vstd::prelude::*;
use vstd::arithmetic::div_mod::{
    lemma_div_pos_is_pos, lemma_fundamental_div_mod, lemma_mod_bound, lemma_multiply_divide_lt,
};
use crate::fixed::Fixed;
use crate::params::Params;
use crate::particle::Particle;
use crate::vec2::Vec2;

verus! {

/// The distance between neighbours on the grid: the smoothing radius less a
/// hundredth.
pub open spec fn spec_grid_step(params: Params) -> Fixed {
    params.smoothing_radius.minus(Fixed { raw: 10_000 })
}

/// The first grid point: a quarter of the view width, and one radius.
pub open spec fn spec_grid_origin(params: Params) -> Vec2 {
    Vec2 { x: params.view_width.over(Fixed::from_int(4)), y: params.smoothing_radius }
}

/// The bounds that grid points stay below: half the view width, and the view
/// height less two radii.
pub open spec fn spec_grid_limit(params: Params) -> Vec2 {
    Vec2 {
        x: params.view_width.over(Fixed::from_int(2)),
        y: params.view_height.minus(Fixed::from_int(2).times(params.smoothing_radius)),
    }
}

/// How many of `lo`, `lo + step`, `lo + 2 step`, ... lie below `hi`.
pub open spec fn steps_below(lo: int, hi: int, step: int) -> int {
    if lo < hi {
        (hi - lo - 1) / step + 1
    } else {
        0
    }
}

/// The number of grid points in a row.
pub open spec fn grid_columns(params: Params) -> int {
    steps_below(
        spec_grid_origin(params).x.raw as int,
        spec_grid_limit(params).x.raw as int,
        spec_grid_step(params).raw as int,
    )
}

/// The number of rows of the grid.
pub open spec fn grid_rows(params: Params) -> int {
    steps_below(
        spec_grid_origin(params).y.raw as int,
        spec_grid_limit(params).y.raw as int,
        spec_grid_step(params).raw as int,
    )
}

/// The number of particles that a request for `count` gives: `count`, or the
/// whole grid where it has fewer points.
pub open spec fn packed_count(params: Params, count: nat) -> nat {
    let grid = grid_rows(params) * grid_columns(params);
    if grid < count {
        grid as nat
    } else {
        count
    }
}

/// The `k`-th particle of the packing, row by row: at rest on its grid point.
pub open spec fn packed_particle(params: Params, k: int) -> Particle {
    let cols = grid_columns(params);
    let origin = spec_grid_origin(params);
    let step = spec_grid_step(params);
    Particle::new(
        Vec2 {
            x: Fixed::of(origin.x.raw + (k % cols) * step.raw),
            y: Fixed::of(origin.y.raw + (k / cols) * step.raw),
        },
        Vec2::zero(),
    )
}

/// The initial particles for a request of `count`.
pub open spec fn packing(params: Params, count: nat) -> Seq<Particle> {
    Seq::new(packed_count(params, count), |k: int| packed_particle(params, k))
}

/// A grid coordinate with an index below `steps_below` lies between `lo` and
/// `hi`.
pub proof fn lemma_grid_point_in_range(lo: int, hi: int, step: int, c: int)
    requires
        step > 0,
        0 <= c < steps_below(lo, hi, step),
    ensures
        lo < hi,
        lo <= lo + c * step < hi,
{
    let span = hi - lo - 1;
    lemma_fundamental_div_mod(span, step);
    lemma_mod_bound(span, step);
    assert(0 <= c * step <= (span / step) * step) by (nonlinear_arith)
        requires
            0 <= c <= span / step,
            step > 0,
    ;
    assert(step * (span / step) == (span / step) * step) by (nonlinear_arith);
}

fn count_steps(lo: i64, hi: i64, step: i64) -> (n: u64)
    requires
        step > 0,
    ensures
        n == steps_below(lo as int, hi as int, step as int),
{
    if lo < hi {
        let span: i128 = (hi as i128) - (lo as i128) - 1;
        proof {
            lemma_div_pos_is_pos(span as int, step as int);
            lemma_fundamental_div_mod(span as int, step as int);
            lemma_mod_bound(span as int, step as int);
            assert((span as int) / (step as int) <= span) by (nonlinear_arith)
                requires
                    span == step * ((span as int) / (step as int)) + (span as int) % (step as int),
                    (span as int) % (step as int) >= 0,
                    (span as int) / (step as int) >= 0,
                    step >= 1,
            ;
        }
        let q: i128 = span / (step as i128);
        (q + 1) as u64
    } else {
        0
    }
}

/// Lays out the initial block: grid points row by row from the origin, until
/// `count` particles are placed or the grid is used up.
pub fn pack(params: &Params, count: u32) -> (v: Vec<Particle>)
    requires
        params.wf(),
    ensures
        v@ == packing(*params, count as nat),
{
    let step: Fixed = params.smoothing_radius.minus(Fixed { raw: 10_000 });
    let origin: Vec2 = Vec2 {
        x: params.view_width.over(Fixed::from_int(4)),
        y: params.smoothing_radius,
    };
    let limit: Vec2 = Vec2 {
        x: params.view_width.over(Fixed::from_int(2)),
        y: params.view_height.minus(Fixed::from_int(2).times(params.smoothing_radius)),
    };
    let cols: u64 = count_steps(origin.x.raw, limit.x.raw, step.raw);
    let rows: u64 = count_steps(origin.y.raw, limit.y.raw, step.raw);
    assert(0 <= rows * cols <= 0xffff_ffff_ffff_ffff * 0xffff_ffff_ffff_ffff) by (nonlinear_arith)
        requires
            0 <= rows <= 0xffff_ffff_ffff_ffff,
            0 <= cols <= 0xffff_ffff_ffff_ffff,
    ;
    let grid: u128 = (rows as u128) * (cols as u128);
    let total: u32 = if grid < count as u128 {
        grid as u32
    } else {
        count
    };
    let mut v: Vec<Particle> = Vec::new();
    let mut k: u32 = 0;
    while k < total
        invariant
            k <= total,
            total == packed_count(*params, count as nat),
            total <= rows * cols,
            cols == grid_columns(*params),
            rows == grid_rows(*params),
            step == spec_grid_step(*params),
            origin == spec_grid_origin(*params),
            limit == spec_grid_limit(*params),
            step.raw > 0,
            v@.len() == k,
            forall|i: int| 0 <= i < k ==> v@[i] == packed_particle(*params, i),
        decreases total - k,
    {
        assert(cols > 0) by (nonlinear_arith)
            requires
                k < rows * cols,
                rows >= 0,
                cols >= 0,
        ;
        let col: u64 = (k as u64) % cols;
        let row: u64 = (k as u64) / cols;
        proof {
            lemma_mod_bound(k as int, cols as int);
            lemma_div_pos_is_pos(k as int, cols as int);
            assert((k as int) < (cols as int) * (rows as int)) by (nonlinear_arith)
                requires
                    k < rows * cols,
            ;
            lemma_multiply_divide_lt(k as int, cols as int, rows as int);
            lemma_grid_point_in_range(
                origin.x.raw as int,
                limit.x.raw as int,
                step.raw as int,
                col as int,
            );
            lemma_grid_point_in_range(
                origin.y.raw as int,
                limit.y.raw as int,
                step.raw as int,
                row as int,
            );
        }
        let dx: i128 = (col as i128) * (step.raw as i128);
        let dy: i128 = (row as i128) * (step.raw as i128);
        let x: i64 = ((origin.x.raw as i128) + dx) as i64;
        let y: i64 = ((origin.y.raw as i128) + dy) as i64;
        v.push(Particle::new(Vec2 { x: Fixed { raw: x }, y: Fixed { raw: y } }, Vec2::zero()));
        k = k + 1;
    }
    assert(v@ =~= packing(*params, count as nat));
    v
}

/// The grid of the standard scene: 19 columns from x = 300 and 54 rows from
/// y = 16, 15.99 apart; 1026 points in all.
pub proof fn lemma_standard_grid()
    ensures
        spec_grid_origin(Params::spec_standard()) == (Vec2 {
            x: Fixed { raw: 300_000_000 },
            y: Fixed { raw: 16_000_000 },
        }),
        spec_grid_step(Params::spec_standard()).raw == 15_990_000,
        grid_columns(Params::spec_standard()) == 19,
        grid_rows(Params::spec_standard()) == 54,
{
    let p = Params::spec_standard();
    assert(p.view_width.over(Fixed::from_int(4)).raw == 300_000_000) by {
        assert(1_200_000_000_000_000int / 4_000_000int == 300_000_000);
    }
    assert(p.view_width.over(Fixed::from_int(2)).raw == 600_000_000) by {
        assert(1_200_000_000_000_000int / 2_000_000int == 600_000_000);
    }
    assert(Fixed::from_int(2).times(p.smoothing_radius).raw == 32_000_000) by {
        assert(2_000_000int * 16_000_000int == 32_000_000_000_000int);
        assert(32_000_000_000_000int / 1_000_000int == 32_000_000);
    }
    assert(299_999_999int / 15_990_000int == 18);
    assert(851_999_999int / 15_990_000int == 53);
}

/// The `k`-th point of the standard grid, with a particle at rest on it.
pub open spec fn standard_particle(k: int) -> Particle {
    Particle::new(
        Vec2 {
            x: Fixed::of(300_000_000 + (k % 19) * 15_990_000),
            y: Fixed::of(16_000_000 + (k / 19) * 15_990_000),
        },
        Vec2::zero(),
    )
}

/// The number of particles that the standard scene gives for a request of
/// `count`.
pub open spec fn standard_count(count: nat) -> nat {
    if count < 1026 {
        count
    } else {
        1026
    }
}

/// The packing of the standard scene: the first `count` of the 1026 grid
/// points, the `k`-th in column `k % 19` of row `k / 19`.
pub proof fn lemma_standard_packing(count: nat)
    ensures
        packing(Params::spec_standard(), count).len() == standard_count(count),
        forall|k: int|
            0 <= k < standard_count(count) ==> #[trigger] packing(Params::spec_standard(), count)[k]
                == standard_particle(k),
{
    lemma_standard_grid();
}

} // verus!
