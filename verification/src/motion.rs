//! The integration and boundary stage: a semi-implicit Euler step, then
//! reflection at the four edges of the domain and at the three active edges
//! of the inlet.

use vstd::prelude::*;
use crate::fixed::Fixed;
use crate::params::Params;
use crate::particle::Particle;
use crate::rng::{range, spec_range};
use crate::vec2::Vec2;

verus! {

/// Position and velocity of a particle on its way through the stage, with
/// the number of jitter draws that its corrections have taken so far.
#[derive(Clone, Copy, Debug, PartialEq, Eq, Structural)]
pub struct Motion {
    pub position: Vec2,
    pub velocity: Vec2,
    pub draws_taken: u8,
}

/// The draw that the next jittered correction takes: the first of the two
/// while none was taken, the second afterwards.
pub open spec fn spec_next_jitter(m: Motion, first: u64, second: u64) -> u64 {
    if m.draws_taken == 0 {
        first
    } else {
        second
    }
}

fn next_jitter(m: &Motion, first: u64, second: u64) -> (d: u64)
    ensures
        d == spec_next_jitter(*m, first, second),
{
    if m.draws_taken == 0 {
        first
    } else {
        second
    }
}

/// The Euler step: `velocity += dt * force / density`, then
/// `position += dt * velocity` with the new velocity.
pub open spec fn spec_euler_step(p: Particle, params: Params) -> Motion {
    let velocity = p.velocity.plus(p.force.scaled(params.time_step).divided(p.density));
    Motion {
        position: p.position.plus(velocity.scaled(params.time_step)),
        velocity,
        draws_taken: 0,
    }
}

/// The Euler step of `p`, before any boundary.
pub fn euler_step(p: &Particle, params: &Params) -> (m: Motion)
    ensures
        m == spec_euler_step(*p, *params),
{
    let velocity: Vec2 = p.velocity.plus(p.force.scaled(params.time_step).divided(p.density));
    Motion {
        position: p.position.plus(velocity.scaled(params.time_step)),
        velocity,
        draws_taken: 0,
    }
}

/// `m` with its horizontal velocity damped and its horizontal position set.
pub open spec fn spec_bounce_x(m: Motion, params: Params, x: Fixed) -> Motion {
    Motion {
        position: Vec2 { x, y: m.position.y },
        velocity: Vec2 { x: m.velocity.x.times(params.boundary_damping), y: m.velocity.y },
        draws_taken: m.draws_taken,
    }
}

fn bounce_x(m: Motion, params: &Params, x: Fixed) -> (r: Motion)
    ensures
        r == spec_bounce_x(m, *params, x),
{
    Motion {
        position: Vec2 { x, y: m.position.y },
        velocity: Vec2 { x: m.velocity.x.times(params.boundary_damping), y: m.velocity.y },
        draws_taken: m.draws_taken,
    }
}

/// `m` with its vertical velocity damped and its vertical position set.
pub open spec fn spec_bounce_y(m: Motion, params: Params, y: Fixed) -> Motion {
    Motion {
        position: Vec2 { x: m.position.x, y },
        velocity: Vec2 { x: m.velocity.x, y: m.velocity.y.times(params.boundary_damping) },
        draws_taken: m.draws_taken,
    }
}

fn bounce_y(m: Motion, params: &Params, y: Fixed) -> (r: Motion)
    ensures
        r == spec_bounce_y(m, *params, y),
{
    Motion {
        position: Vec2 { x: m.position.x, y },
        velocity: Vec2 { x: m.velocity.x, y: m.velocity.y.times(params.boundary_damping) },
        draws_taken: m.draws_taken,
    }
}

/// `m` after one more jitter draw was taken.
pub open spec fn spec_draw_taken(m: Motion) -> Motion {
    Motion {
        position: m.position,
        velocity: m.velocity,
        draws_taken: if m.draws_taken == 0 {
            1u8
        } else {
            2u8
        },
    }
}

fn draw_taken(m: Motion) -> (r: Motion)
    ensures
        r == spec_draw_taken(m),
{
    Motion {
        position: m.position,
        velocity: m.velocity,
        draws_taken: if m.draws_taken == 0 {
            1
        } else {
            2
        },
    }
}

/// Left edge of the domain: a particle closer than the smoothing radius to
/// `x = 0` is put at the radius, its horizontal velocity damped.
pub open spec fn spec_left_edge(m: Motion, params: Params) -> Motion {
    if m.position.x.minus(params.smoothing_radius).raw < 0 {
        spec_bounce_x(m, params, params.smoothing_radius)
    } else {
        m
    }
}

/// Applies the left edge of the domain.
pub fn left_edge(m: Motion, params: &Params) -> (r: Motion)
    ensures
        r == spec_left_edge(m, *params),
{
    if m.position.x.minus(params.smoothing_radius).raw < 0 {
        bounce_x(m, params, params.smoothing_radius)
    } else {
        m
    }
}

/// Right edge of the domain, at the view width.
pub open spec fn spec_right_edge(m: Motion, params: Params) -> Motion {
    if m.position.x.plus(params.smoothing_radius).raw > params.view_width.raw {
        spec_bounce_x(m, params, params.view_width.minus(params.smoothing_radius))
    } else {
        m
    }
}

/// Applies the right edge of the domain.
pub fn right_edge(m: Motion, params: &Params) -> (r: Motion)
    ensures
        r == spec_right_edge(m, *params),
{
    if m.position.x.plus(params.smoothing_radius).raw > params.view_width.raw {
        bounce_x(m, params, params.view_width.minus(params.smoothing_radius))
    } else {
        m
    }
}

/// Edge of the domain at `y = 0`: the particle is put at the radius plus a
/// jitter between one and two, its vertical velocity damped.
pub open spec fn spec_top_edge(m: Motion, params: Params, first: u64, second: u64) -> Motion {
    if m.position.y.minus(params.smoothing_radius).raw < 0 {
        let jitter = spec_range(
            spec_next_jitter(m, first, second),
            Fixed::from_int(1),
            Fixed::from_int(2),
        );
        spec_draw_taken(spec_bounce_y(m, params, params.smoothing_radius.plus(jitter)))
    } else {
        m
    }
}

/// Applies the edge of the domain at `y = 0`.
pub fn top_edge(m: Motion, params: &Params, first: u64, second: u64) -> (r: Motion)
    ensures
        r == spec_top_edge(m, *params, first, second),
{
    if m.position.y.minus(params.smoothing_radius).raw < 0 {
        let jitter: Fixed = range(
            next_jitter(&m, first, second),
            Fixed::from_int(1),
            Fixed::from_int(2),
        );
        draw_taken(bounce_y(m, params, params.smoothing_radius.plus(jitter)))
    } else {
        m
    }
}

/// Edge of the domain at the view height.
pub open spec fn spec_bottom_edge(m: Motion, params: Params) -> Motion {
    if m.position.y.plus(params.smoothing_radius).raw > params.view_height.raw {
        spec_bounce_y(m, params, params.view_height.minus(params.smoothing_radius))
    } else {
        m
    }
}

/// Applies the edge of the domain at the view height.
pub fn bottom_edge(m: Motion, params: &Params) -> (r: Motion)
    ensures
        r == spec_bottom_edge(m, *params),
{
    if m.position.y.plus(params.smoothing_radius).raw > params.view_height.raw {
        bounce_y(m, params, params.view_height.minus(params.smoothing_radius))
    } else {
        m
    }
}

/// Upper edge of the inlet: a particle left of the inlet's right end, below
/// the edge by less than the radius and rising, is put a radius below it.
pub open spec fn spec_hose_top(m: Motion, params: Params) -> Motion {
    let hose = params.hose;
    if m.position.x.raw < hose.right.raw && m.position.y.raw < hose.top.raw && m.position.y.plus(
        params.smoothing_radius,
    ).raw > hose.top.raw && m.velocity.y.raw > 0 {
        spec_bounce_y(m, params, hose.top.minus(params.smoothing_radius))
    } else {
        m
    }
}

/// Applies the upper edge of the inlet.
pub fn hose_top(m: Motion, params: &Params) -> (r: Motion)
    ensures
        r == spec_hose_top(m, *params),
{
    let hose = params.hose;
    if m.position.x.raw < hose.right.raw && m.position.y.raw < hose.top.raw && m.position.y.plus(
        params.smoothing_radius,
    ).raw > hose.top.raw && m.velocity.y.raw > 0 {
        bounce_y(m, params, hose.top.minus(params.smoothing_radius))
    } else {
        m
    }
}

/// Lower edge of the inlet: a particle left of the inlet's right end, above
/// the edge by less than the radius and falling, is put a radius above it.
pub open spec fn spec_hose_bottom(m: Motion, params: Params) -> Motion {
    let hose = params.hose;
    if m.position.x.raw < hose.right.raw && m.position.y.raw > hose.bottom.raw
        && m.position.y.minus(params.smoothing_radius).raw < hose.bottom.raw && m.velocity.y.raw
        < 0 {
        spec_bounce_y(m, params, hose.bottom.plus(params.smoothing_radius))
    } else {
        m
    }
}

/// Applies the lower edge of the inlet.
pub fn hose_bottom(m: Motion, params: &Params) -> (r: Motion)
    ensures
        r == spec_hose_bottom(m, *params),
{
    let hose = params.hose;
    if m.position.x.raw < hose.right.raw && m.position.y.raw > hose.bottom.raw
        && m.position.y.minus(params.smoothing_radius).raw < hose.bottom.raw && m.velocity.y.raw
        < 0 {
        bounce_y(m, params, hose.bottom.plus(params.smoothing_radius))
    } else {
        m
    }
}

/// Left edge of the inlet: a particle inside the inlet's vertical span, right
/// of the edge by less than the radius and moving left, is put at the edge
/// plus the radius plus a jitter between one and four.
pub open spec fn spec_hose_left(m: Motion, params: Params, first: u64, second: u64) -> Motion {
    let hose = params.hose;
    if m.position.x.raw > hose.left.raw && m.position.x.minus(params.smoothing_radius).raw
        < hose.left.raw && m.velocity.x.raw < 0 && m.position.y.raw > hose.bottom.raw
        && m.position.y.raw < hose.top.raw {
        let jitter = spec_range(
            spec_next_jitter(m, first, second),
            Fixed::from_int(1),
            Fixed::from_int(4),
        );
        spec_draw_taken(
            spec_bounce_x(m, params, hose.left.plus(params.smoothing_radius).plus(jitter)),
        )
    } else {
        m
    }
}

/// Applies the left edge of the inlet.
pub fn hose_left(m: Motion, params: &Params, first: u64, second: u64) -> (r: Motion)
    ensures
        r == spec_hose_left(m, *params, first, second),
{
    let hose = params.hose;
    if m.position.x.raw > hose.left.raw && m.position.x.minus(params.smoothing_radius).raw
        < hose.left.raw && m.velocity.x.raw < 0 && m.position.y.raw > hose.bottom.raw
        && m.position.y.raw < hose.top.raw {
        let jitter: Fixed = range(
            next_jitter(&m, first, second),
            Fixed::from_int(1),
            Fixed::from_int(4),
        );
        draw_taken(bounce_x(m, params, hose.left.plus(params.smoothing_radius).plus(jitter)))
    } else {
        m
    }
}

/// The whole path of a particle through the stage: the Euler step, the four
/// edges of the domain, then the three edges of the inlet.
pub open spec fn spec_path(p: Particle, params: Params, first: u64, second: u64) -> Motion {
    spec_hose_left(
        spec_hose_bottom(
            spec_hose_top(
                spec_bottom_edge(
                    spec_top_edge(
                        spec_right_edge(spec_left_edge(spec_euler_step(p, params), params), params),
                        params,
                        first,
                        second,
                    ),
                    params,
                ),
                params,
            ),
            params,
        ),
        params,
        first,
        second,
    )
}

/// The particle `p` after the stage, with `first` and `second` as the two
/// draws that its jittered corrections may take.
pub open spec fn spec_advance(p: Particle, params: Params, first: u64, second: u64) -> Particle {
    let m = spec_path(p, params, first, second);
    Particle {
        position: m.position,
        velocity: m.velocity,
        force: p.force,
        density: p.density,
        pressure: p.pressure,
    }
}

/// Advances one particle by one time step and applies the boundaries.
pub fn advance(p: &Particle, params: &Params, first: u64, second: u64) -> (r: Particle)
    ensures
        r == spec_advance(*p, *params, first, second),
{
    let m: Motion = euler_step(p, params);
    let m: Motion = left_edge(m, params);
    let m: Motion = right_edge(m, params);
    let m: Motion = top_edge(m, params, first, second);
    let m: Motion = bottom_edge(m, params);
    let m: Motion = hose_top(m, params);
    let m: Motion = hose_bottom(m, params);
    let m: Motion = hose_left(m, params, first, second);
    Particle {
        position: m.position,
        velocity: m.velocity,
        force: p.force,
        density: p.density,
        pressure: p.pressure,
    }
}

/// `position` keeps one smoothing radius from every edge of the domain.
pub open spec fn inside_margins(position: Vec2, params: Params) -> bool {
    let h = params.smoothing_radius.raw;
    &&& h <= position.x.raw <= params.view_width.raw - h
    &&& h <= position.y.raw <= params.view_height.raw - h
}

} // verus!
