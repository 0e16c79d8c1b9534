//! Velocity integration and wrap-around at the scene's edges.
use vstd::prelude::*;

use crate::layout::{SceneBounds, HALF_RANGE};

verus! {

/// A position or displacement in world space, in fixed-point length units.
#[derive(Clone, Copy, Debug, PartialEq, Eq, Structural)]
pub struct Vec3 {
    pub x: i64,
    pub y: i64,
    pub z: i64,
}

/// Length units per time unit along each axis.
#[derive(Clone, Copy, Debug, PartialEq, Eq, Structural)]
pub struct Velocity(pub Vec3);

/// Marks a body that is kept within the scene by wrapping around its edges.
#[derive(Clone, Copy, Debug, PartialEq, Eq, Structural)]
pub struct WrapWithinSceneView;

/// Visual size of a sprite: its full width and height, in length units.
#[derive(Clone, Copy, Debug, PartialEq, Eq, Structural)]
pub struct Size {
    pub x: i64,
    pub y: i64,
}

impl Size {
    pub open spec fn wf(self) -> bool {
        0 <= self.x && 0 <= self.y
    }
}

pub open spec fn fits_i64(v: int) -> bool {
    i64::MIN <= v <= i64::MAX
}

/// Whether moving `p` by `v` for `dt` time units stays within the integer range.
pub open spec fn can_integrate(p: Vec3, v: Vec3, dt: int) -> bool {
    &&& fits_i64(p.x + v.x * dt)
    &&& fits_i64(p.y + v.y * dt)
    &&& fits_i64(p.z + v.z * dt)
}

/// `p + v * dt`, axis by axis.
pub open spec fn integrate(p: Vec3, v: Vec3, dt: int) -> Vec3 {
    Vec3 {
        x: (p.x + v.x * dt) as i64,
        y: (p.y + v.y * dt) as i64,
        z: (p.z + v.z * dt) as i64,
    }
}

/// The position after one integration step: moved where the result is
/// representable, left where it is not.
pub open spec fn integrated(p: Vec3, v: Vec3, dt: int) -> Vec3 {
    if can_integrate(p, v, dt) {
        integrate(p, v, dt)
    } else {
        p
    }
}

/// `p + v * dt` on one axis, or `None` where it leaves the integer range.
fn step_axis(p: i64, v: i64, dt: u32) -> (r: Option<i64>)
    ensures
        r == (if fits_i64(p + v * dt) {
            Some((p + v * dt) as i64)
        } else {
            None
        }),
{
    let vi: i128 = v as i128;
    let di: i128 = dt as i128;
    assert(-0x8000_0000_0000_0000_0000_0000 <= vi * di <= 0x8000_0000_0000_0000_0000_0000)
        by (nonlinear_arith)
        requires
            -0x8000_0000_0000_0000 <= vi < 0x8000_0000_0000_0000,
            0 <= di <= 0xffff_ffff,
    ;
    let moved: i128 = p as i128 + vi * di;
    if i64::MIN as i128 <= moved && moved <= i64::MAX as i128 {
        Some(moved as i64)
    } else {
        None
    }
}

/// Moves `translation` by `velocity * dt`. Where any axis of the result would
/// leave the integer range, the position is left as it is and `false` returned.
pub fn apply_velocity(translation: &mut Vec3, velocity: &Velocity, dt: u32) -> (applied: bool)
    ensures
        applied == can_integrate(*old(translation), velocity.0, dt as int),
        *final(translation) == integrated(*old(translation), velocity.0, dt as int),
{
    let p = *translation;
    let v = velocity.0;
    match (step_axis(p.x, v.x, dt), step_axis(p.y, v.y, dt), step_axis(p.z, v.z, dt)) {
        (Some(x), Some(y), Some(z)) => {
            *translation = Vec3 { x, y, z };
            true
        },
        _ => false,
    }
}

/// One axis of the wrap rule: at or past the upper threshold a body moves to the
/// lower one; otherwise at or past the lower threshold it moves to the upper one.
pub open spec fn wrap_axis(p: int, lo: int, hi: int) -> int {
    if p >= hi {
        lo
    } else if p <= lo {
        hi
    } else {
        p
    }
}

/// The upper x threshold for a sprite of the given size: the scene edge pushed out
/// by half the sprite's width (likewise for the others below).
pub open spec fn x_hi(b: SceneBounds, s: Size) -> int {
    b.x_max + s.x / 2
}

pub open spec fn x_lo(b: SceneBounds, s: Size) -> int {
    b.x_min - s.x / 2
}

pub open spec fn y_hi(b: SceneBounds, s: Size) -> int {
    b.y_max + s.y / 2
}

pub open spec fn y_lo(b: SceneBounds, s: Size) -> int {
    b.y_min - s.y / 2
}

/// The position after the wrap rule. A body without a known size stays put;
/// otherwise x and y wrap independently and z is kept.
pub open spec fn wrapped(p: Vec3, size: Option<Size>, b: SceneBounds) -> Vec3 {
    match size {
        None => p,
        Some(s) => Vec3 {
            x: wrap_axis(p.x as int, x_lo(b, s), x_hi(b, s)) as i64,
            y: wrap_axis(p.y as int, y_lo(b, s), y_hi(b, s)) as i64,
            z: p.z,
        },
    }
}

fn wrap_coordinate(p: i64, edge_min: i64, edge_max: i64, extent: i64) -> (r: i64)
    requires
        edge_min >= -HALF_RANGE,
        edge_max <= HALF_RANGE,
        extent >= 0,
    ensures
        r == wrap_axis(p as int, edge_min - extent / 2, edge_max + extent / 2),
{
    let half: i64 = extent / 2;
    let hi: i64 = edge_max + half;
    let lo: i64 = edge_min - half;
    if p >= hi {
        lo
    } else if p <= lo {
        hi
    } else {
        p
    }
}

/// Applies the wrap rule to one sprite's position; see `wrapped`.
pub fn wrap_within_scene_view(translation: &mut Vec3, custom_size: Option<Size>, bounds: &SceneBounds)
    requires
        bounds.wf(),
        custom_size matches Some(s) ==> s.wf(),
    ensures
        *final(translation) == wrapped(*old(translation), custom_size, *bounds),
{
    if let Some(size) = custom_size {
        let x = wrap_coordinate(translation.x, bounds.x_min, bounds.x_max, size.x);
        let y = wrap_coordinate(translation.y, bounds.y_min, bounds.y_max, size.y);
        translation.x = x;
        translation.y = y;
    }
}

/// A step of zero time leaves any position unchanged, in particular one just
/// produced by an integration step.
pub proof fn lemma_zero_step_after_step(p: Vec3, v: Vec3, dt: nat)
    ensures
        can_integrate(integrated(p, v, dt as int), v, 0),
        integrated(integrated(p, v, dt as int), v, 0) == integrated(p, v, dt as int),
{
    let q = integrated(p, v, dt as int);
    assert(v.x * 0 == 0 && v.y * 0 == 0 && v.z * 0 == 0);
    assert(integrate(q, v, 0) == q);
}

/// A sprite exactly on an upper threshold moves to the lower threshold of that
/// axis. A sprite exactly on a lower threshold moves to the upper one, wherever
/// the lower threshold lies below the upper.
pub proof fn lemma_wrap_at_threshold(p: Vec3, s: Size, b: SceneBounds)
    requires
        b.wf(),
        s.wf(),
    ensures
        p.x == x_hi(b, s) ==> wrapped(p, Some(s), b).x == x_lo(b, s),
        p.x == x_lo(b, s) && x_lo(b, s) < x_hi(b, s) ==> wrapped(p, Some(s), b).x == x_hi(b, s),
        p.y == y_hi(b, s) ==> wrapped(p, Some(s), b).y == y_lo(b, s),
        p.y == y_lo(b, s) && y_lo(b, s) < y_hi(b, s) ==> wrapped(p, Some(s), b).y == y_hi(b, s),
{
}

/// A body without a known size is never moved by the wrap rule, however far
/// outside the scene it is.
pub proof fn lemma_unsized_never_wraps(p: Vec3, b: SceneBounds)
    ensures
        wrapped(p, None, b) == p,
{
}

} // verus!
