//! The visible scene: window size, panel insets, and the world-space bounds they leave.
use vstd::prelude::*;

verus! {

/// Quotient of `a` by `b`, rounded toward zero (as integer division in exec code).
pub open spec fn trunc_div(a: int, b: int) -> int {
    if a >= 0 {
        a / b
    } else {
        -((-a) / b)
    }
}

/// Size of the primary window, in pixel units.
#[derive(Clone, Copy, Debug, PartialEq, Eq, Structural)]
pub struct Viewport {
    pub width: i64,
    pub height: i64,
}

impl Viewport {
    pub open spec fn wf(self) -> bool {
        self.width >= 0 && self.height >= 0
    }
}

/// Pixel space reserved by UI panels along each edge of the window.
#[derive(Clone, Copy, Debug, PartialEq, Eq, Structural)]
pub struct EditorLayoutBounds {
    pub left: i64,
    pub right: i64,
    pub top: i64,
    pub bottom: i64,
}

impl EditorLayoutBounds {
    pub open spec fn wf(self) -> bool {
        self.left >= 0 && self.right >= 0 && self.top >= 0 && self.bottom >= 0
    }
}

/// World-space region in which wrapping sprites are kept.
#[derive(Clone, Copy, Debug, PartialEq, Eq, Structural)]
pub struct SceneBounds {
    pub x_min: i64,
    pub x_max: i64,
    pub y_min: i64,
    pub y_max: i64,
}

/// Half of `i64::MAX`: the edges of a scene never reach further out than this,
/// so that half a sprite's size can be added to them.
pub const HALF_RANGE: i64 = 0x3fff_ffff_ffff_ffff;

impl SceneBounds {
    /// Each edge lies at most half the integer range outward.
    pub open spec fn wf(self) -> bool {
        &&& self.x_max <= HALF_RANGE
        &&& self.x_min >= -HALF_RANGE
        &&& self.y_max <= HALF_RANGE
        &&& self.y_min >= -HALF_RANGE
    }
}

/// The scene bounds of a window with panels, at the given camera scaling:
/// each half-dimension minus the inset on that side, divided by the scaling.
pub open spec fn scene_bounds_of(
    viewport: Viewport,
    insets: EditorLayoutBounds,
    camera_scaling: int,
) -> SceneBounds {
    SceneBounds {
        x_max: trunc_div(viewport.width / 2 - insets.right, camera_scaling) as i64,
        x_min: (-trunc_div(viewport.width / 2 - insets.left, camera_scaling)) as i64,
        y_max: trunc_div(viewport.height / 2 - insets.top, camera_scaling) as i64,
        y_min: (-trunc_div(viewport.height / 2 - insets.bottom, camera_scaling)) as i64,
    }
}

/// `(half - inset) / camera_scaling`, rounded toward zero, with its range.
fn inset_edge(half: i64, inset: i64, camera_scaling: i64) -> (r: i64)
    requires
        0 <= half <= HALF_RANGE,
        inset >= 0,
        camera_scaling > 0,
    ensures
        r == trunc_div(half - inset, camera_scaling as int),
        -i64::MAX <= r <= HALF_RANGE,
{
    let d: i64 = half - inset;
    let q: i64 = d / camera_scaling;
    proof {
        let a: int = d as int;
        let s: int = camera_scaling as int;
        if a >= 0 {
            assert(0 <= a / s <= a) by (nonlinear_arith)
                requires
                    a >= 0,
                    s > 0,
            ;
        } else {
            assert(0 <= (-a) / s <= -a) by (nonlinear_arith)
                requires
                    -a > 0,
                    s > 0,
            ;
        }
    }
    q
}

/// Computes the scene bounds of a window with panels; see `scene_bounds_of`.
pub fn scene_bounds(
    viewport: &Viewport,
    insets: &EditorLayoutBounds,
    camera_scaling: i64,
) -> (r: SceneBounds)
    requires
        viewport.wf(),
        insets.wf(),
        camera_scaling > 0,
    ensures
        r == scene_bounds_of(*viewport, *insets, camera_scaling as int),
        r.wf(),
{
    let half_width: i64 = viewport.width / 2;
    let half_height: i64 = viewport.height / 2;
    let x_max = inset_edge(half_width, insets.right, camera_scaling);
    let x_min = inset_edge(half_width, insets.left, camera_scaling);
    let y_max = inset_edge(half_height, insets.top, camera_scaling);
    let y_min = inset_edge(half_height, insets.bottom, camera_scaling);
    SceneBounds { x_min: -x_min, x_max, y_min: -y_min, y_max }
}

} // verus!
