//! One simulation tick over a set of bodies: every body with a velocity is
//! integrated first, then every marked, sized body is wrapped into the scene.
use vstd::prelude::*;

use crate::layout::{scene_bounds, scene_bounds_of, EditorLayoutBounds, SceneBounds, Viewport};
use crate::physics::{
    apply_velocity, integrated, wrap_within_scene_view, wrapped, x_hi, x_lo, Size, Vec3, Velocity,
    WrapWithinSceneView,
};

verus! {

/// What the simulation knows of one entity.
#[derive(Clone, Copy, Debug, PartialEq, Eq, Structural)]
pub struct Body {
    pub translation: Vec3,
    pub velocity: Option<Velocity>,
    /// The sprite's size, where the sprite has one.
    pub custom_size: Option<Size>,
    pub wrap: Option<WrapWithinSceneView>,
}

impl Body {
    pub open spec fn wf(self) -> bool {
        self.custom_size matches Some(s) ==> s.wf()
    }
}

/// Why the wrap pass of a tick did not run.
#[derive(Clone, Copy, Debug, PartialEq, Eq, Structural)]
pub enum TickError {
    /// There is no primary window to take the scene bounds from.
    NoPrimaryViewport,
}

/// A body after the integration pass.
pub open spec fn body_integrated(b: Body, dt: int) -> Body {
    match b.velocity {
        Some(v) => Body { translation: integrated(b.translation, v.0, dt), ..b },
        None => b,
    }
}

/// A body after the wrap pass: only marked bodies take part.
pub open spec fn body_wrapped(b: Body, bounds: SceneBounds) -> Body {
    if b.wrap is Some {
        Body { translation: wrapped(b.translation, b.custom_size, bounds), ..b }
    } else {
        b
    }
}

/// Runs the integration pass over all bodies.
pub fn integrate_all(bodies: &mut Vec<Body>, dt: u32)
    ensures
        final(bodies)@.len() == old(bodies)@.len(),
        forall|i: int|
            0 <= i < old(bodies)@.len() ==> final(bodies)@[i] == body_integrated(
                old(bodies)@[i],
                dt as int,
            ),
{
    let n = bodies.len();
    let mut i: usize = 0;
    while i < n
        invariant
            n == old(bodies)@.len(),
            bodies@.len() == n,
            0 <= i <= n,
            forall|j: int| 0 <= j < i ==> bodies@[j] == body_integrated(old(bodies)@[j], dt as int),
            forall|j: int| i <= j < n ==> bodies@[j] == old(bodies)@[j],
        decreases n - i,
    {
        let mut b = bodies[i];
        if let Some(v) = b.velocity {
            apply_velocity(&mut b.translation, &v, dt);
        }
        bodies.set(i, b);
        i = i + 1;
    }
}

/// Runs the wrap pass over all bodies.
pub fn wrap_all(bodies: &mut Vec<Body>, bounds: &SceneBounds)
    requires
        bounds.wf(),
        forall|i: int| 0 <= i < old(bodies)@.len() ==> old(bodies)@[i].wf(),
    ensures
        final(bodies)@.len() == old(bodies)@.len(),
        forall|i: int|
            0 <= i < old(bodies)@.len() ==> final(bodies)@[i] == body_wrapped(
                old(bodies)@[i],
                *bounds,
            ),
{
    let n = bodies.len();
    let mut i: usize = 0;
    while i < n
        invariant
            n == old(bodies)@.len(),
            bodies@.len() == n,
            0 <= i <= n,
            bounds.wf(),
            forall|j: int| 0 <= j < n ==> old(bodies)@[j].wf(),
            forall|j: int| 0 <= j < i ==> bodies@[j] == body_wrapped(old(bodies)@[j], *bounds),
            forall|j: int| i <= j < n ==> bodies@[j] == old(bodies)@[j],
        decreases n - i,
    {
        let mut b = bodies[i];
        if b.wrap.is_some() {
            wrap_within_scene_view(&mut b.translation, b.custom_size, bounds);
        }
        bodies.set(i, b);
        i = i + 1;
    }
}

/// One tick: the integration pass, then the wrap pass against the scene bounds of
/// the primary window. Without a primary window the bodies are integrated, the
/// wrap pass is skipped and the error returned.
pub fn simulate_tick(
    bodies: &mut Vec<Body>,
    dt: u32,
    primary_window: Option<Viewport>,
    insets: &EditorLayoutBounds,
    camera_scaling: i64,
) -> (r: Result<(), TickError>)
    requires
        primary_window matches Some(w) ==> w.wf(),
        insets.wf(),
        camera_scaling > 0,
        forall|i: int| 0 <= i < old(bodies)@.len() ==> old(bodies)@[i].wf(),
    ensures
        r is Err <==> primary_window is None,
        r matches Err(e) ==> e == TickError::NoPrimaryViewport,
        final(bodies)@.len() == old(bodies)@.len(),
        forall|i: int|
            0 <= i < old(bodies)@.len() ==> final(bodies)@[i] == match primary_window {
                Some(w) => body_wrapped(
                    body_integrated(old(bodies)@[i], dt as int),
                    scene_bounds_of(w, *insets, camera_scaling as int),
                ),
                None => body_integrated(old(bodies)@[i], dt as int),
            },
{
    integrate_all(bodies, dt);
    match primary_window {
        Some(w) => {
            let bounds = scene_bounds(&w, insets, camera_scaling);
            wrap_all(bodies, &bounds);
            Ok(())
        },
        None => Err(TickError::NoPrimaryViewport),
    }
}

/// Within one tick the wrap pass sees the position that this tick's integration
/// produced: a marked, sized body that integration carries onto or past the upper
/// x threshold ends the tick on the lower one.
pub proof fn lemma_wrap_sees_this_tick(b: Body, v: Velocity, s: Size, dt: nat, bounds: SceneBounds)
    requires
        bounds.wf(),
        s.wf(),
        b.velocity == Some(v),
        b.custom_size == Some(s),
        b.wrap is Some,
        integrated(b.translation, v.0, dt as int).x >= x_hi(bounds, s),
    ensures
        body_wrapped(body_integrated(b, dt as int), bounds).translation.x == x_lo(bounds, s),
{
}

} // verus!
