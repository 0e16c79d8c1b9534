use jam_physics::layout::{scene_bounds, EditorLayoutBounds, SceneBounds, Viewport};
use jam_physics::physics::{apply_velocity, wrap_within_scene_view, Size, Vec3, Velocity, WrapWithinSceneView};
use jam_physics::simulation::{integrate_all, simulate_tick, wrap_all, Body, TickError};

fn v3(x: i64, y: i64, z: i64) -> Vec3 {
    Vec3 { x, y, z }
}

fn no_insets() -> EditorLayoutBounds {
    EditorLayoutBounds { left: 0, right: 0, top: 0, bottom: 0 }
}

fn square_scene() -> SceneBounds {
    SceneBounds { x_min: -50, x_max: 50, y_min: -30, y_max: 30 }
}

#[test]
fn integration_adds_velocity_times_dt() {
    let mut p = v3(1, 2, 3);
    assert!(apply_velocity(&mut p, &Velocity(v3(10, -20, 5)), 3));
    assert_eq!(p, v3(31, -58, 18));
}

#[test]
fn zero_velocity_is_a_no_op() {
    let mut p = v3(-7, 8, 9);
    assert!(apply_velocity(&mut p, &Velocity(v3(0, 0, 0)), 1000));
    assert_eq!(p, v3(-7, 8, 9));
}

#[test]
fn zero_step_after_step_leaves_position() {
    let v = Velocity(v3(4, -3, 2));
    let mut p = v3(5, 5, 5);
    assert!(apply_velocity(&mut p, &v, 7));
    let after = p;
    assert!(apply_velocity(&mut p, &v, 0));
    assert_eq!(p, after);
    assert_eq!(p, v3(33, -16, 19));
}

#[test]
fn integration_out_of_range_leaves_position() {
    let mut p = v3(i64::MAX - 1, 0, 0);
    assert!(!apply_velocity(&mut p, &Velocity(v3(1, 1, 1)), 2));
    assert_eq!(p, v3(i64::MAX - 1, 0, 0));
    let mut q = v3(i64::MAX - 1, 0, 0);
    assert!(apply_velocity(&mut q, &Velocity(v3(1, 1, 1)), 1));
    assert_eq!(q, v3(i64::MAX, 1, 1));
}

#[test]
fn integration_with_large_product_but_representable_sum() {
    let mut p = v3(i64::MIN, 0, 0);
    assert!(apply_velocity(&mut p, &Velocity(v3(i64::MAX / 2, 0, 0)), 2));
    assert_eq!(p, v3(-2, 0, 0));
}

#[test]
fn bounds_subtract_insets_and_divide_by_scaling() {
    let w = Viewport { width: 800, height: 600 };
    let insets = EditorLayoutBounds { left: 100, right: 50, top: 20, bottom: 80 };
    let b = scene_bounds(&w, &insets, 2);
    assert_eq!(b, SceneBounds { x_min: -150, x_max: 175, y_min: -110, y_max: 140 });
}

#[test]
fn bounds_round_toward_zero_when_insets_exceed_half() {
    let w = Viewport { width: 100, height: 0 };
    let insets = EditorLayoutBounds { left: 75, right: 75, top: 0, bottom: 1 };
    let b = scene_bounds(&w, &insets, 2);
    assert_eq!(b, SceneBounds { x_min: 12, x_max: -12, y_min: 0, y_max: 0 });
}

#[test]
fn wrap_at_upper_threshold_moves_to_lower() {
    let mut p = v3(50, 30, 4);
    wrap_within_scene_view(&mut p, Some(Size { x: 0, y: 0 }), &square_scene());
    assert_eq!(p, v3(-50, -30, 4));
}

#[test]
fn wrap_at_lower_threshold_moves_to_upper() {
    let mut p = v3(-50, -30, 4);
    wrap_within_scene_view(&mut p, Some(Size { x: 0, y: 0 }), &square_scene());
    assert_eq!(p, v3(50, 30, 4));
}

#[test]
fn wrap_thresholds_grow_by_half_the_size() {
    let size = Some(Size { x: 20, y: 10 });
    let mut inside = v3(59, -34, 0);
    wrap_within_scene_view(&mut inside, size, &square_scene());
    assert_eq!(inside, v3(59, -34, 0));
    let mut out = v3(60, -35, 0);
    wrap_within_scene_view(&mut out, size, &square_scene());
    assert_eq!(out, v3(-60, 35, 0));
}

#[test]
fn wrap_moves_once_per_axis_even_far_outside() {
    let mut p = v3(10_000, 0, 0);
    wrap_within_scene_view(&mut p, Some(Size { x: 0, y: 0 }), &square_scene());
    assert_eq!(p, v3(-50, 0, 0));
}

#[test]
fn wrap_without_size_never_moves() {
    let mut p = v3(1_000_000, -1_000_000, 3);
    wrap_within_scene_view(&mut p, None, &square_scene());
    assert_eq!(p, v3(1_000_000, -1_000_000, 3));
}

fn body(x: i64, vx: i64, wrap: bool) -> Body {
    Body {
        translation: v3(x, 0, 0),
        velocity: Some(Velocity(v3(vx, 0, 0))),
        custom_size: Some(Size { x: 0, y: 0 }),
        wrap: if wrap { Some(WrapWithinSceneView) } else { None },
    }
}

#[test]
fn crossing_entity_wraps_on_the_same_tick() {
    let window = Viewport { width: 200, height: 200 };
    let mut bodies = vec![body(90, 10, true)];
    let r = simulate_tick(&mut bodies, 1, Some(window), &no_insets(), 2);
    assert_eq!(r, Ok(()));
    assert_eq!(bodies[0].translation, v3(-50, 0, 0));
}

#[test]
fn unmarked_body_is_only_integrated() {
    let window = Viewport { width: 200, height: 200 };
    let mut bodies = vec![body(90, 10, false), body(0, 5, true)];
    let r = simulate_tick(&mut bodies, 2, Some(window), &no_insets(), 2);
    assert_eq!(r, Ok(()));
    assert_eq!(bodies[0].translation, v3(110, 0, 0));
    assert_eq!(bodies[1].translation, v3(10, 0, 0));
}

#[test]
fn tick_without_window_integrates_and_reports() {
    let mut bodies = vec![body(90, 10, true)];
    let r = simulate_tick(&mut bodies, 1, None, &no_insets(), 2);
    assert_eq!(r, Err(TickError::NoPrimaryViewport));
    assert_eq!(bodies[0].translation, v3(100, 0, 0));
}

#[test]
fn body_without_velocity_stays() {
    let mut bodies = vec![Body { translation: v3(3, 4, 5), velocity: None, custom_size: None, wrap: None }];
    integrate_all(&mut bodies, 100);
    assert_eq!(bodies[0].translation, v3(3, 4, 5));
}

#[test]
fn wrap_pass_skips_sizeless_marked_body() {
    let mut bodies = vec![Body {
        translation: v3(500, 500, 0),
        velocity: None,
        custom_size: None,
        wrap: Some(WrapWithinSceneView),
    }];
    wrap_all(&mut bodies, &square_scene());
    assert_eq!(bodies[0].translation, v3(500, 500, 0));
}

#[test]
fn tick_leaves_body_whose_move_is_out_of_range() {
    let window = Viewport { width: 200, height: 200 };
    let mut bodies = vec![body(i64::MAX - 5, 10, false), body(0, 3, false)];
    let r = simulate_tick(&mut bodies, 1, Some(window), &no_insets(), 2);
    assert_eq!(r, Ok(()));
    assert_eq!(bodies[0].translation, v3(i64::MAX - 5, 0, 0));
    assert_eq!(bodies[1].translation, v3(3, 0, 0));
}
