use bevy_panorbit_camera::active::{active_viewport_data, ActiveCameraData, Rect, ViewportCamera, WindowView};
use bevy_panorbit_camera::camera::{MouseButton, PanOrbitCamera};
use bevy_panorbit_camera::engine::{initialize, pan_orbit_camera};
use bevy_panorbit_camera::fixed::{mul_fixed, Vector2, Vector3, UNIT};
use bevy_panorbit_camera::geometry::{isqrt_u128, normalize_or_zero};
use bevy_panorbit_camera::input::{FrameInput, ScrollEvent, ScrollUnit};
use bevy_panorbit_camera::limits::{apply_limits, apply_zoom_limits, ZOOM_FLOOR};
use bevy_panorbit_camera::motion::{is_upside_down, CameraAxes, Projection};
use bevy_panorbit_camera::smoothing::{lerp_and_snap, lerp_and_snap_vec3};
use bevy_panorbit_camera::update::gather_input;

fn fx(v: f64) -> i64 {
    (v * UNIT as f64).round() as i64
}

fn v2(x: f64, y: f64) -> Vector2 {
    Vector2 { x: fx(x), y: fx(y) }
}

fn empty_input() -> FrameInput {
    FrameInput {
        pressed_buttons: vec![],
        just_pressed_buttons: vec![],
        just_released_buttons: vec![],
        pressed_keys: vec![],
        mouse_delta: Vector2 { x: 0, y: 0 },
        scroll_events: vec![],
        magnify_events: vec![],
        rotate_events: vec![],
        pointer_over_ui: false,
    }
}

fn active_for(entity: u64) -> ActiveCameraData {
    ActiveCameraData {
        entity: Some(entity),
        viewport_size: Some(v2(800.0, 600.0)),
        window_size: Some(v2(800.0, 600.0)),
        manual: false,
    }
}

fn axes() -> CameraAxes {
    CameraAxes {
        right: Vector3 { x: UNIT, y: 0, z: 0 },
        up: Vector3 { x: 0, y: UNIT, z: 0 },
    }
}

fn perspective() -> Projection {
    Projection::Perspective { fov: fx(std::f64::consts::FRAC_PI_4), aspect_ratio: fx(800.0 / 600.0) }
}

fn viewport(entity: u64, order: isize) -> ViewportCamera {
    ViewportCamera {
        entity,
        order,
        input_activated: true,
        window: Some(WindowView { size: v2(800.0, 600.0), cursor: Some(v2(150.0, 150.0)) }),
        viewport_rect: Some(Rect { min: v2(0.0, 0.0), max: v2(400.0, 300.0) }),
        viewport_size: Some(v2(400.0, 300.0)),
    }
}

fn ready_camera() -> (PanOrbitCamera, Projection) {
    let mut cam = PanOrbitCamera::default();
    let mut proj = perspective();
    initialize(&mut cam, 0, 0, 5 * UNIT, &mut proj);
    (cam, proj)
}

#[test]
fn limits_clamp_lower_then_upper() {
    assert_eq!(apply_limits(5, Some(10), Some(0)), 5);
    assert_eq!(apply_limits(-3, Some(10), Some(0)), 0);
    assert_eq!(apply_limits(12, Some(10), Some(0)), 10);
    assert_eq!(apply_limits(12, None, None), 12);
    // an inverted pair collapses to the upper limit
    assert_eq!(apply_limits(5, Some(1), Some(8)), 1);
}

#[test]
fn zoom_never_below_floor() {
    assert_eq!(apply_zoom_limits(0, None, None), ZOOM_FLOOR);
    assert_eq!(apply_zoom_limits(-UNIT, None, Some(-10 * UNIT)), ZOOM_FLOOR);
    assert_eq!(apply_zoom_limits(UNIT, Some(10_000), None), ZOOM_FLOOR);
    assert_eq!(apply_zoom_limits(2 * UNIT, None, None), 2 * UNIT);
    assert_eq!(ZOOM_FLOOR, fx(0.05));
}

#[test]
fn no_smoothing_snaps_at_once() {
    assert_eq!(lerp_and_snap(-7 * UNIT, 3 * UNIT, 0), 3 * UNIT);
    assert_eq!(lerp_and_snap(123, -456, 0), -456);
}

#[test]
fn smoothing_step_exact() {
    // a fifth of the distance with smoothness 0.8
    assert_eq!(lerp_and_snap(0, UNIT, 800_000), 200_000);
    assert_eq!(lerp_and_snap(UNIT, 0, 800_000), 800_000);
    // snaps once within ten millionths
    assert_eq!(lerp_and_snap(0, 11, 500_000), 11);
    // full smoothness does not move
    assert_eq!(lerp_and_snap(0, UNIT, UNIT), 0);
    let v = lerp_and_snap_vec3(Vector3 { x: 0, y: 0, z: 0 }, Vector3 { x: UNIT, y: -UNIT, z: 0 }, 0);
    assert_eq!(v, Vector3 { x: UNIT, y: -UNIT, z: 0 });
}

#[test]
fn smoothing_converges_without_overshoot() {
    let target = 5 * UNIT;
    let mut v = -3 * UNIT;
    let mut steps = 0;
    while v != target {
        let next = lerp_and_snap(v, target, 900_000);
        assert!(next > v && next <= target);
        v = next;
        steps += 1;
        assert!(steps < 1000);
    }
    assert_eq!(lerp_and_snap(v, target, 900_000), target);
}

#[test]
fn higher_draw_order_wins_overlap() {
    let cams = vec![viewport(1, 0), viewport(2, 1)];
    let mut rec = ActiveCameraData::default();
    assert!(active_viewport_data(&mut rec, &cams));
    assert_eq!(rec.entity, Some(2));
    let cams = vec![viewport(2, 1), viewport(1, 0)];
    let mut rec = ActiveCameraData::default();
    active_viewport_data(&mut rec, &cams);
    assert_eq!(rec.entity, Some(2));
    assert_eq!(rec.window_size, Some(v2(800.0, 600.0)));
    assert_eq!(rec.viewport_size, Some(v2(400.0, 300.0)));
    assert!(!rec.manual);
}

#[test]
fn manual_record_untouched() {
    let manual = ActiveCameraData { entity: Some(9), viewport_size: None, window_size: None, manual: true };
    let mut rec = manual;
    assert!(!active_viewport_data(&mut rec, &vec![viewport(1, 0), viewport(2, 1)]));
    assert_eq!(rec, manual);
}

#[test]
fn resolver_without_input_keeps_record() {
    let mut cam = viewport(1, 0);
    cam.input_activated = false;
    let mut rec = active_for(5);
    assert!(!active_viewport_data(&mut rec, &vec![cam]));
    assert_eq!(rec, active_for(5));
}

#[test]
fn resolver_pointer_outside_clears_record() {
    let mut cam = viewport(1, 0);
    cam.window = Some(WindowView { size: v2(800.0, 600.0), cursor: Some(v2(500.0, 150.0)) });
    let mut rec = active_for(5);
    assert!(active_viewport_data(&mut rec, &vec![cam]));
    assert_eq!(rec, ActiveCameraData::default());
    // strictly inside: the edge does not count
    let mut edge = viewport(1, 0);
    edge.window = Some(WindowView { size: v2(800.0, 600.0), cursor: Some(v2(400.0, 150.0)) });
    let mut rec = ActiveCameraData::default();
    assert!(!active_viewport_data(&mut rec, &vec![edge]));
    assert_eq!(rec.entity, None);
}

#[test]
fn default_camera_configuration() {
    let cam = PanOrbitCamera::default();
    assert_eq!(cam.target_radius, UNIT);
    assert_eq!(cam.target_scale, UNIT);
    assert_eq!(cam.orbit_smoothness, 800_000);
    assert_eq!(cam.pan_smoothness, 600_000);
    assert_eq!(cam.zoom_smoothness, 800_000);
    assert_eq!(cam.button_orbit, MouseButton::Left);
    assert_eq!(cam.button_pan, MouseButton::Right);
    assert!(cam.enabled && !cam.initialized && !cam.allow_upside_down);
    assert_eq!(cam.radius, None);
    assert_eq!(cam.alpha, None);
}

#[test]
fn initialization_then_line_scroll_zooms_out_a_fifth() {
    // camera at (0, 1.5, 5) looking at the origin
    let (x, y, z) = (0.0f64, 1.5f64, 5.0f64);
    let radius = (x * x + y * y + z * z).sqrt();
    let beta = (y / radius).asin();
    let mut cam = PanOrbitCamera::default();
    let mut proj = perspective();
    initialize(&mut cam, 0, fx(beta), fx(radius), &mut proj);
    assert!(cam.initialized);
    assert_eq!(cam.radius, Some(fx(radius)));
    assert!((cam.radius.unwrap() - 5_220_153).abs() <= 1);
    assert_eq!(cam.target_radius, fx(radius));
    assert_eq!(cam.target_beta, fx(beta));
    assert_eq!(cam.alpha, Some(0));

    let before = cam.target_radius;
    let mut input = empty_input();
    input.scroll_events = vec![ScrollEvent { unit: ScrollUnit::Line, x: 0, y: -UNIT }];
    let write = pan_orbit_camera(&mut cam, 1, &active_for(1), &input, &mut proj, &axes());
    assert!(write);
    assert_eq!(cam.target_radius, before + before / 5);
    // the radius starts moving toward it, a fifth of the way with smoothness 0.8
    let r = cam.radius.unwrap();
    assert!(r > before && r < cam.target_radius);
}

#[test]
fn orthographic_magnify_moves_scale_and_target() {
    let mut cam = PanOrbitCamera::default();
    cam.zoom_smoothness = 0;
    let mut proj = Projection::Orthographic { scale: UNIT, area_width: 8 * UNIT, area_height: 6 * UNIT };
    initialize(&mut cam, 0, 0, 5 * UNIT, &mut proj);
    assert_eq!(cam.scale, Some(UNIT));
    assert_eq!(cam.target_scale, UNIT);
    let mut input = empty_input();
    input.magnify_events = vec![fx(0.1)];
    assert!(pan_orbit_camera(&mut cam, 1, &active_for(1), &input, &mut proj, &axes()));
    assert_eq!(cam.target_scale, fx(0.96));
    assert_eq!(cam.scale, Some(fx(0.96)));
    assert_eq!(proj, Projection::Orthographic { scale: fx(0.96), area_width: 8 * UNIT, area_height: 6 * UNIT });
}

#[test]
fn orthographic_large_magnify_clamps_scale() {
    let mut cam = PanOrbitCamera::default();
    let mut proj = Projection::Orthographic { scale: UNIT, area_width: 8 * UNIT, area_height: 6 * UNIT };
    initialize(&mut cam, 0, 0, 5 * UNIT, &mut proj);
    let mut input = empty_input();
    input.magnify_events = vec![10 * UNIT];
    assert!(pan_orbit_camera(&mut cam, 1, &active_for(1), &input, &mut proj, &axes()));
    assert_eq!(cam.target_scale, ZOOM_FLOOR);
    assert_eq!(cam.scale, Some(ZOOM_FLOOR));
}

#[test]
fn pan_never_crosses_focus_upper_limit() {
    let (mut cam, mut proj) = ready_camera();
    cam.focus_x_upper_limit = Some(fx(0.5));
    let mut input = empty_input();
    input.pressed_buttons = vec![MouseButton::Right];
    input.mouse_delta = v2(-100000.0, 0.0);
    assert!(pan_orbit_camera(&mut cam, 1, &active_for(1), &input, &mut proj, &axes()));
    assert_eq!(cam.target_focus.x, fx(0.5));
    assert!(cam.focus.x <= fx(0.5));
}

#[test]
fn pan_moves_focus_along_right_axis() {
    let (mut cam, mut proj) = ready_camera();
    let mut input = empty_input();
    input.pressed_buttons = vec![MouseButton::Right];
    input.mouse_delta = v2(-80.0, 0.0);
    assert!(pan_orbit_camera(&mut cam, 1, &active_for(1), &input, &mut proj, &axes()));
    assert!(cam.target_focus.x > 0);
    assert_eq!(cam.target_focus.y, 0);
    assert_eq!(cam.target_focus.z, 0);
}

#[test]
fn upside_down_only_recomputed_on_press_or_release() {
    let (mut cam, mut proj) = ready_camera();
    cam.allow_upside_down = true;
    let active = active_for(1);
    let mut press = empty_input();
    press.pressed_buttons = vec![MouseButton::Left];
    press.just_pressed_buttons = vec![MouseButton::Left];
    pan_orbit_camera(&mut cam, 1, &active, &press, &mut proj, &axes());
    assert!(!cam.is_upside_down);
    let mut drag = empty_input();
    drag.pressed_buttons = vec![MouseButton::Left];
    drag.mouse_delta = v2(0.0, 500.0);
    pan_orbit_camera(&mut cam, 1, &active, &drag, &mut proj, &axes());
    assert!(cam.target_beta > fx(3.0 * std::f64::consts::FRAC_PI_4));
    assert!(!cam.is_upside_down);
    let mut release = empty_input();
    release.just_released_buttons = vec![MouseButton::Left];
    pan_orbit_camera(&mut cam, 1, &active, &release, &mut proj, &axes());
    assert!(cam.is_upside_down);
}

#[test]
fn latitude_held_within_quarter_turn_unless_allowed() {
    let (mut cam, mut proj) = ready_camera();
    let mut drag = empty_input();
    drag.pressed_buttons = vec![MouseButton::Left];
    drag.mouse_delta = v2(0.0, 500.0);
    pan_orbit_camera(&mut cam, 1, &active_for(1), &drag, &mut proj, &axes());
    assert_eq!(cam.target_beta, 1_570_796);
}

#[test]
fn inactive_camera_ignores_input_but_keeps_moving() {
    let (mut cam, mut proj) = ready_camera();
    cam.target_alpha = UNIT;
    let mut drag = empty_input();
    drag.pressed_buttons = vec![MouseButton::Left];
    drag.mouse_delta = v2(100.0, 0.0);
    assert!(pan_orbit_camera(&mut cam, 1, &active_for(2), &drag, &mut proj, &axes()));
    assert_eq!(cam.target_alpha, UNIT);
    assert_eq!(cam.alpha, Some(200_000));
    let mut ui = drag;
    ui.pointer_over_ui = true;
    pan_orbit_camera(&mut cam, 1, &active_for(1), &ui, &mut proj, &axes());
    assert_eq!(cam.target_alpha, UNIT);
}

#[test]
fn orbit_turns_by_window_fraction() {
    let (mut cam, mut proj) = ready_camera();
    let mut drag = empty_input();
    drag.pressed_buttons = vec![MouseButton::Left];
    drag.mouse_delta = v2(200.0, 0.0);
    pan_orbit_camera(&mut cam, 1, &active_for(1), &drag, &mut proj, &axes());
    // a quarter of the window width is a quarter turn, leftward
    assert_eq!(cam.target_alpha, -1_570_796);
}

#[test]
fn force_update_is_spent() {
    let (mut cam, mut proj) = ready_camera();
    // the first frame sets the scale, which a perspective camera starts without
    assert!(pan_orbit_camera(&mut cam, 1, &active_for(1), &empty_input(), &mut proj, &axes()));
    assert_eq!(cam.scale, Some(UNIT));
    assert!(!pan_orbit_camera(&mut cam, 1, &active_for(1), &empty_input(), &mut proj, &axes()));
    cam.force_update = true;
    assert!(pan_orbit_camera(&mut cam, 1, &active_for(1), &empty_input(), &mut proj, &axes()));
    assert!(!cam.force_update);
}

#[test]
fn gather_respects_reversed_zoom_and_touchpad_modifier() {
    let mut cam = PanOrbitCamera::default();
    cam.reversed_zoom = true;
    cam.modifier_orbit_touchpad = Some(42);
    let mut input = empty_input();
    input.scroll_events = vec![
        ScrollEvent { unit: ScrollUnit::Line, x: 0, y: 2 * UNIT },
        ScrollEvent { unit: ScrollUnit::Pixel, x: 3 * UNIT, y: 4 * UNIT },
    ];
    input.rotate_events = vec![UNIT];
    input.magnify_events = vec![UNIT];
    let d = gather_input(&cam, &input, true);
    assert_eq!(d.scroll_line, -2 * UNIT);
    assert_eq!(d.pan, v2(3.0, 4.0));
    assert_eq!(d.rotation, v2(3.0, 0.0));
    assert_eq!(d.scroll_pixel, 2 * UNIT);
    input.pressed_keys = vec![42];
    let d = gather_input(&cam, &input, true);
    assert_eq!(d.pan, v2(0.0, 0.0));
    assert_eq!(d.rotation, v2(6.0, 4.0));
    let d = gather_input(&cam, &input, false);
    assert_eq!(d.rotation, v2(0.0, 0.0));
    assert_eq!(d.scroll_line, 0);
}

#[test]
fn modifier_gates_binding() {
    let mut cam = PanOrbitCamera::default();
    cam.modifier_orbit = Some(7);
    let mut input = empty_input();
    input.pressed_buttons = vec![MouseButton::Left];
    assert!(!cam.orbit_pressed(&input));
    input.pressed_keys = vec![7];
    assert!(cam.orbit_pressed(&input));
    assert!(!cam.pan_pressed(&input));
}

#[test]
fn upside_down_band() {
    assert!(!is_upside_down(0));
    assert!(is_upside_down(3_141_593));
    assert!(is_upside_down(-3_141_593));
    assert!(!is_upside_down(1_570_796));
    assert!(!is_upside_down(6_283_185 + 100));
}

#[test]
fn normalization_and_square_root() {
    assert_eq!(isqrt_u128(0), 0);
    assert_eq!(isqrt_u128(24), 4);
    assert_eq!(isqrt_u128(25), 5);
    assert_eq!(normalize_or_zero(3, 4, 0), (600_000, 800_000, 0));
    assert_eq!(normalize_or_zero(0, 0, 0), (0, 0, 0));
    assert_eq!(normalize_or_zero(0, -5 * UNIT as i128, 0), (0, -UNIT, 0));
    assert_eq!(mul_fixed(3 * UNIT, UNIT / 2), 1_500_000);
}

#[test]
fn initialization_clamps_preset_zoom_values() {
    let mut cam = PanOrbitCamera::default();
    cam.radius = Some(1);
    cam.scale = Some(2);
    let mut proj = Projection::Orthographic { scale: UNIT, area_width: 8 * UNIT, area_height: 6 * UNIT };
    initialize(&mut cam, 0, 0, 5 * UNIT, &mut proj);
    assert_eq!(cam.radius, Some(ZOOM_FLOOR));
    assert_eq!(cam.target_radius, ZOOM_FLOOR);
    assert_eq!(cam.scale, Some(ZOOM_FLOOR));
    assert_eq!(cam.target_scale, ZOOM_FLOOR);
    assert_eq!(proj, Projection::Orthographic { scale: ZOOM_FLOOR, area_width: 8 * UNIT, area_height: 6 * UNIT });
    // a frame keeps every zoom value at the floor
    pan_orbit_camera(&mut cam, 1, &active_for(1), &empty_input(), &mut proj, &axes());
    assert!(cam.radius.unwrap() >= ZOOM_FLOOR && cam.scale.unwrap() >= ZOOM_FLOOR);
}

#[test]
fn perspective_initialization_clamps_preset_scale() {
    let mut cam = PanOrbitCamera::default();
    cam.scale = Some(3);
    let mut proj = perspective();
    initialize(&mut cam, 0, 0, 5 * UNIT, &mut proj);
    assert_eq!(cam.scale, Some(ZOOM_FLOOR));
    assert_eq!(proj, perspective());
}

#[test]
fn idle_frames_settle_on_targets() {
    let (mut cam, mut proj) = ready_camera();
    cam.target_alpha = 2 * UNIT;
    cam.target_radius = 7 * UNIT;
    cam.target_focus = Vector3 { x: UNIT, y: -UNIT, z: 3 * UNIT };
    cam.enabled = false;
    let mut frames = 0;
    while !(cam.alpha == Some(cam.target_alpha)
        && cam.radius == Some(cam.target_radius)
        && cam.focus == cam.target_focus
        && cam.scale == Some(cam.target_scale))
    {
        pan_orbit_camera(&mut cam, 1, &active_for(1), &empty_input(), &mut proj, &axes());
        frames += 1;
        assert!(frames < 1000);
    }
    assert_eq!(cam.target_alpha, 2 * UNIT);
    assert_eq!(cam.target_radius, 7 * UNIT);
    assert!(!pan_orbit_camera(&mut cam, 1, &active_for(1), &empty_input(), &mut proj, &axes()));
    assert_eq!(cam.alpha, Some(2 * UNIT));
}
