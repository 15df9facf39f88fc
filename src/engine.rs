use vstd::prelude::*;
use crate::active::ActiveCameraData;
use crate::camera::PanOrbitCamera;
use crate::fixed::{acc_sat_zeros, sat, Vector3, UNIT};
use crate::input::FrameInput;
use crate::limits::{apply_limits, limited, zoom_limited, ZOOM_FLOOR};
use crate::motion::{
    apply_pan, apply_rotation, apply_zoom, is_upside_down, panned, rotated, upside_down, zoom_delta, zoomed, CameraAxes,
    Projection, HALF_PI,
};
use crate::smoothing::{abs_int, lerp_and_snap, lerp_and_snap_vec3, lerp_snap, lerp_snap_between, lerp_snap_progress};
use crate::update::{gather_input, gathered, FrameDeltas};

verus! {

/// The state right after initialization from the angles and distance computed
/// from the camera's transform. Values the application set beforehand are kept
/// over the computed ones; all are clamped and the targets start equal to them.
pub open spec fn initialized_state(cam: PanOrbitCamera, alpha: i64, beta: i64, radius: i64) -> PanOrbitCamera {
    let a = limited(match cam.alpha { Some(v) => v as int, None => alpha as int }, cam.alpha_upper_limit, cam.alpha_lower_limit);
    let b = limited(match cam.beta { Some(v) => v as int, None => beta as int }, cam.beta_upper_limit, cam.beta_lower_limit);
    let r = zoom_limited(match cam.radius { Some(v) => v as int, None => radius as int }, cam.zoom_upper_limit, cam.zoom_lower_limit);
    PanOrbitCamera {
        alpha: Some(a as i64),
        beta: Some(b as i64),
        radius: Some(r as i64),
        target_alpha: a as i64,
        target_beta: b as i64,
        target_radius: r as i64,
        target_focus: cam.focus,
        initialized: true,
        ..cam
    }
}

/// Initializes a camera from the longitude, latitude and distance computed from
/// its transform. For an orthographic projection an unset scale is taken from
/// the projection; a set scale (either projection) is clamped like every zoom
/// value, and for an orthographic projection it also becomes the projection's
/// scale and the target scale.
pub fn initialize(cam: &mut PanOrbitCamera, alpha: i64, beta: i64, radius: i64, projection: &mut Projection)
    requires
        old(cam).valid_config(),
    ensures
        ({
            let c = initialized_state(*old(cam), alpha, beta, radius);
            match *old(projection) {
                Projection::Perspective { .. } => {
                    &&& *final(cam) == (PanOrbitCamera {
                        scale: match old(cam).scale {
                            Some(s) => Some(zoom_limited(s as int, c.zoom_upper_limit, c.zoom_lower_limit) as i64),
                            None => None,
                        },
                        ..c
                    })
                    &&& *final(projection) == *old(projection)
                },
                Projection::Orthographic { scale, area_width, area_height } => {
                    let s = match old(cam).scale { Some(v) => v, None => scale };
                    let clamped = zoom_limited(s as int, c.zoom_upper_limit, c.zoom_lower_limit) as i64;
                    &&& *final(cam) == (PanOrbitCamera { scale: Some(clamped), target_scale: clamped, ..c })
                    &&& *final(projection) == (Projection::Orthographic { scale: clamped, area_width, area_height })
                },
            }
        }),
        final(cam).wf(),
        final(cam).initialized,
{
    let a = cam.apply_alpha_limits(match cam.alpha { Some(v) => v, None => alpha });
    let b = cam.apply_beta_limits(match cam.beta { Some(v) => v, None => beta });
    let r = cam.apply_zoom_limits(match cam.radius { Some(v) => v, None => radius });
    cam.alpha = Some(a);
    cam.beta = Some(b);
    cam.radius = Some(r);
    cam.target_alpha = a;
    cam.target_beta = b;
    cam.target_radius = r;
    cam.target_focus = cam.focus;
    cam.initialized = true;
    match *projection {
        Projection::Perspective { .. } => {
            if let Some(s) = cam.scale {
                cam.scale = Some(cam.apply_zoom_limits(s));
            }
        },
        Projection::Orthographic { scale, area_width, area_height } => {
            let s = match cam.scale { Some(v) => v, None => scale };
            let clamped = cam.apply_zoom_limits(s);
            cam.scale = Some(clamped);
            cam.target_scale = clamped;
            *projection = Projection::Orthographic { scale: clamped, area_width, area_height };
        },
    }
}

/// Whether the camera takes this frame's input: no user interface holds the
/// pointer, the camera is enabled, and it is the active camera.
pub open spec fn accepts_input(cam: PanOrbitCamera, entity: u64, active: ActiveCameraData, input: FrameInput) -> bool {
    !input.pointer_over_ui && cam.enabled && active.entity == Some(entity)
}

/// The targets after this frame's motion, and whether anything moved. Orbiting
/// takes precedence over panning; it needs the window size and panning the
/// viewport size (a size that is missing or not positive leaves the motion
/// out). Any scrolling zooms.
pub open spec fn after_motion(
    cam: PanOrbitCamera,
    d: FrameDeltas,
    active: ActiveCameraData,
    proj: Projection,
    axes: CameraAxes,
) -> (PanOrbitCamera, bool) {
    let (c1, m1) = if d.rotation.x != 0 || d.rotation.y != 0 {
        match active.window_size {
            Some(w) => if w.x > 0 && w.y > 0 { (rotated(cam, d.rotation, w), true) } else { (cam, false) },
            None => (cam, false),
        }
    } else if d.pan.x != 0 || d.pan.y != 0 {
        match active.viewport_size {
            Some(vp) => if vp.x > 0 && vp.y > 0 { (panned(cam, d.pan, vp, proj, axes), true) } else { (cam, false) },
            None => (cam, false),
        }
    } else {
        (cam, false)
    };
    if d.scroll_line + d.scroll_pixel != 0 {
        (zoomed(c1, d.scroll_line as int, d.scroll_pixel as int, proj is Orthographic), true)
    } else {
        (c1, m1)
    }
}

/// The targets clamped to their limits; the latitude also to [-π/2, π/2]
/// unless the camera may go upside down.
pub open spec fn constrained(cam: PanOrbitCamera) -> PanOrbitCamera {
    let tb = limited(cam.target_beta as int, cam.beta_upper_limit, cam.beta_lower_limit);
    PanOrbitCamera {
        target_alpha: limited(cam.target_alpha as int, cam.alpha_upper_limit, cam.alpha_lower_limit) as i64,
        target_beta: (if cam.allow_upside_down { tb } else { limited(tb, Some(HALF_PI), Some((-HALF_PI) as i64)) }) as i64,
        target_radius: zoom_limited(cam.target_radius as int, cam.zoom_upper_limit, cam.zoom_lower_limit) as i64,
        target_scale: zoom_limited(cam.target_scale as int, cam.zoom_upper_limit, cam.zoom_lower_limit) as i64,
        target_focus: cam.focus_limited(cam.target_focus),
        ..cam
    }
}

/// Whether the transform must be recomputed: something moved, a target differs
/// from its current value, or an update is forced.
pub open spec fn needs_write(cam: PanOrbitCamera, moved: bool) -> bool {
    moved || cam.target_alpha != cam.alpha.unwrap() || cam.target_beta != cam.beta.unwrap()
        || cam.target_radius != cam.radius.unwrap() || cam.target_focus != cam.focus
        || Some(cam.target_scale) != cam.scale || cam.force_update
}

/// Every current value one smoothing step closer to its target; the forced
/// update is spent.
pub open spec fn interpolated(cam: PanOrbitCamera) -> PanOrbitCamera {
    let s = match cam.scale { Some(v) => v, None => cam.target_scale };
    PanOrbitCamera {
        alpha: Some(lerp_snap(cam.alpha.unwrap() as int, cam.target_alpha as int, cam.orbit_smoothness as int) as i64),
        beta: Some(lerp_snap(cam.beta.unwrap() as int, cam.target_beta as int, cam.orbit_smoothness as int) as i64),
        radius: Some(lerp_snap(cam.radius.unwrap() as int, cam.target_radius as int, cam.zoom_smoothness as int) as i64),
        scale: Some(lerp_snap(s as int, cam.target_scale as int, cam.zoom_smoothness as int) as i64),
        focus: Vector3 {
            x: lerp_snap(cam.focus.x as int, cam.target_focus.x as int, cam.pan_smoothness as int) as i64,
            y: lerp_snap(cam.focus.y as int, cam.target_focus.y as int, cam.pan_smoothness as int) as i64,
            z: lerp_snap(cam.focus.z as int, cam.target_focus.z as int, cam.pan_smoothness as int) as i64,
        },
        force_update: false,
        ..cam
    }
}

/// The camera with its upside-down flag recomputed from the target latitude,
/// when the orbit binding was pressed or released this frame.
pub open spec fn flagged(cam: PanOrbitCamera, d: FrameDeltas) -> PanOrbitCamera {
    if d.orbit_button_changed {
        PanOrbitCamera { is_upside_down: upside_down(cam.target_beta as int), ..cam }
    } else {
        cam
    }
}

/// One frame of one camera: the camera, the projection, and whether the
/// transform must be rebuilt from the new `alpha`, `beta`, `radius` and
/// `focus`.
pub open spec fn frame_update(
    cam: PanOrbitCamera,
    entity: u64,
    active: ActiveCameraData,
    input: FrameInput,
    proj: Projection,
    axes: CameraAxes,
) -> (PanOrbitCamera, Projection, bool) {
    let d = gathered(cam, input, accepts_input(cam, entity, active, input));
    let (c1, moved) = after_motion(flagged(cam, d), d, active, proj, axes);
    committed(constrained(c1), moved, proj)
}

/// When the transform must be rebuilt, the camera one smoothing step further
/// (and the orthographic projection at its new scale); else all as it is.
pub open spec fn committed(cam: PanOrbitCamera, moved: bool, proj: Projection) -> (PanOrbitCamera, Projection, bool) {
    if cam.alpha is Some && cam.beta is Some && cam.radius is Some && needs_write(cam, moved) {
        let c = interpolated(cam);
        let p = match proj {
            Projection::Orthographic { scale, area_width, area_height } => Projection::Orthographic {
                scale: c.scale.unwrap(),
                area_width,
                area_height,
            },
            Projection::Perspective { .. } => proj,
        };
        (c, p, true)
    } else {
        (cam, proj, false)
    }
}

fn apply_constraints(cam: &mut PanOrbitCamera)
    ensures
        *final(cam) == constrained(*old(cam)),
        old(cam).wf() ==> final(cam).wf(),
        final(cam).target_radius >= ZOOM_FLOOR,
        final(cam).target_scale >= ZOOM_FLOOR,
{
    cam.target_alpha = cam.apply_alpha_limits(cam.target_alpha);
    let tb = cam.apply_beta_limits(cam.target_beta);
    cam.target_beta = if cam.allow_upside_down { tb } else { apply_limits(tb, Some(HALF_PI), Some(-HALF_PI)) };
    cam.target_radius = cam.apply_zoom_limits(cam.target_radius);
    cam.target_scale = cam.apply_zoom_limits(cam.target_scale);
    cam.target_focus = cam.apply_focus_limits(cam.target_focus);
}

fn apply_motion(cam: &mut PanOrbitCamera, d: FrameDeltas, active: &ActiveCameraData, proj: &Projection, axes: &CameraAxes) -> (moved: bool)
    ensures
        (*final(cam), moved) == after_motion(*old(cam), d, *active, *proj, *axes),
        old(cam).wf() ==> final(cam).wf(),
{
    let mut moved = false;
    if d.rotation.is_nonzero() {
        if let Some(w) = active.window_size {
            if w.x > 0 && w.y > 0 {
                apply_rotation(cam, d.rotation, w);
                moved = true;
            }
        }
    } else if d.pan.is_nonzero() {
        if let Some(vp) = active.viewport_size {
            if vp.x > 0 && vp.y > 0 {
                apply_pan(cam, d.pan, vp, proj, axes);
                moved = true;
            }
        }
    }
    if d.scroll_line as i128 + d.scroll_pixel as i128 != 0 {
        let orthographic = match proj {
            Projection::Orthographic { .. } => true,
            Projection::Perspective { .. } => false,
        };
        apply_zoom(cam, d.scroll_line, d.scroll_pixel, orthographic);
        moved = true;
    }
    moved
}

/// Runs one frame for one camera: gathers its input (when it accepts input),
/// recomputes the upside-down flag when the orbit binding was pressed or
/// released, moves and clamps the targets, and, when something changed, moves
/// every current value one smoothing step toward its target. Returns whether
/// the transform must be rebuilt from the camera's new state.
pub fn pan_orbit_camera(
    cam: &mut PanOrbitCamera,
    entity: u64,
    active: &ActiveCameraData,
    input: &FrameInput,
    projection: &mut Projection,
    axes: &CameraAxes,
) -> (write: bool)
    requires
        old(cam).wf(),
        old(cam).initialized,
    ensures
        (*final(cam), *final(projection), write) == frame_update(*old(cam), entity, *active, *input, *old(projection), *axes),
        final(cam).wf(),
{
    let accepting = !input.pointer_over_ui && cam.enabled && active.entity == Some(entity);
    let d = gather_input(cam, input, accepting);
    if d.orbit_button_changed {
        cam.is_upside_down = is_upside_down(cam.target_beta);
    }
    let moved = apply_motion(cam, d, active, projection, axes);
    apply_constraints(cam);
    commit(cam, moved, projection)
}

fn commit(cam: &mut PanOrbitCamera, moved: bool, projection: &mut Projection) -> (write: bool)
    requires
        old(cam).wf(),
        old(cam).target_radius >= ZOOM_FLOOR,
        old(cam).target_scale >= ZOOM_FLOOR,
    ensures
        (*final(cam), *final(projection), write) == committed(*old(cam), moved, *old(projection)),
        final(cam).wf(),
{
    match (cam.alpha, cam.beta, cam.radius) {
        (Some(alpha), Some(beta), Some(radius)) => {
            let scale_differs = match cam.scale {
                Some(s) => s != cam.target_scale,
                None => true,
            };
            if moved || cam.target_alpha != alpha || cam.target_beta != beta || cam.target_radius != radius
                || cam.target_focus != cam.focus || scale_differs || cam.force_update {
                let new_alpha = lerp_and_snap(alpha, cam.target_alpha, cam.orbit_smoothness);
                let new_beta = lerp_and_snap(beta, cam.target_beta, cam.orbit_smoothness);
                let new_radius = lerp_and_snap(radius, cam.target_radius, cam.zoom_smoothness);
                let current_scale = match cam.scale {
                    Some(s) => s,
                    None => cam.target_scale,
                };
                let new_scale = lerp_and_snap(current_scale, cam.target_scale, cam.zoom_smoothness);
                proof {
                    lerp_snap_between(radius as int, cam.target_radius as int, cam.zoom_smoothness as int);
                    lerp_snap_between(current_scale as int, cam.target_scale as int, cam.zoom_smoothness as int);
                }
                let new_focus = lerp_and_snap_vec3(cam.focus, cam.target_focus, cam.pan_smoothness);
                match *projection {
                    Projection::Orthographic { scale: _, area_width, area_height } => {
                        *projection = Projection::Orthographic { scale: new_scale, area_width, area_height };
                    },
                    Projection::Perspective { .. } => {},
                }
                cam.alpha = Some(new_alpha);
                cam.beta = Some(new_beta);
                cam.radius = Some(new_radius);
                cam.scale = Some(new_scale);
                cam.focus = new_focus;
                cam.force_update = false;
                true
            } else {
                false
            }
        },
        _ => false,
    }
}

/// Whether an orthographic projection's scale is at least the hard floor.
pub open spec fn projection_floored(p: Projection) -> bool {
    match p {
        Projection::Orthographic { scale, .. } => scale >= ZOOM_FLOOR,
        Projection::Perspective { .. } => true,
    }
}

proof fn lemma_zoomed_wf(c: PanOrbitCamera, line: int, pixel: int, orthographic: bool)
    requires
        c.wf(),
    ensures
        zoomed(c, line, pixel, orthographic).wf(),
{
    let t = if orthographic { c.target_scale as int } else { c.target_radius as int };
    let pd = zoom_delta(pixel, t);
    if orthographic {
        if c.scale is Some {
            lemma_zoom_limited_range(sat(c.scale.unwrap() + pd), c.zoom_upper_limit, c.zoom_lower_limit);
        }
    } else {
        if c.radius is Some {
            lemma_zoom_limited_range(sat(c.radius.unwrap() + pd), c.zoom_upper_limit, c.zoom_lower_limit);
        }
    }
}

proof fn lemma_motion_wf(c: PanOrbitCamera, d: FrameDeltas, active: ActiveCameraData, proj: Projection, axes: CameraAxes)
    requires
        c.wf(),
    ensures
        after_motion(c, d, active, proj, axes).0.wf(),
        after_motion(c, d, active, proj, axes).0.initialized == c.initialized,
{
    let c1 = if d.rotation.x != 0 || d.rotation.y != 0 {
        match active.window_size {
            Some(w) => if w.x > 0 && w.y > 0 { rotated(c, d.rotation, w) } else { c },
            None => c,
        }
    } else if d.pan.x != 0 || d.pan.y != 0 {
        match active.viewport_size {
            Some(vp) => if vp.x > 0 && vp.y > 0 { panned(c, d.pan, vp, proj, axes) } else { c },
            None => c,
        }
    } else {
        c
    };
    assert(c1.wf());
    lemma_zoomed_wf(c1, d.scroll_line as int, d.scroll_pixel as int, proj is Orthographic);
}

proof fn lemma_constrained(c: PanOrbitCamera)
    requires
        c.wf(),
    ensures
        constrained(c).wf(),
        constrained(c).target_radius >= ZOOM_FLOOR,
        constrained(c).target_scale >= ZOOM_FLOOR,
{
    lemma_zoom_limited_range(c.target_radius as int, c.zoom_upper_limit, c.zoom_lower_limit);
    lemma_zoom_limited_range(c.target_scale as int, c.zoom_upper_limit, c.zoom_lower_limit);
}

proof fn lemma_committed_wf(c: PanOrbitCamera, moved: bool, proj: Projection)
    requires
        c.wf(),
        c.initialized,
        c.target_radius >= ZOOM_FLOOR,
        c.target_scale >= ZOOM_FLOOR,
        projection_floored(proj),
    ensures
        committed(c, moved, proj).0.wf(),
        committed(c, moved, proj).0.initialized,
        projection_floored(committed(c, moved, proj).1),
        committed(c, moved, proj).0.target_radius == c.target_radius,
        committed(c, moved, proj).0.target_scale == c.target_scale,
{
    let s = match c.scale { Some(v) => v, None => c.target_scale };
    lerp_snap_between(c.radius.unwrap() as int, c.target_radius as int, c.zoom_smoothness as int);
    lerp_snap_between(s as int, c.target_scale as int, c.zoom_smoothness as int);
    lerp_snap_between(c.alpha.unwrap() as int, c.target_alpha as int, c.orbit_smoothness as int);
    lerp_snap_between(c.beta.unwrap() as int, c.target_beta as int, c.orbit_smoothness as int);
}

/// A frame keeps the camera's invariant, and with it the zoom floor: after any
/// frame of an initialized camera, whatever the input and the configured zoom
/// limits (none, below the floor, or inverted), both zoom targets, the radius,
/// the scale when set, and an orthographic projection's scale are all at least
/// the hard floor.
pub proof fn frame_zoom_floored(
    cam: PanOrbitCamera,
    entity: u64,
    active: ActiveCameraData,
    input: FrameInput,
    proj: Projection,
    axes: CameraAxes,
)
    requires
        cam.wf(),
        cam.initialized,
        projection_floored(proj),
    ensures
        ({
            let (c, p, _) = frame_update(cam, entity, active, input, proj, axes);
            &&& c.wf()
            &&& c.initialized
            &&& c.target_radius >= ZOOM_FLOOR
            &&& c.target_scale >= ZOOM_FLOOR
            &&& c.radius is Some && c.radius.unwrap() >= ZOOM_FLOOR
            &&& (c.scale is Some ==> c.scale.unwrap() >= ZOOM_FLOOR)
            &&& projection_floored(p)
        }),
{
    let d = gathered(cam, input, accepts_input(cam, entity, active, input));
    let c0 = flagged(cam, d);
    assert(c0.wf());
    lemma_motion_wf(c0, d, active, proj, axes);
    let (c1, moved) = after_motion(c0, d, active, proj, axes);
    lemma_constrained(c1);
    lemma_committed_wf(constrained(c1), moved, proj);
}

/// Zooming an orthographic camera with the touchpad alone (no line scrolling)
/// moves the target scale and the current scale together in the same frame:
/// both become the clamped new value, and so does the projection's scale.
pub proof fn frame_orthographic_pixel_zoom(
    cam: PanOrbitCamera,
    entity: u64,
    active: ActiveCameraData,
    input: FrameInput,
    proj: Projection,
    axes: CameraAxes,
)
    requires
        cam.wf(),
        cam.initialized,
        proj is Orthographic,
        cam.scale == Some(cam.target_scale),
        accepts_input(cam, entity, active, input),
        forall|i: int| 0 <= i < input.scroll_events@.len() ==> (#[trigger] input.scroll_events@[i]).unit is Pixel,
        gathered(cam, input, true).scroll_pixel != 0,
    ensures
        ({
            let t = cam.target_scale as int;
            let z = zoom_limited(sat(t + zoom_delta(gathered(cam, input, true).scroll_pixel as int, t)), cam.zoom_upper_limit, cam.zoom_lower_limit) as i64;
            let (c, p, write) = frame_update(cam, entity, active, input, proj, axes);
            &&& c.target_scale == z
            &&& c.scale == Some(z)
            &&& p == (Projection::Orthographic {
                scale: z,
                area_width: proj->area_width,
                area_height: proj->area_height,
            })
            &&& write
        }),
{
    let d = gathered(cam, input, true);
    let lines = crate::update::line_amounts(input.scroll_events@, cam.zoom_sensitivity as int, cam.reversed_zoom);
    assert forall|i: int| 0 <= i < lines.len() implies lines[i] == 0 by {
        assert(input.scroll_events@[i].unit is Pixel);
    }
    acc_sat_zeros(0, lines);
    assert(d.scroll_line == 0);
    let t = cam.target_scale as int;
    let pd = zoom_delta(d.scroll_pixel as int, t);
    assert(zoom_delta(0, t) == 0);
    let z = zoom_limited(sat(t + pd), cam.zoom_upper_limit, cam.zoom_lower_limit);
    lemma_zoom_limited_range(sat(t + pd), cam.zoom_upper_limit, cam.zoom_lower_limit);
    let c0 = flagged(cam, d);
    let c1 = after_motion(c0, d, active, proj, axes).0;
    assert(c1.target_scale == sat(t + pd));
    assert(c1.scale == Some(z as i64));
    let c2 = constrained(c1);
    assert(c2.target_scale == z);
    lemma_constrained(c1);
    lerp_snap_between(z, z, c2.zoom_smoothness as int);
}

/// How far an initialized camera's current values are from their targets, in
/// millionths summed over every value; an unset scale counts one.
pub open spec fn remaining_gap(c: PanOrbitCamera) -> nat {
    (abs_int(c.target_alpha - c.alpha.unwrap()) + abs_int(c.target_beta - c.beta.unwrap())
        + abs_int(c.target_radius - c.radius.unwrap()) + match c.scale {
        Some(s) => abs_int(c.target_scale - s),
        None => 1,
    } + abs_int(c.target_focus.x - c.focus.x) + abs_int(c.target_focus.y - c.focus.y)
        + abs_int(c.target_focus.z - c.focus.z)) as nat
}

/// Every current value equals its target.
pub open spec fn settled(c: PanOrbitCamera) -> bool {
    &&& c.alpha == Some(c.target_alpha)
    &&& c.beta == Some(c.target_beta)
    &&& c.radius == Some(c.target_radius)
    &&& c.scale == Some(c.target_scale)
    &&& c.focus == c.target_focus
}

/// The camera and projection after `n` frames with the same input.
pub open spec fn frames(
    cam: PanOrbitCamera,
    entity: u64,
    active: ActiveCameraData,
    input: FrameInput,
    proj: Projection,
    axes: CameraAxes,
    n: nat,
) -> (PanOrbitCamera, Projection)
    decreases n,
{
    if n == 0 {
        (cam, proj)
    } else {
        let (c, p, _) = frame_update(cam, entity, active, input, proj, axes);
        frames(c, entity, active, input, p, axes, (n - 1) as nat)
    }
}

/// The targets of two cameras agree.
pub open spec fn same_targets(a: PanOrbitCamera, b: PanOrbitCamera) -> bool {
    &&& a.target_alpha == b.target_alpha
    &&& a.target_beta == b.target_beta
    &&& a.target_radius == b.target_radius
    &&& a.target_scale == b.target_scale
    &&& a.target_focus == b.target_focus
}

/// Preconditions of an idle frame that converges.
pub open spec fn idle_converging(cam: PanOrbitCamera, entity: u64, active: ActiveCameraData, input: FrameInput) -> bool {
    &&& cam.wf()
    &&& cam.initialized
    &&& !accepts_input(cam, entity, active, input)
    &&& cam.orbit_smoothness < UNIT
    &&& cam.pan_smoothness < UNIT
    &&& cam.zoom_smoothness < UNIT
    &&& constrained(cam) == cam
}

proof fn lemma_idle_frame(
    cam: PanOrbitCamera,
    entity: u64,
    active: ActiveCameraData,
    input: FrameInput,
    proj: Projection,
    axes: CameraAxes,
)
    requires
        idle_converging(cam, entity, active, input),
    ensures
        ({
            let c = frame_update(cam, entity, active, input, proj, axes).0;
            &&& idle_converging(c, entity, active, input)
            &&& same_targets(c, cam)
            &&& remaining_gap(cam) > 0 ==> remaining_gap(c) < remaining_gap(cam)
            &&& remaining_gap(cam) == 0 ==> remaining_gap(c) == 0
        }),
{
    let d = gathered(cam, input, false);
    assert(flagged(cam, d) == cam);
    assert(after_motion(cam, d, active, proj, axes) == (cam, false));
    let s = match cam.scale { Some(v) => v, None => cam.target_scale };
    lerp_snap_progress(cam.alpha.unwrap() as int, cam.target_alpha as int, cam.orbit_smoothness as int);
    lerp_snap_progress(cam.beta.unwrap() as int, cam.target_beta as int, cam.orbit_smoothness as int);
    lerp_snap_progress(cam.radius.unwrap() as int, cam.target_radius as int, cam.zoom_smoothness as int);
    lerp_snap_progress(s as int, cam.target_scale as int, cam.zoom_smoothness as int);
    lerp_snap_progress(cam.focus.x as int, cam.target_focus.x as int, cam.pan_smoothness as int);
    lerp_snap_progress(cam.focus.y as int, cam.target_focus.y as int, cam.pan_smoothness as int);
    lerp_snap_progress(cam.focus.z as int, cam.target_focus.z as int, cam.pan_smoothness as int);
    lerp_snap_between(cam.alpha.unwrap() as int, cam.target_alpha as int, cam.orbit_smoothness as int);
    lerp_snap_between(cam.beta.unwrap() as int, cam.target_beta as int, cam.orbit_smoothness as int);
    lerp_snap_between(cam.radius.unwrap() as int, cam.target_radius as int, cam.zoom_smoothness as int);
    lerp_snap_between(s as int, cam.target_scale as int, cam.zoom_smoothness as int);
    lerp_snap_between(cam.focus.x as int, cam.target_focus.x as int, cam.pan_smoothness as int);
    lerp_snap_between(cam.focus.y as int, cam.target_focus.y as int, cam.pan_smoothness as int);
    lerp_snap_between(cam.focus.z as int, cam.target_focus.z as int, cam.pan_smoothness as int);
    lemma_constrained(cam);
    let c = committed(cam, false, proj).0;
    assert(constrained(c) == c);
}

/// Frames in which the camera takes no input (it is disabled, not the active
/// camera, or a user interface holds the pointer) leave every target as it is
/// and, with every smoothness below one unit and targets within their limits,
/// bring every current value exactly onto its target within as many frames as
/// the starting gap counts millionths; the camera then stays there.
pub proof fn idle_frames_settle(
    cam: PanOrbitCamera,
    entity: u64,
    active: ActiveCameraData,
    input: FrameInput,
    proj: Projection,
    axes: CameraAxes,
    n: nat,
)
    requires
        idle_converging(cam, entity, active, input),
        n >= remaining_gap(cam),
    ensures
        settled(frames(cam, entity, active, input, proj, axes, n).0),
        same_targets(frames(cam, entity, active, input, proj, axes, n).0, cam),
    decreases n,
{
    if n == 0 {
    } else {
        lemma_idle_frame(cam, entity, active, input, proj, axes);
        let (c, p, _) = frame_update(cam, entity, active, input, proj, axes);
        idle_frames_settle(c, entity, active, input, p, axes, (n - 1) as nat);
    }
}

/// After any frame the target focus lies within a configured upper limit on
/// the X axis, however far this frame's input panned toward it.
pub proof fn frame_focus_x_within_upper(
    cam: PanOrbitCamera,
    entity: u64,
    active: ActiveCameraData,
    input: FrameInput,
    proj: Projection,
    axes: CameraAxes,
    upper: i64,
)
    requires
        cam.focus_x_upper_limit == Some(upper),
    ensures
        frame_update(cam, entity, active, input, proj, axes).0.target_focus.x <= upper,
{
    let d = gathered(cam, input, accepts_input(cam, entity, active, input));
    let c1 = after_motion(flagged(cam, d), d, active, proj, axes).0;
    lemma_limited_range(c1.target_focus.x as int, c1.focus_x_upper_limit, c1.focus_x_lower_limit);
}

/// The upside-down flag changes only in a frame where the orbit binding was
/// pressed or released: it is then recomputed from the target latitude the
/// frame started with, and otherwise kept, however far a drag has gone.
pub proof fn frame_upside_down_on_orbit_edges(
    cam: PanOrbitCamera,
    entity: u64,
    active: ActiveCameraData,
    input: FrameInput,
    proj: Projection,
    axes: CameraAxes,
)
    ensures
        frame_update(cam, entity, active, input, proj, axes).0.is_upside_down == if gathered(
            cam,
            input,
            accepts_input(cam, entity, active, input),
        ).orbit_button_changed {
            upside_down(cam.target_beta as int)
        } else {
            cam.is_upside_down
        },
{
}

proof fn lemma_limited_range(value: int, upper: Option<i64>, lower: Option<i64>)
    requires
        i64::MIN <= value <= i64::MAX,
    ensures
        i64::MIN <= limited(value, upper, lower) <= i64::MAX,
        upper is Some ==> limited(value, upper, lower) <= upper.unwrap(),
{
}

proof fn lemma_zoom_limited_range(value: int, upper: Option<i64>, lower: Option<i64>)
    requires
        i64::MIN <= value <= i64::MAX,
    ensures
        ZOOM_FLOOR <= zoom_limited(value, upper, lower) <= i64::MAX,
{
}

} // verus!
