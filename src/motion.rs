use vstd::prelude::*;
use crate::active::ActiveCameraData;
use crate::camera::PanOrbitCamera;
use crate::fixed::{lemma_mul_i64, div_toward_zero, div_trunc, mul_fixed, mul_fx, sat, saturate, PI, TAU, UNIT, Vector2, Vector3};
use crate::geometry::{normalize_or_zero, normalized};
use crate::limits::{zoom_limited, ZOOM_FLOOR};
use crate::smoothing::abs_int;
use vstd::arithmetic::div_mod::lemma_div_is_ordered;

verus! {

/// A quarter turn (π/2) in millionths of a radian, rounded.
pub const HALF_PI: i64 = 1_570_796;

/// Three quarter turns (3π/2) in millionths of a radian, rounded.
pub const THREE_HALVES_PI: i64 = 4_712_389;

/// The two projection parameters the controller reads, and the orthographic
/// scale it writes.
#[derive(Clone, Copy, Debug, PartialEq, Eq, Structural)]
pub enum Projection {
    /// Vertical field of view (radians) and aspect ratio.
    Perspective { fov: i64, aspect_ratio: i64 },
    /// Projection scale and the size of the visible area.
    Orthographic { scale: i64, area_width: i64, area_height: i64 },
}

/// The camera's current right and up axes, as unit vectors.
#[derive(Clone, Copy, Debug, PartialEq, Eq, Structural)]
pub struct CameraAxes {
    pub right: Vector3,
    pub up: Vector3,
}

/// Whether a latitude, wrapped into one turn, lies strictly between π/2 and
/// 3π/2: the camera then looks at the focus upside down.
pub open spec fn upside_down(beta: int) -> bool {
    let w = abs_int(beta) % (TAU as int);
    HALF_PI < w && w < THREE_HALVES_PI
}

/// Whether the camera is upside down at latitude `beta` (see [`upside_down`]).
pub fn is_upside_down(beta: i64) -> (r: bool)
    ensures
        r == upside_down(beta as int),
{
    let a: i128 = if beta < 0 { -(beta as i128) } else { beta as i128 };
    let w: i128 = a % (TAU as i128);
    (HALF_PI as i128) < w && w < (THREE_HALVES_PI as i128)
}

/// The targets after orbiting by `rot` pixels in a window of size `win`: a full
/// window width turns the longitude by a full turn (reversed while upside
/// down), a full window height turns the latitude by half a turn.
pub open spec fn rotated(cam: PanOrbitCamera, rot: Vector2, win: Vector2) -> PanOrbitCamera {
    let dx = sat(div_trunc(rot.x * TAU, win.x as int));
    let dy = sat(div_trunc(rot.y * PI, win.y as int));
    let da = if cam.is_upside_down { -dx } else { dx };
    PanOrbitCamera {
        target_alpha: sat(cam.target_alpha - da) as i64,
        target_beta: sat(cam.target_beta + dy) as i64,
        ..cam
    }
}

/// Orbits the targets by `rot` pixels (see [`rotated`]).
pub fn apply_rotation(cam: &mut PanOrbitCamera, rot: Vector2, win: Vector2)
    requires
        win.x > 0,
        win.y > 0,
    ensures
        *final(cam) == rotated(*old(cam), rot, win),
{
    proof {
        lemma_mul_i64(rot.x as int, TAU as int);
        lemma_mul_i64(rot.y as int, PI as int);
    }
    let dx = saturate(div_toward_zero(rot.x as i128 * TAU as i128, win.x as i128));
    let dy = saturate(div_toward_zero(rot.y as i128 * PI as i128, win.y as i128));
    let da: i128 = if cam.is_upside_down { -(dx as i128) } else { dx as i128 };
    cam.target_alpha = saturate(cam.target_alpha as i128 - da);
    cam.target_beta = saturate(cam.target_beta as i128 + dy as i128);
}

/// `-1` for a negative value, else `1`.
pub open spec fn sign_of(v: int) -> int {
    if v < 0 { -1 } else { 1 }
}

/// The direction of one pan axis: the focus moved one step along `axis` (in
/// the direction `s`), clamped to the focus limits, minus the focus, as a unit
/// vector. Clamping this direction before it is scaled keeps panning sliding
/// along a limit instead of crossing it.
pub open spec fn pan_direction(cam: PanOrbitCamera, tf: Vector3, axis: Vector3, s: int) -> (int, int, int) {
    let moved = Vector3 {
        x: sat(tf.x + axis.x * s) as i64,
        y: sat(tf.y + axis.y * s) as i64,
        z: sat(tf.z + axis.z * s) as i64,
    };
    let c = cam.focus_limited(moved);
    normalized((c.x - tf.x, c.y - tf.y, c.z - tf.z))
}

/// The horizontal and vertical pan amounts in world units, and the factor the
/// movement is multiplied by: pixels are scaled by the field of view over the
/// viewport size and by the radius for a perspective projection, by the visible
/// area over the viewport size for an orthographic one.
pub open spec fn pan_amounts(cam: PanOrbitCamera, pan: Vector2, vp: Vector2, proj: Projection) -> (int, int, int) {
    match proj {
        Projection::Perspective { fov, aspect_ratio } => (
            sat(div_trunc(pan.x * mul_fx(fov as int, aspect_ratio as int), vp.x as int)),
            sat(div_trunc(pan.y * fov, vp.y as int)),
            match cam.radius {
                Some(r) => r as int,
                None => UNIT as int,
            },
        ),
        Projection::Orthographic { area_width, area_height, .. } => (
            sat(div_trunc(pan.x * area_width, vp.x as int)),
            sat(div_trunc(pan.y * area_height, vp.y as int)),
            UNIT as int,
        ),
    }
}

/// The targets after panning by `pan` pixels in a viewport of size `vp`.
pub open spec fn panned(cam: PanOrbitCamera, pan: Vector2, vp: Vector2, proj: Projection, axes: CameraAxes) -> PanOrbitCamera {
    let (px, py, m) = pan_amounts(cam, pan, vp, proj);
    let tf = cam.target_focus;
    let r = pan_direction(cam, tf, axes.right, sign_of(px));
    let u = pan_direction(cam, tf, axes.up, sign_of(py));
    let ax = sat(abs_int(px));
    let ay = sat(abs_int(py));
    let tx = mul_fx(sat(mul_fx(r.0, -ax) + mul_fx(u.0, ay)), m);
    let ty = mul_fx(sat(mul_fx(r.1, -ax) + mul_fx(u.1, ay)), m);
    let tz = mul_fx(sat(mul_fx(r.2, -ax) + mul_fx(u.2, ay)), m);
    PanOrbitCamera {
        target_focus: Vector3 { x: sat(tf.x + tx) as i64, y: sat(tf.y + ty) as i64, z: sat(tf.z + tz) as i64 },
        ..cam
    }
}

fn step_along(v: i64, a: i64, s: i64) -> (r: i64)
    requires
        s == 1 || s == -1,
    ensures
        r == sat(v + a * s),
{
    let step: i128 = if s == 1 { a as i128 } else { -(a as i128) };
    saturate(v as i128 + step)
}

fn direction(cam: &PanOrbitCamera, tf: Vector3, axis: Vector3, s: i64) -> (r: (i64, i64, i64))
    requires
        s == 1 || s == -1,
    ensures
        (r.0 as int, r.1 as int, r.2 as int) == pan_direction(*cam, tf, axis, s as int),
{
    let moved = Vector3 {
        x: step_along(tf.x, axis.x, s),
        y: step_along(tf.y, axis.y, s),
        z: step_along(tf.z, axis.z, s),
    };
    let c = cam.apply_focus_limits(moved);
    normalize_or_zero(c.x as i128 - tf.x as i128, c.y as i128 - tf.y as i128, c.z as i128 - tf.z as i128)
}

fn scaled_pan(p: i64, f: i64, size: i64) -> (r: i64)
    requires
        size > 0,
    ensures
        r == sat(div_trunc(p * f, size as int)),
{
    proof {
        lemma_mul_i64(p as int, f as int);
    }
    saturate(div_toward_zero(p as i128 * f as i128, size as i128))
}

fn abs_sat(v: i64) -> (r: i64)
    ensures
        r == sat(abs_int(v as int)),
{
    if v == i64::MIN {
        i64::MAX
    } else if v < 0 {
        -v
    } else {
        v
    }
}

fn pan_component(r: i64, u: i64, ax: i64, ay: i64, m: i64) -> (t: i64)
    requires
        ax >= 0,
    ensures
        t == mul_fx(sat(mul_fx(r as int, -ax) + mul_fx(u as int, ay as int)), m as int),
{
    let a = mul_fixed(r, -ax);
    let b = mul_fixed(u, ay);
    mul_fixed(saturate(a as i128 + b as i128), m)
}

/// Pans the target focus by `pan` pixels (see [`panned`]).
pub fn apply_pan(cam: &mut PanOrbitCamera, pan: Vector2, vp: Vector2, proj: &Projection, axes: &CameraAxes)
    requires
        vp.x > 0,
        vp.y > 0,
    ensures
        *final(cam) == panned(*old(cam), pan, vp, *proj, *axes),
{
    let (px, py, m) = match *proj {
        Projection::Perspective { fov, aspect_ratio } => {
            let m = match cam.radius {
                Some(r) => r,
                None => UNIT,
            };
            (scaled_pan(pan.x, mul_fixed(fov, aspect_ratio), vp.x), scaled_pan(pan.y, fov, vp.y), m)
        },
        Projection::Orthographic { area_width, area_height, .. } => {
            (scaled_pan(pan.x, area_width, vp.x), scaled_pan(pan.y, area_height, vp.y), UNIT)
        },
    };
    let tf = cam.target_focus;
    let r = direction(cam, tf, axes.right, if px < 0 { -1 } else { 1 });
    let u = direction(cam, tf, axes.up, if py < 0 { -1 } else { 1 });
    let ax = abs_sat(px);
    let ay = abs_sat(py);
    let tx = pan_component(r.0, u.0, ax, ay, m);
    let ty = pan_component(r.1, u.1, ax, ay, m);
    let tz = pan_component(r.2, u.2, ax, ay, m);
    cam.target_focus = Vector3 {
        x: saturate(tf.x as i128 + tx as i128),
        y: saturate(tf.y as i128 + ty as i128),
        z: saturate(tf.z as i128 + tz as i128),
    };
}

/// The change of a zoom target for a scroll amount: a fifth of the target per
/// unit of scrolling, so that zooming is proportional at every zoom level.
pub open spec fn zoom_delta(amount: int, target: int) -> int {
    -div_trunc(amount * target, 5 * UNIT)
}

/// The zoom state after scrolling: both amounts move the target (scale for an
/// orthographic projection, radius otherwise); the pixel amount also moves the
/// current value at once, clamped, as it is already smooth.
pub open spec fn zoomed(cam: PanOrbitCamera, line: int, pixel: int, orthographic: bool) -> PanOrbitCamera {
    if orthographic {
        let t = cam.target_scale as int;
        let pd = zoom_delta(pixel, t);
        PanOrbitCamera {
            target_scale: sat(t + zoom_delta(line, t) + pd) as i64,
            scale: match cam.scale {
                Some(v) => Some(zoom_limited(sat(v + pd), cam.zoom_upper_limit, cam.zoom_lower_limit) as i64),
                None => None,
            },
            ..cam
        }
    } else {
        let t = cam.target_radius as int;
        let pd = zoom_delta(pixel, t);
        PanOrbitCamera {
            target_radius: sat(t + zoom_delta(line, t) + pd) as i64,
            radius: match cam.radius {
                Some(v) => Some(zoom_limited(sat(v + pd), cam.zoom_upper_limit, cam.zoom_lower_limit) as i64),
                None => None,
            },
            ..cam
        }
    }
}

fn zoom_delta_exec(amount: i64, target: i64) -> (r: i128)
    ensures
        r == zoom_delta(amount as int, target as int),
        -0x100_0000_0000_0000_0000_0000_0000 <= r <= 0x100_0000_0000_0000_0000_0000_0000,
{
    let ghost n = (amount as int) * (target as int);
    proof {
        lemma_mul_i64(amount as int, target as int);
        if n >= 0 {
            lemma_div_is_ordered(n, 0x4000_0000_0000_0000_0000_0000_0000_0000, 5_000_000);
            lemma_div_is_ordered(0, n, 5_000_000);
        } else {
            lemma_div_is_ordered(-n, 0x4000_0000_0000_0000_0000_0000_0000_0000, 5_000_000);
            lemma_div_is_ordered(0, -n, 5_000_000);
        }
        assert(0x4000_0000_0000_0000_0000_0000_0000_0000int / 5_000_000int <= 0x100_0000_0000_0000_0000_0000_0000);
    }
    let q = div_toward_zero(amount as i128 * target as i128, 5 * UNIT as i128);
    -q
}

fn zoom_value(cam: &PanOrbitCamera, value: Option<i64>, pd: i128) -> (r: Option<i64>)
    requires
        -0x100_0000_0000_0000_0000_0000_0000 <= pd <= 0x100_0000_0000_0000_0000_0000_0000,
    ensures
        r == match value {
            Some(v) => Some(zoom_limited(sat(v + pd), cam.zoom_upper_limit, cam.zoom_lower_limit) as i64),
            None => None::<i64>,
        },
        r is Some ==> r.unwrap() >= ZOOM_FLOOR,
{
    match value {
        Some(v) => Some(cam.apply_zoom_limits(saturate(v as i128 + pd))),
        None => None,
    }
}

/// Zooms by the line and pixel scroll amounts (see [`zoomed`]).
pub fn apply_zoom(cam: &mut PanOrbitCamera, line: i64, pixel: i64, orthographic: bool)
    ensures
        *final(cam) == zoomed(*old(cam), line as int, pixel as int, orthographic),
        old(cam).wf() ==> final(cam).wf(),
{
    if orthographic {
        let t = cam.target_scale;
        let pd = zoom_delta_exec(pixel, t);
        let ld = zoom_delta_exec(line, t);
        cam.scale = zoom_value(cam, cam.scale, pd);
        cam.target_scale = saturate(t as i128 + ld + pd);
    } else {
        let t = cam.target_radius;
        let pd = zoom_delta_exec(pixel, t);
        let ld = zoom_delta_exec(line, t);
        cam.radius = zoom_value(cam, cam.radius, pd);
        cam.target_radius = saturate(t as i128 + ld + pd);
    }
}

} // verus!
