use vstd::prelude::*;
use crate::camera::PanOrbitCamera;
use crate::fixed::{acc_sat, acc_sat_step, add_sat, mul_fixed, mul_fx, sat, saturate, Vector2};
use crate::input::{binding_in, FrameInput, ScrollEvent, ScrollUnit};

verus! {

/// What one frame's input asks of a camera, before it is applied.
#[derive(Clone, Copy, Debug, PartialEq, Eq, Structural)]
pub struct FrameDeltas {
    /// Pointer movement to pan by, in pixels.
    pub pan: Vector2,
    /// Pointer movement to orbit by, in pixels.
    pub rotation: Vector2,
    /// Line-scroll zoom amount.
    pub scroll_line: i64,
    /// Pixel-scroll (touchpad) zoom amount.
    pub scroll_pixel: i64,
    /// Whether the orbit binding was pressed or released this frame.
    pub orbit_button_changed: bool,
}

/// The zoom amount of a scroll event: its `y` scaled by the zoom sensitivity,
/// negated for reversed zoom; none for a pixel event.
pub open spec fn line_amount(e: ScrollEvent, sensitivity: int, reversed: bool) -> int {
    match e.unit {
        ScrollUnit::Line => if reversed { -mul_fx(e.y as int, sensitivity) } else { mul_fx(e.y as int, sensitivity) },
        ScrollUnit::Pixel => 0,
    }
}

/// The horizontal movement of a pixel scroll event, scaled; none for a line event.
pub open spec fn pixel_x(e: ScrollEvent, sensitivity: int) -> int {
    match e.unit {
        ScrollUnit::Line => 0,
        ScrollUnit::Pixel => mul_fx(e.x as int, sensitivity),
    }
}

/// The vertical movement of a pixel scroll event, scaled; none for a line event.
pub open spec fn pixel_y(e: ScrollEvent, sensitivity: int) -> int {
    match e.unit {
        ScrollUnit::Line => 0,
        ScrollUnit::Pixel => mul_fx(e.y as int, sensitivity),
    }
}

pub open spec fn line_amounts(evs: Seq<ScrollEvent>, sensitivity: int, reversed: bool) -> Seq<int> {
    evs.map_values(|e: ScrollEvent| line_amount(e, sensitivity, reversed))
}

pub open spec fn pixel_xs(evs: Seq<ScrollEvent>, sensitivity: int) -> Seq<int> {
    evs.map_values(|e: ScrollEvent| pixel_x(e, sensitivity))
}

pub open spec fn pixel_ys(evs: Seq<ScrollEvent>, sensitivity: int) -> Seq<int> {
    evs.map_values(|e: ScrollEvent| pixel_y(e, sensitivity))
}

/// Magnify amounts scaled by twice the zoom sensitivity.
pub open spec fn magnify_amounts(evs: Seq<i64>, sensitivity: int) -> Seq<int> {
    evs.map_values(|a: i64| sat(2 * mul_fx(a as int, sensitivity)))
}

/// Rotate angles scaled by three times the orbit sensitivity.
pub open spec fn rotate_amounts(evs: Seq<i64>, sensitivity: int) -> Seq<int> {
    evs.map_values(|a: i64| sat(3 * mul_fx(a as int, sensitivity)))
}

/// The deltas a camera takes from a frame's input. When input is not accepted
/// (a user interface holds the pointer, the camera is disabled or not the
/// active one) every delta is zero. Otherwise pointer motion orbits while the
/// orbit binding is held, else pans while the pan binding is held; line scrolls
/// zoom; pixel scrolls orbit while the touchpad modifier is held, else pan;
/// magnify gestures zoom and rotate gestures orbit horizontally.
pub open spec fn gathered(cam: PanOrbitCamera, input: FrameInput, accepting: bool) -> FrameDeltas {
    if !accepting {
        FrameDeltas {
            pan: Vector2 { x: 0, y: 0 },
            rotation: Vector2 { x: 0, y: 0 },
            scroll_line: 0,
            scroll_pixel: 0,
            orbit_button_changed: false,
        }
    } else {
        let keys = input.pressed_keys@;
        let orbiting = binding_in(cam.button_orbit, cam.modifier_orbit, input.pressed_buttons@, keys);
        let panning = !orbiting && binding_in(cam.button_pan, cam.modifier_pan, input.pressed_buttons@, keys);
        let d = input.mouse_delta;
        let rot0x = if orbiting { mul_fx(d.x as int, cam.orbit_sensitivity as int) } else { 0 };
        let rot0y = if orbiting { mul_fx(d.y as int, cam.orbit_sensitivity as int) } else { 0 };
        let pan0x = if panning { mul_fx(d.x as int, cam.pan_sensitivity as int) } else { 0 };
        let pan0y = if panning { mul_fx(d.y as int, cam.pan_sensitivity as int) } else { 0 };
        let evs = input.scroll_events@;
        let touch_orbit = cam.modifier_orbit_touchpad is Some && keys.contains(cam.modifier_orbit_touchpad.unwrap());
        let rot1x = if touch_orbit { acc_sat(rot0x, pixel_xs(evs, cam.orbit_sensitivity as int)) } else { rot0x };
        let rot1y = if touch_orbit { acc_sat(rot0y, pixel_ys(evs, cam.orbit_sensitivity as int)) } else { rot0y };
        let pan1x = if touch_orbit { pan0x } else { acc_sat(pan0x, pixel_xs(evs, cam.pan_sensitivity as int)) };
        let pan1y = if touch_orbit { pan0y } else { acc_sat(pan0y, pixel_ys(evs, cam.pan_sensitivity as int)) };
        FrameDeltas {
            pan: Vector2 { x: pan1x as i64, y: pan1y as i64 },
            rotation: Vector2 {
                x: acc_sat(rot1x, rotate_amounts(input.rotate_events@, cam.orbit_sensitivity as int)) as i64,
                y: rot1y as i64,
            },
            scroll_line: acc_sat(0, line_amounts(evs, cam.zoom_sensitivity as int, cam.reversed_zoom)) as i64,
            scroll_pixel: acc_sat(0, magnify_amounts(input.magnify_events@, cam.zoom_sensitivity as int)) as i64,
            orbit_button_changed: binding_in(cam.button_orbit, cam.modifier_orbit, input.just_pressed_buttons@, keys)
                || binding_in(cam.button_orbit, cam.modifier_orbit, input.just_released_buttons@, keys),
        }
    }
}

/// Collects the deltas of one frame's input for `cam` (see [`gathered`]).
/// `accepting` says whether the camera takes input this frame.
pub fn gather_input(cam: &PanOrbitCamera, input: &FrameInput, accepting: bool) -> (r: FrameDeltas)
    ensures
        r == gathered(*cam, *input, accepting),
{
    if !accepting {
        return FrameDeltas {
            pan: Vector2::zero(),
            rotation: Vector2::zero(),
            scroll_line: 0,
            scroll_pixel: 0,
            orbit_button_changed: false,
        };
    }
    let orbiting = cam.orbit_pressed(input);
    let panning = !orbiting && cam.pan_pressed(input);
    let d = input.mouse_delta;
    let mut rx: i64 = 0;
    let mut ry: i64 = 0;
    let mut px: i64 = 0;
    let mut py: i64 = 0;
    if orbiting {
        rx = mul_fixed(d.x, cam.orbit_sensitivity);
        ry = mul_fixed(d.y, cam.orbit_sensitivity);
    } else if panning {
        px = mul_fixed(d.x, cam.pan_sensitivity);
        py = mul_fixed(d.y, cam.pan_sensitivity);
    }
    let touch_orbit = cam.touchpad_orbits(input);
    let ghost rx0 = rx as int;
    let ghost ry0 = ry as int;
    let ghost px0 = px as int;
    let ghost py0 = py as int;
    let ghost evs = input.scroll_events@;
    let ghost lines = line_amounts(evs, cam.zoom_sensitivity as int, cam.reversed_zoom);
    let ghost oxs = pixel_xs(evs, cam.orbit_sensitivity as int);
    let ghost oys = pixel_ys(evs, cam.orbit_sensitivity as int);
    let ghost pxs = pixel_xs(evs, cam.pan_sensitivity as int);
    let ghost pys = pixel_ys(evs, cam.pan_sensitivity as int);
    let mut line: i64 = 0;
    let mut i: usize = 0;
    while i < input.scroll_events.len()
        invariant
            i <= input.scroll_events.len(),
            evs == input.scroll_events@,
            lines == line_amounts(evs, cam.zoom_sensitivity as int, cam.reversed_zoom),
            oxs == pixel_xs(evs, cam.orbit_sensitivity as int),
            oys == pixel_ys(evs, cam.orbit_sensitivity as int),
            pxs == pixel_xs(evs, cam.pan_sensitivity as int),
            pys == pixel_ys(evs, cam.pan_sensitivity as int),
            line == acc_sat(0, lines.take(i as int)),
            touch_orbit ==> rx == acc_sat(rx0, oxs.take(i as int)) && ry == acc_sat(ry0, oys.take(i as int))
                && px == px0 && py == py0,
            !touch_orbit ==> px == acc_sat(px0, pxs.take(i as int)) && py == acc_sat(py0, pys.take(i as int))
                && rx == rx0 && ry == ry0,
        decreases input.scroll_events.len() - i,
    {
        let ev = input.scroll_events[i];
        proof {
            acc_sat_step(0, lines, i as int);
            acc_sat_step(rx0, oxs, i as int);
            acc_sat_step(ry0, oys, i as int);
            acc_sat_step(px0, pxs, i as int);
            acc_sat_step(py0, pys, i as int);
        }
        match ev.unit {
            ScrollUnit::Line => {
                let amount = mul_fixed(ev.y, cam.zoom_sensitivity);
                let signed: i128 = if cam.reversed_zoom { -(amount as i128) } else { amount as i128 };
                line = saturate(line as i128 + signed);
                assert(rx == sat(rx + oxs[i as int]));
                assert(ry == sat(ry + oys[i as int]));
                assert(px == sat(px + pxs[i as int]));
                assert(py == sat(py + pys[i as int]));
            },
            ScrollUnit::Pixel => {
                assert(line == sat(line + lines[i as int]));
                if touch_orbit {
                    rx = add_sat(rx, mul_fixed(ev.x, cam.orbit_sensitivity));
                    ry = add_sat(ry, mul_fixed(ev.y, cam.orbit_sensitivity));
                } else {
                    px = add_sat(px, mul_fixed(ev.x, cam.pan_sensitivity));
                    py = add_sat(py, mul_fixed(ev.y, cam.pan_sensitivity));
                }
            },
        }
        i = i + 1;
    }
    assert(lines.take(input.scroll_events.len() as int) =~= lines);
    assert(oxs.take(input.scroll_events.len() as int) =~= oxs);
    assert(oys.take(input.scroll_events.len() as int) =~= oys);
    assert(pxs.take(input.scroll_events.len() as int) =~= pxs);
    assert(pys.take(input.scroll_events.len() as int) =~= pys);
    let ghost mags = magnify_amounts(input.magnify_events@, cam.zoom_sensitivity as int);
    let mut pixel: i64 = 0;
    let mut j: usize = 0;
    while j < input.magnify_events.len()
        invariant
            j <= input.magnify_events.len(),
            mags == magnify_amounts(input.magnify_events@, cam.zoom_sensitivity as int),
            pixel == acc_sat(0, mags.take(j as int)),
        decreases input.magnify_events.len() - j,
    {
        proof {
            acc_sat_step(0, mags, j as int);
        }
        let amount = mul_fixed(input.magnify_events[j], cam.zoom_sensitivity);
        pixel = add_sat(pixel, saturate(2 * (amount as i128)));
        j = j + 1;
    }
    assert(mags.take(input.magnify_events.len() as int) =~= mags);
    let ghost rx1 = rx as int;
    let ghost rots = rotate_amounts(input.rotate_events@, cam.orbit_sensitivity as int);
    let mut k: usize = 0;
    while k < input.rotate_events.len()
        invariant
            k <= input.rotate_events.len(),
            rots == rotate_amounts(input.rotate_events@, cam.orbit_sensitivity as int),
            rx == acc_sat(rx1, rots.take(k as int)),
        decreases input.rotate_events.len() - k,
    {
        proof {
            acc_sat_step(rx1, rots, k as int);
        }
        let amount = mul_fixed(input.rotate_events[k], cam.orbit_sensitivity);
        rx = add_sat(rx, saturate(3 * (amount as i128)));
        k = k + 1;
    }
    assert(rots.take(input.rotate_events.len() as int) =~= rots);
    let changed = cam.orbit_just_pressed(input) || cam.orbit_just_released(input);
    FrameDeltas {
        pan: Vector2 { x: px, y: py },
        rotation: Vector2 { x: rx, y: ry },
        scroll_line: line,
        scroll_pixel: pixel,
        orbit_button_changed: changed,
    }
}

} // verus!
