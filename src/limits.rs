use vstd::prelude::*;

verus! {

/// The hard floor of a zoom value (radius or orthographic scale): 0.05.
pub const ZOOM_FLOOR: i64 = 50_000;

/// `value` raised to `lower` if it is below it, then lowered to `upper` if it is
/// above it. An inverted pair therefore collapses to `upper`.
pub open spec fn limited(value: int, upper: Option<i64>, lower: Option<i64>) -> int {
    let raised = match lower {
        Some(l) => if value < l { l as int } else { value },
        None => value,
    };
    match upper {
        Some(u) => if raised > u { u as int } else { raised },
        None => raised,
    }
}

/// A zoom value after its limits and the hard floor.
pub open spec fn zoom_limited(value: int, upper: Option<i64>, lower: Option<i64>) -> int {
    let l = limited(value, upper, lower);
    if l < ZOOM_FLOOR { ZOOM_FLOOR as int } else { l }
}

/// Clamps `value` to the optional limits, the lower one first.
pub fn apply_limits(value: i64, upper: Option<i64>, lower: Option<i64>) -> (r: i64)
    ensures
        r == limited(value as int, upper, lower),
{
    let mut v = value;
    if let Some(l) = lower {
        if v < l {
            v = l;
        }
    }
    if let Some(u) = upper {
        if v > u {
            v = u;
        }
    }
    v
}

/// Clamps a zoom value to its limits, and never below [`ZOOM_FLOOR`].
pub fn apply_zoom_limits(value: i64, upper: Option<i64>, lower: Option<i64>) -> (r: i64)
    ensures
        r == zoom_limited(value as int, upper, lower),
        r >= ZOOM_FLOOR,
{
    let v = apply_limits(value, upper, lower);
    if v < ZOOM_FLOOR {
        ZOOM_FLOOR
    } else {
        v
    }
}

/// A zoom value that has been through its limits is never below the hard floor,
/// whatever the configured limits are, even an inverted pair or a negative lower
/// limit.
pub proof fn zoom_floor_holds(value: int, upper: Option<i64>, lower: Option<i64>)
    ensures
        zoom_limited(value, upper, lower) >= ZOOM_FLOOR,
{
}

} // verus!
