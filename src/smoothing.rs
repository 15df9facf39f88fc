use vstd::prelude::*;
use crate::fixed::{UNIT, Vector3};

verus! {

/// Distance below which an interpolated value snaps onto its target.
pub const SNAP_EPSILON: i64 = 10;

/// Whether `smoothness` is a valid smoothing factor: from 0 (no smoothing) up to
/// one whole unit (no movement at all).
pub open spec fn valid_smoothness(smoothness: i64) -> bool {
    0 <= smoothness <= UNIT
}

/// The absolute value of `v`.
pub open spec fn abs_int(v: int) -> int {
    if v < 0 { -v } else { v }
}

/// The distance covered by one step: the fraction `1 - smoothness` of the
/// remaining distance, rounded up so that a step never stalls short of the
/// target while any fraction is left.
pub open spec fn step_len(from: int, to: int, smoothness: int) -> int {
    (abs_int(to - from) * (UNIT - smoothness) + (UNIT - 1)) / (UNIT as int)
}

/// One interpolation step from `from` toward `to`, snapped onto `to` once it is
/// closer than [`SNAP_EPSILON`].
pub open spec fn lerp_snap(from: int, to: int, smoothness: int) -> int {
    let len = step_len(from, to, smoothness);
    let moved = if from <= to { from + len } else { from - len };
    if abs_int(to - moved) < SNAP_EPSILON { to } else { moved }
}

/// `n` interpolation steps from `from` toward a fixed `to`.
pub open spec fn lerp_snap_iter(from: int, to: int, smoothness: int, n: nat) -> int
    decreases n,
{
    if n == 0 {
        from
    } else {
        lerp_snap_iter(lerp_snap(from, to, smoothness), to, smoothness, (n - 1) as nat)
    }
}

proof fn lemma_step_len_bounds(from: int, to: int, smoothness: int)
    requires
        0 <= smoothness <= UNIT,
    ensures
        0 <= step_len(from, to, smoothness) <= abs_int(to - from),
        smoothness < UNIT && from != to ==> step_len(from, to, smoothness) >= 1,
        smoothness == 0 ==> step_len(from, to, smoothness) == abs_int(to - from),
{
    let d = abs_int(to - from);
    let t = UNIT - smoothness;
    assert(0 <= d * t <= d * UNIT) by (nonlinear_arith)
        requires
            0 <= t <= UNIT,
            d >= 0,
    ;
    assert((d * t + (UNIT - 1)) / (UNIT as int) <= d) by (nonlinear_arith)
        requires
            d * t <= d * UNIT,
            UNIT == 1_000_000,
    ;
    assert(d >= 1 && t >= 1 ==> d * t >= 1) by (nonlinear_arith);
    if smoothness == 0 {
        assert((d * UNIT + (UNIT - 1)) / (UNIT as int) == d) by (nonlinear_arith)
            requires
                UNIT == 1_000_000,
                d >= 0,
        ;
    }
}

/// One interpolation step lands between the current value and the target, both
/// included: it never overshoots.
pub proof fn lerp_snap_between(from: int, to: int, smoothness: int)
    requires
        0 <= smoothness <= UNIT,
    ensures
        from <= to ==> from <= lerp_snap(from, to, smoothness) <= to,
        to <= from ==> to <= lerp_snap(from, to, smoothness) <= from,
{
    lemma_step_len_bounds(from, to, smoothness);
}

/// A step never moves away from the target, moves strictly closer while the
/// target is not reached (for a smoothness below one unit), and stays on the
/// target once there.
pub proof fn lerp_snap_progress(from: int, to: int, smoothness: int)
    requires
        0 <= smoothness < UNIT,
    ensures
        abs_int(to - lerp_snap(from, to, smoothness)) <= abs_int(to - from),
        from != to ==> abs_int(to - lerp_snap(from, to, smoothness)) < abs_int(to - from),
        from == to ==> lerp_snap(from, to, smoothness) == to,
{
    lemma_step_len_bounds(from, to, smoothness);
}

/// With no smoothing the value jumps onto its target at once.
pub proof fn lerp_snap_no_smoothing(from: int, to: int)
    ensures
        lerp_snap(from, to, 0) == to,
{
    lemma_step_len_bounds(from, to, 0);
}

/// Repeated steps toward a fixed target with a smoothness below one unit reach
/// the target exactly within as many steps as the starting distance counts
/// millionths, stay there, and never overshoot along the way.
pub proof fn lerp_snap_converges(from: int, to: int, smoothness: int, n: nat)
    requires
        0 <= smoothness < UNIT,
        n >= abs_int(to - from),
    ensures
        lerp_snap_iter(from, to, smoothness, n) == to,
    decreases n,
{
    if n > 0 {
        lemma_step_len_bounds(from, to, smoothness);
        let next = lerp_snap(from, to, smoothness);
        assert(abs_int(to - next) <= abs_int(to - from) - 1 || next == to);
        lerp_snap_converges(next, to, smoothness, (n - 1) as nat);
    }
}

/// Every intermediate value of repeated steps stays between the starting value
/// and the target.
pub proof fn lerp_snap_iter_between(from: int, to: int, smoothness: int, n: nat)
    requires
        0 <= smoothness <= UNIT,
    ensures
        from <= to ==> from <= lerp_snap_iter(from, to, smoothness, n) <= to,
        to <= from ==> to <= lerp_snap_iter(from, to, smoothness, n) <= from,
    decreases n,
{
    if n > 0 {
        lerp_snap_between(from, to, smoothness);
        lerp_snap_iter_between(lerp_snap(from, to, smoothness), to, smoothness, (n - 1) as nat);
    }
}

/// Moves `from` one smoothing step toward `to` (see [`lerp_snap`]).
pub fn lerp_and_snap(from: i64, to: i64, smoothness: i64) -> (r: i64)
    requires
        valid_smoothness(smoothness),
    ensures
        r == lerp_snap(from as int, to as int, smoothness as int),
{
    proof {
        lemma_step_len_bounds(from as int, to as int, smoothness as int);
    }
    let d: i128 = (to as i128) - (from as i128);
    let dist: i128 = if d < 0 { -d } else { d };
    let t: i128 = (UNIT as i128) - (smoothness as i128);
    assert(0 <= dist * t <= dist * (UNIT as i128)) by (nonlinear_arith)
        requires
            0 <= t <= UNIT,
            dist >= 0,
    ;
    assert(dist * (UNIT as i128) <= 0x1_0000_0000_0000_0000 * 1_000_000) by (nonlinear_arith)
        requires
            0 <= dist <= 0x1_0000_0000_0000_0000,
    ;
    let len: i128 = (dist * t + (UNIT as i128 - 1)) / (UNIT as i128);
    let moved: i128 = if from <= to { from as i128 + len } else { from as i128 - len };
    let rest: i128 = (to as i128) - moved;
    let rest_abs: i128 = if rest < 0 { -rest } else { rest };
    if rest_abs < SNAP_EPSILON as i128 {
        to
    } else {
        moved as i64
    }
}

/// Component-wise [`lerp_snap`] of a vector.
pub open spec fn lerp_snap_vec3(from: Vector3, to: Vector3, smoothness: int) -> (int, int, int) {
    (
        lerp_snap(from.x as int, to.x as int, smoothness),
        lerp_snap(from.y as int, to.y as int, smoothness),
        lerp_snap(from.z as int, to.z as int, smoothness),
    )
}

/// Moves each component of `from` one smoothing step toward `to`.
pub fn lerp_and_snap_vec3(from: Vector3, to: Vector3, smoothness: i64) -> (r: Vector3)
    requires
        valid_smoothness(smoothness),
    ensures
        (r.x as int, r.y as int, r.z as int) == lerp_snap_vec3(from, to, smoothness as int),
{
    Vector3 {
        x: lerp_and_snap(from.x, to.x, smoothness),
        y: lerp_and_snap(from.y, to.y, smoothness),
        z: lerp_and_snap(from.z, to.z, smoothness),
    }
}

} // verus!
