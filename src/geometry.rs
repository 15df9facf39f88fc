use vstd::prelude::*;
use crate::fixed::{div_trunc, sat, saturate, UNIT};

verus! {

/// The integer square root, halving the problem on each step.
pub open spec fn isqrt(n: nat) -> nat
    decreases n,
{
    if n == 0 {
        0
    } else {
        let r = 2 * isqrt(n / 4);
        if (r + 1) * (r + 1) <= n { (r + 1) as nat } else { r }
    }
}

/// The integer square root is a lower square root.
pub proof fn isqrt_below(n: nat)
    ensures
        isqrt(n) * isqrt(n) <= n,
    decreases n,
{
    if n == 0 {
        assert(isqrt(n) == 0);
    } else {
        isqrt_below(n / 4);
        let r0 = isqrt(n / 4);
        let q = n / 4;
        assert(4 * q <= n);
        assert((2 * r0) * (2 * r0) <= n) by (nonlinear_arith)
            requires
                r0 * r0 <= q,
                4 * q <= n,
        ;
        let r = 2 * r0;
        if (r + 1) * (r + 1) <= n {
            let v = isqrt(n);
            assert(v == r + 1);
            assert(v * v == (r + 1) * (r + 1));
            assert(v * v <= n);
        } else {
            let v = isqrt(n);
            assert(v == r);
            assert(v * v == r * r);
            assert(r * r <= n);
            assert(v * v <= n);
        }
    }
}

/// Integer square root of `n` (see [`isqrt`]).
pub fn isqrt_u128(n: u128) -> (r: u128)
    requires
        n < 0x1000_0000_0000_0000_0000_0000_0000_0000,
    ensures
        r == isqrt(n as nat),
        r * r <= n,
    decreases n,
{
    proof {
        isqrt_below(n as nat);
    }
    if n == 0 {
        0
    } else {
        let r0 = isqrt_u128(n / 4);
        assert(r0 <= 0x2000_0000_0000_0000) by (nonlinear_arith)
            requires
                r0 * r0 <= n / 4,
                n < 0x1000_0000_0000_0000_0000_0000_0000_0000,
        ;
        let r = 2 * r0;
        assert((r + 1) * (r + 1) <= 0x4000_0000_0000_0001 * 0x4000_0000_0000_0001) by (nonlinear_arith)
            requires
                0 <= r <= 0x4000_0000_0000_0000,
        ;
        if (r + 1) * (r + 1) <= n {
            r + 1
        } else {
            r
        }
    }
}

pub open spec fn abs3_max(d: (int, int, int)) -> int {
    let a = if d.0 < 0 { -d.0 } else { d.0 };
    let b = if d.1 < 0 { -d.1 } else { d.1 };
    let c = if d.2 < 0 { -d.2 } else { d.2 };
    if a >= b && a >= c { a } else if b >= c { b } else { c }
}

/// Bound under which the squared length of a vector is computed exactly.
pub open spec fn wide_bound() -> int {
    0x2000_0000_0000_0000
}

/// `d`, divided by 16 when a component is too large to square safely.
pub open spec fn shrunk(d: (int, int, int)) -> (int, int, int) {
    if abs3_max(d) > wide_bound() {
        (div_trunc(d.0, 16), div_trunc(d.1, 16), div_trunc(d.2, 16))
    } else {
        d
    }
}

/// `d` scaled to unit length (one whole [`UNIT`]), or zero for a zero vector.
pub open spec fn normalized(d: (int, int, int)) -> (int, int, int) {
    let s = shrunk(d);
    let len = isqrt((s.0 * s.0 + s.1 * s.1 + s.2 * s.2) as nat);
    if len == 0 {
        (0, 0, 0)
    } else {
        (
            sat(div_trunc(s.0 * UNIT, len as int)),
            sat(div_trunc(s.1 * UNIT, len as int)),
            sat(div_trunc(s.2 * UNIT, len as int)),
        )
    }
}

fn shrink(v: i128) -> (r: i128)
    requires
        -0x2_0000_0000_0000_0000 <= v <= 0x2_0000_0000_0000_0000,
    ensures
        r == div_trunc(v as int, 16),
        -wide_bound() <= r <= wide_bound(),
{
    if v >= 0 { v / 16 } else { -((-v) / 16) }
}

fn scaled_component(v: i128, len: u128) -> (r: i64)
    requires
        -wide_bound() <= v <= wide_bound(),
        len > 0,
        len < 0x1_0000_0000_0000_0000,
    ensures
        r == sat(div_trunc(v * UNIT, len as int)),
{
    let p: i128 = v * (UNIT as i128);
    let l: i128 = len as i128;
    let q: i128 = if p >= 0 { p / l } else { -((-p) / l) };
    saturate(q)
}

/// The unit vector along `(x, y, z)`, or zero (see [`normalized`]). Each
/// component may be as large as a difference of two `i64` values.
pub fn normalize_or_zero(x: i128, y: i128, z: i128) -> (r: (i64, i64, i64))
    requires
        -0x2_0000_0000_0000_0000 <= x <= 0x2_0000_0000_0000_0000,
        -0x2_0000_0000_0000_0000 <= y <= 0x2_0000_0000_0000_0000,
        -0x2_0000_0000_0000_0000 <= z <= 0x2_0000_0000_0000_0000,
    ensures
        (r.0 as int, r.1 as int, r.2 as int) == normalized((x as int, y as int, z as int)),
{
    let ax: i128 = if x < 0 { -x } else { x };
    let ay: i128 = if y < 0 { -y } else { y };
    let az: i128 = if z < 0 { -z } else { z };
    let m: i128 = if ax >= ay && ax >= az { ax } else if ay >= az { ay } else { az };
    let (sx, sy, sz) = if m > 0x2000_0000_0000_0000 {
        (shrink(x), shrink(y), shrink(z))
    } else {
        (x, y, z)
    };
    assert(m <= wide_bound() ==> -wide_bound() <= x <= wide_bound() && -wide_bound() <= y <= wide_bound()
        && -wide_bound() <= z <= wide_bound());
    assert(-wide_bound() <= sx <= wide_bound());
    assert(-wide_bound() <= sy <= wide_bound());
    assert(-wide_bound() <= sz <= wide_bound());
    assert(0 <= sx * sx <= 0x400_0000_0000_0000_0000_0000_0000_0000) by (nonlinear_arith)
        requires
            -0x2000_0000_0000_0000 <= sx <= 0x2000_0000_0000_0000,
    ;
    assert(0 <= sy * sy <= 0x400_0000_0000_0000_0000_0000_0000_0000) by (nonlinear_arith)
        requires
            -0x2000_0000_0000_0000 <= sy <= 0x2000_0000_0000_0000,
    ;
    assert(0 <= sz * sz <= 0x400_0000_0000_0000_0000_0000_0000_0000) by (nonlinear_arith)
        requires
            -0x2000_0000_0000_0000 <= sz <= 0x2000_0000_0000_0000,
    ;
    let n: i128 = sx * sx + sy * sy + sz * sz;
    let len = isqrt_u128(n as u128);
    assert(len < 0x1_0000_0000_0000_0000) by (nonlinear_arith)
        requires
            len * len <= n,
            n < 0x1000_0000_0000_0000_0000_0000_0000_0000,
    ;
    if len == 0 {
        (0, 0, 0)
    } else {
        (scaled_component(sx, len), scaled_component(sy, len), scaled_component(sz, len))
    }
}

} // verus!
