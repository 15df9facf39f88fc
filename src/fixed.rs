use vstd::prelude::*;

verus! {

/// One whole unit (one world unit, one radian, one logical pixel, a factor of 1)
/// expressed in the fixed-point representation used throughout the crate.
pub const UNIT: i64 = 1_000_000;

/// A full turn in millionths of a radian (2π, rounded).
pub const TAU: i64 = 6_283_185;

/// Half a turn in millionths of a radian (π, rounded).
pub const PI: i64 = 3_141_593;

/// The largest value that [`saturate`] keeps.
pub open spec fn max_i64() -> int {
    i64::MAX as int
}

/// The smallest value that [`saturate`] keeps.
pub open spec fn min_i64() -> int {
    i64::MIN as int
}

/// `v` brought into the range of `i64` by saturation.
pub open spec fn sat(v: int) -> int {
    if v > max_i64() {
        max_i64()
    } else if v < min_i64() {
        min_i64()
    } else {
        v
    }
}

/// Narrows a wide intermediate value to `i64`, saturating at the ends of its range.
pub fn saturate(v: i128) -> (r: i64)
    ensures
        r == sat(v as int),
{
    if v > i64::MAX as i128 {
        i64::MAX
    } else if v < i64::MIN as i128 {
        i64::MIN
    } else {
        v as i64
    }
}

/// `n / d` rounded toward zero, as integer division does in executable code.
pub open spec fn div_trunc(n: int, d: int) -> int {
    if n >= 0 { n / d } else { -((-n) / d) }
}

/// The product of two `i64` values fits well within `i128`.
pub proof fn lemma_mul_i64(a: int, b: int)
    requires
        i64::MIN <= a <= i64::MAX,
        i64::MIN <= b <= i64::MAX,
    ensures
        -0x4000_0000_0000_0000_0000_0000_0000_0000 <= a * b <= 0x4000_0000_0000_0000_0000_0000_0000_0000,
{
    assert(-0x4000_0000_0000_0000_0000_0000_0000_0000 <= a * b <= 0x4000_0000_0000_0000_0000_0000_0000_0000)
        by (nonlinear_arith)
        requires
            i64::MIN <= a <= i64::MAX,
            i64::MIN <= b <= i64::MAX,
    ;
}

/// `n / d` rounded toward zero, for a positive divisor.
pub fn div_toward_zero(n: i128, d: i128) -> (r: i128)
    requires
        d > 0,
        n > i128::MIN,
    ensures
        r == div_trunc(n as int, d as int),
{
    if n >= 0 { n / d } else { -((-n) / d) }
}

/// Fixed-point product `a * b / UNIT`, rounded toward zero and saturated.
pub open spec fn mul_fx(a: int, b: int) -> int {
    sat(div_trunc(a * b, UNIT as int))
}

/// Fixed-point product of two values, rounded toward zero and saturated.
pub fn mul_fixed(a: i64, b: i64) -> (r: i64)
    ensures
        r == mul_fx(a as int, b as int),
{
    assert(-0x4000_0000_0000_0000_0000_0000_0000_0000 <= (a as int) * (b as int)
        <= 0x4000_0000_0000_0000_0000_0000_0000_0000) by (nonlinear_arith)
        requires
            i64::MIN <= a <= i64::MAX,
            i64::MIN <= b <= i64::MAX,
    ;
    let p: i128 = (a as i128) * (b as i128);
    saturate(p / (UNIT as i128))
}

/// `init` with each of `vals` added in order, saturating after every addition.
pub open spec fn acc_sat(init: int, vals: Seq<int>) -> int
    decreases vals.len(),
{
    if vals.len() == 0 {
        init
    } else {
        sat(acc_sat(init, vals.drop_last()) + vals.last())
    }
}

/// One more element of a saturating accumulation.
pub proof fn acc_sat_step(init: int, vals: Seq<int>, i: int)
    requires
        0 <= i < vals.len(),
    ensures
        acc_sat(init, vals.take(i + 1)) == sat(acc_sat(init, vals.take(i)) + vals[i]),
{
    assert(vals.take(i + 1).drop_last() =~= vals.take(i));
}

/// Adding only zeros leaves a value in range unchanged.
pub proof fn acc_sat_zeros(init: int, vals: Seq<int>)
    requires
        min_i64() <= init <= max_i64(),
        forall|i: int| 0 <= i < vals.len() ==> vals[i] == 0,
    ensures
        acc_sat(init, vals) == init,
    decreases vals.len(),
{
    if vals.len() > 0 {
        acc_sat_zeros(init, vals.drop_last());
    }
}

/// Saturating addition of two fixed-point values.
pub fn add_sat(a: i64, b: i64) -> (r: i64)
    ensures
        r == sat(a + b),
{
    saturate(a as i128 + b as i128)
}

/// A two-dimensional fixed-point vector (a pointer delta, a size, a position).
#[derive(Clone, Copy, Debug, PartialEq, Eq, Structural)]
pub struct Vector2 {
    pub x: i64,
    pub y: i64,
}

/// A three-dimensional fixed-point vector (a focus point, an axis).
#[derive(Clone, Copy, Debug, PartialEq, Eq, Structural)]
pub struct Vector3 {
    pub x: i64,
    pub y: i64,
    pub z: i64,
}

impl Vector2 {
    /// The zero vector.
    pub fn zero() -> (r: Vector2)
        ensures
            r.x == 0 && r.y == 0,
    {
        Vector2 { x: 0, y: 0 }
    }

    /// Whether this vector has a non-zero component.
    pub fn is_nonzero(&self) -> (r: bool)
        ensures
            r == (self.x != 0 || self.y != 0),
    {
        self.x != 0 || self.y != 0
    }
}

} // verus!
