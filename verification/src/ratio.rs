//! Progress ratios and the integer interpolation that every scaled quantity goes through.

use vstd::prelude::*;

verus! {

/// Number of parts that make up a whole: a ratio of `RATIO_ONE` parts stands for 1.
pub const RATIO_ONE: i32 = 65536;

/// Normalized progress within one reveal step, counted in parts of [`RATIO_ONE`].
///
/// Progress is expected between zero and one, but every value is accepted: a ratio below
/// zero or above one extrapolates, and results that leave the 32-bit range saturate.
#[derive(Clone, Copy, Debug, PartialEq, Eq, Structural)]
pub struct Ratio {
    pub parts: i32,
}

/// `value` brought into the range of `i32`.
pub open spec fn saturated(value: int) -> int {
    if value < i32::MIN {
        i32::MIN as int
    } else if value > i32::MAX {
        i32::MAX as int
    } else {
        value
    }
}

/// The quantity that lies `parts / RATIO_ONE` of the way from `from` to `to`,
/// rounded down to a whole unit and saturated to 32 bits.
pub open spec fn interpolated(from: int, to: int, parts: int) -> int {
    saturated(from + (to - from) * parts / (RATIO_ONE as int))
}

/// `n / RATIO_ONE`, rounded toward negative infinity.
fn floor_whole(n: i64) -> (q: i64)
    ensures
        q == n as int / (RATIO_ONE as int),
{
    if n >= 0 {
        n / 65536
    } else {
        let m: i64 = -(n + 1);
        -(m / 65536) - 1
    }
}

impl Ratio {
    /// No progress.
    pub fn zero() -> (r: Ratio)
        ensures
            r.parts == 0,
    {
        Ratio { parts: 0 }
    }

    /// Full progress.
    pub fn one() -> (r: Ratio)
        ensures
            r.parts == RATIO_ONE,
    {
        Ratio { parts: RATIO_ONE }
    }

    /// The ratio of `parts` parts in [`RATIO_ONE`].
    pub fn from_parts(parts: i32) -> (r: Ratio)
        ensures
            r.parts == parts,
    {
        Ratio { parts }
    }

    /// Interpolates between two quantities: `from + (to - from) * ratio`.
    pub fn lerp(self, from: i32, to: i32) -> (r: i32)
        ensures
            r == interpolated(from as int, to as int, self.parts as int),
    {
        let delta: i64 = to as i64 - from as i64;
        let parts: i64 = self.parts as i64;
        assert(-0x7fff_ffff_8000_0000 <= delta * parts <= 0x7fff_ffff_8000_0000) by (nonlinear_arith)
            requires
                -0xffff_ffff <= delta <= 0xffff_ffff,
                -0x8000_0000 <= parts <= 0x7fff_ffff,
        ;
        let travelled: i64 = floor_whole(delta * parts);
        let reached: i64 = from as i64 + travelled;
        if reached < i32::MIN as i64 {
            i32::MIN
        } else if reached > i32::MAX as i64 {
            i32::MAX
        } else {
            reached as i32
        }
    }
}

/// True when `at` is the exact position `parts / RATIO_ONE` of the way from `from` to `to`,
/// rounded down to a whole unit.
pub open spec fn is_rounded_down(from: int, to: int, parts: int, at: int) -> bool {
    (at - from) * RATIO_ONE <= (to - from) * parts < (at - from + 1) * RATIO_ONE
}

/// At ratio zero the interpolated quantity is the starting one.
pub proof fn lemma_interpolated_at_zero(from: i32, to: i32)
    ensures
        interpolated(from as int, to as int, 0) == from,
{
}

/// At ratio one the interpolated quantity is the target.
pub proof fn lemma_interpolated_at_one(from: i32, to: i32)
    ensures
        interpolated(from as int, to as int, RATIO_ONE as int) == to,
{
    let d: int = to - from;
    assert(d * 65536 / 65536 == d);
}

/// As the ratio grows from zero to one, the interpolated quantity moves from `from` to `to`
/// without ever turning back or leaving the stretch between them.
pub proof fn lemma_interpolated_monotonic(from: i32, to: i32, earlier: Ratio, later: Ratio)
    requires
        0 <= earlier.parts <= later.parts <= RATIO_ONE,
    ensures
        from <= to ==> from <= interpolated(from as int, to as int, earlier.parts as int)
            <= interpolated(from as int, to as int, later.parts as int) <= to,
        from >= to ==> from >= interpolated(from as int, to as int, earlier.parts as int)
            >= interpolated(from as int, to as int, later.parts as int) >= to,
{
    let d: int = to - from;
    let a: int = earlier.parts as int;
    let b: int = later.parts as int;
    if d >= 0 {
        assert(0 <= d * a <= d * b <= d * 65536) by (nonlinear_arith)
            requires
                d >= 0,
                0 <= a <= b <= 65536,
        ;
    } else {
        assert(0 >= d * a >= d * b >= d * 65536) by (nonlinear_arith)
            requires
                d < 0,
                0 <= a <= b <= 65536,
        ;
    }
    assert(d * 65536 / 65536 == d);
}

/// For a ratio from zero to one the interpolated quantity is the exact one rounded down:
/// nothing saturates, and less than one unit is lost.
pub proof fn lemma_interpolated_rounds_down(from: i32, to: i32, ratio: Ratio)
    requires
        0 <= ratio.parts <= RATIO_ONE,
    ensures
        is_rounded_down(
            from as int,
            to as int,
            ratio.parts as int,
            interpolated(from as int, to as int, ratio.parts as int),
        ),
{
    let d: int = to - from;
    let a: int = ratio.parts as int;
    assert((d >= 0 ==> 0 <= d * a <= d * 65536) && (d < 0 ==> 0 >= d * a >= d * 65536))
        by (nonlinear_arith)
        requires
            0 <= a <= 65536,
    ;
    assert(d * 65536 / 65536 == d);
    let travelled: int = d * a / 65536;
    assert(travelled * 65536 <= d * a < (travelled + 1) * 65536);
    assert(interpolated(from as int, to as int, a) == from + travelled);
}

} // verus!
