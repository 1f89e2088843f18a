//! Fixed-point scalars, vectors and poses.
//!
//! A length, a velocity, an angle or a material coefficient is an `i64` that
//! counts thousandths: `15_000` is fifteen world units, `90_810` is 90.81.

use vstd::prelude::*;

verus! {

/// How many thousandths make one whole unit.
pub const UNIT: i64 = 1000;

/// A pair of fixed-point scalars: a position, a velocity change or a pair of
/// half extents, depending on where it stands.
#[derive(Clone, Copy, Debug, PartialEq, Eq, Structural)]
pub struct Vector2 {
    pub x: i64,
    pub y: i64,
}

impl Vector2 {
    pub fn new(x: i64, y: i64) -> (v: Vector2)
        ensures
            v == (Vector2 { x, y }),
    {
        Vector2 { x, y }
    }

    pub fn zero() -> (v: Vector2)
        ensures
            v == (Vector2 { x: 0, y: 0 }),
    {
        Vector2 { x: 0, y: 0 }
    }
}

/// Where a body is: the translation of its origin and its rotation in
/// thousandths of a radian.
#[derive(Clone, Copy, Debug, PartialEq, Eq, Structural)]
pub struct Pose {
    pub translation: Vector2,
    pub rotation: i64,
}

impl Pose {
    /// The unrotated pose at `(x, y)`.
    pub fn translation(x: i64, y: i64) -> (p: Pose)
        ensures
            p == (Pose { translation: Vector2 { x, y }, rotation: 0 }),
    {
        Pose { translation: Vector2 { x, y }, rotation: 0 }
    }
}

/// `v` brought into the range of `i64`.
pub open spec fn clamp_i64(v: int) -> int {
    if v < i64::MIN {
        i64::MIN as int
    } else if v > i64::MAX {
        i64::MAX as int
    } else {
        v
    }
}

/// `a - b`, stopping at the ends of the `i64` range instead of wrapping.
pub fn saturating_sub(a: i64, b: i64) -> (r: i64)
    ensures
        r == clamp_i64(a - b),
{
    match a.checked_sub(b) {
        Some(d) => d,
        None => if b > 0 {
            i64::MIN
        } else {
            i64::MAX
        },
    }
}

} // verus!
