use vstd::prelude::*;

verus! {

/// A double-precision value carried opaquely as its IEEE-754 bit pattern.
/// The numeric interpretation belongs to the caller; the engine itself only
/// ever stores and compares these values, and its comparisons are bitwise,
/// which is exactly the equality that cycle detection is defined by.
#[derive(Clone, Copy, PartialEq, Eq, Structural, Debug)]
pub struct Scalar {
    pub bits: u64,
}

impl Scalar {
    /// The bit pattern of positive zero.
    pub fn zero() -> (r: Scalar)
        ensures
            r.bits == 0,
    {
        Scalar { bits: 0 }
    }
}

/// A point in pixel space or complex-plane space: two scalars, compared
/// bitwise, component by component.
#[derive(Clone, Copy, PartialEq, Eq, Structural, Debug)]
pub struct Coord {
    pub x: Scalar,
    pub y: Scalar,
}

impl Coord {
    /// The origin, the starting iterate of every orbit.
    pub fn zero() -> (r: Coord)
        ensures
            r.x.bits == 0,
            r.y.bits == 0,
    {
        Coord { x: Scalar { bits: 0 }, y: Scalar { bits: 0 } }
    }
}

} // verus!
