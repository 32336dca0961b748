use vstd::prelude::*;

verus! {

/// A two-component vector of unsigned 32-bit coordinates.
///
/// Serves both as a point in the plane and as a size or translation
/// amount for the unsigned rectangle type.
#[derive(Clone, Copy, Debug, PartialEq, Eq, Structural)]
#[verifier::ext_equal]
pub struct UVec2 {
    pub x: u32,
    pub y: u32,
}

impl UVec2 {
    /// Builds the vector (x, y).
    pub fn new(x: u32, y: u32) -> (v: Self)
        ensures
            v.x == x,
            v.y == y,
    {
        UVec2 { x, y }
    }

    /// The zero vector (0, 0).
    pub fn zero() -> (v: Self)
        ensures
            v.x == 0,
            v.y == 0,
    {
        UVec2 { x: 0, y: 0 }
    }
}

/// A two-component vector of signed 32-bit coordinates.
///
/// Serves both as a point in the plane and as a size or translation
/// amount for the signed rectangle type.
#[derive(Clone, Copy, Debug, PartialEq, Eq, Structural)]
#[verifier::ext_equal]
pub struct IVec2 {
    pub x: i32,
    pub y: i32,
}

impl IVec2 {
    /// Builds the vector (x, y).
    pub fn new(x: i32, y: i32) -> (v: Self)
        ensures
            v.x == x,
            v.y == y,
    {
        IVec2 { x, y }
    }

    /// The zero vector (0, 0).
    pub fn zero() -> (v: Self)
        ensures
            v.x == 0,
            v.y == 0,
    {
        IVec2 { x: 0, y: 0 }
    }
}

} // verus!
