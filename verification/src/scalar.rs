//! Single-precision numbers carried as bit patterns.
//!
//! The batching layer never computes with coordinates: it copies them from
//! shapes into vertices and from vertices into the upload stream. A number is
//! therefore held as the 32 bits that the device will read, and two numbers
//! are equal when their bits are.

use vstd::prelude::*;

verus! {

/// Bit pattern of the number zero.
pub const ZERO_BITS: u32 = 0;

/// Bit pattern of the number one.
pub const ONE_BITS: u32 = 0x3f80_0000;

/// Bit pattern of the number one half.
pub const HALF_BITS: u32 = 0x3f00_0000;

/// Bit pattern of the number minus one half.
pub const MINUS_HALF_BITS: u32 = 0xbf00_0000;

/// An IEEE-754 single-precision number, identified by its bit pattern.
#[derive(Clone, Copy, Debug, PartialEq, Eq, Structural)]
pub struct Scalar {
    pub bits: u32,
}

impl Scalar {
    /// The number with the given bit pattern.
    pub fn from_bits(bits: u32) -> (s: Scalar)
        ensures
            s.bits == bits,
    {
        Scalar { bits }
    }

    /// The bit pattern of this number.
    pub fn to_bits(self) -> (bits: u32)
        ensures
            bits == self.bits,
    {
        self.bits
    }

    /// Zero.
    pub fn zero() -> (s: Scalar)
        ensures
            s.bits == ZERO_BITS,
    {
        Scalar { bits: ZERO_BITS }
    }

    /// One.
    pub fn one() -> (s: Scalar)
        ensures
            s.bits == ONE_BITS,
    {
        Scalar { bits: ONE_BITS }
    }

    /// One half.
    pub fn half() -> (s: Scalar)
        ensures
            s.bits == HALF_BITS,
    {
        Scalar { bits: HALF_BITS }
    }

    /// Minus one half.
    pub fn minus_half() -> (s: Scalar)
        ensures
            s.bits == MINUS_HALF_BITS,
    {
        Scalar { bits: MINUS_HALF_BITS }
    }
}

impl Default for Scalar {
    fn default() -> (s: Scalar)
        ensures
            s.bits == ZERO_BITS,
    {
        Scalar { bits: ZERO_BITS }
    }
}

/// A point of the plane, or a texture coordinate.
#[derive(Clone, Copy, Debug, PartialEq, Eq, Structural)]
pub struct Point2 {
    pub x: Scalar,
    pub y: Scalar,
}

impl Point2 {
    pub fn new(x: Scalar, y: Scalar) -> (p: Point2)
        ensures
            p == (Point2 { x, y }),
    {
        Point2 { x, y }
    }

    /// The point whose coordinates have the given bit patterns.
    pub fn from_bits(x: u32, y: u32) -> (p: Point2)
        ensures
            p == (Point2 { x: Scalar { bits: x }, y: Scalar { bits: y } }),
    {
        Point2 { x: Scalar { bits: x }, y: Scalar { bits: y } }
    }
}

/// A point of the plane together with its depth.
#[derive(Clone, Copy, Debug, PartialEq, Eq, Structural)]
pub struct Point3 {
    pub x: Scalar,
    pub y: Scalar,
    pub z: Scalar,
}

impl Point3 {
    pub fn new(x: Scalar, y: Scalar, z: Scalar) -> (p: Point3)
        ensures
            p == (Point3 { x, y, z }),
    {
        Point3 { x, y, z }
    }

    /// The point `p` placed at depth `z`.
    pub fn at_depth(p: Point2, z: Scalar) -> (q: Point3)
        ensures
            q == (Point3 { x: p.x, y: p.y, z }),
    {
        Point3 { x: p.x, y: p.y, z }
    }
}

} // verus!
