//! Plain-value carriers for the quantities the renderer holds as 32-bit
//! floats.  The core never interprets them numerically: each word is the bit
//! pattern of one float, and the core's job is to place the words, byte for
//! byte, where the shading stage expects them.

use vstd::prelude::*;

verus! {

/// A 3-component value, one 32-bit word per component.
#[derive(Clone, Copy, PartialEq, Eq, Structural, Debug)]
pub struct Vec3Bits {
    pub x: u32,
    pub y: u32,
    pub z: u32,
}

impl Vec3Bits {
    pub fn new(x: u32, y: u32, z: u32) -> (r: Vec3Bits)
        ensures
            r == (Vec3Bits { x, y, z }),
    {
        Vec3Bits { x, y, z }
    }
}

/// An orbit position: radius and two angles, one 32-bit word each.
#[derive(Clone, Copy, PartialEq, Eq, Structural, Debug)]
pub struct SphericalPoint3 {
    pub radius: u32,
    pub azimuth: u32,
    pub elevation: u32,
}

impl SphericalPoint3 {
    pub fn new(radius: u32, azimuth: u32, elevation: u32) -> (r: SphericalPoint3)
        ensures
            r == (SphericalPoint3 { radius, azimuth, elevation }),
    {
        SphericalPoint3 { radius, azimuth, elevation }
    }
}

} // verus!
