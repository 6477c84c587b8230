//! The numbers that settings carry. Each is the bit pattern of a
//! single-precision number: the engine stores and hands them on, and never
//! computes with them.

use vstd::prelude::*;

verus! {

/// The bit pattern of the single-precision number 1.
pub const ONE: u32 = 0x3f80_0000;

/// A color: red, green and blue.
#[derive(Clone, Copy, Debug, PartialEq, Eq, Structural)]
pub struct Rgb {
    pub red: u32,
    pub green: u32,
    pub blue: u32,
}

/// Three coordinates.
#[derive(Clone, Copy, Debug, PartialEq, Eq, Structural)]
pub struct Vec3 {
    pub x: u32,
    pub y: u32,
    pub z: u32,
}

/// Where the camera stands and how it is turned.
#[derive(Clone, Copy, Debug, PartialEq, Eq, Structural)]
pub struct Camera {
    pub position: Vec3,
    pub rotation: Vec3,
}

/// The distances at which fog begins and ends.
#[derive(Clone, Copy, Debug, PartialEq, Eq, Structural)]
pub struct Fog {
    pub begin: u32,
    pub end: u32,
}

/// The transform that leaves every point where it is.
pub open spec fn identity() -> Seq<u32> {
    seq![ONE, 0, 0, 0, 0, ONE, 0, 0, 0, 0, ONE, 0, 0, 0, 0, ONE]
}

/// The transform that leaves every point where it is.
pub fn identity_transform() -> (transform: [u32; 16])
    ensures
        transform@ == identity(),
{
    let transform: [u32; 16] = [ONE, 0, 0, 0, 0, ONE, 0, 0, 0, 0, ONE, 0, 0, 0, 0, ONE];
    assert(transform@ =~= identity());
    transform
}

} // verus!
