//! Vector value types. Components are carried as IEEE-754 single-precision
//! bit patterns: the library copies them and never computes with them.
use vstd::prelude::*;

verus! {

/// Bit pattern of the single-precision value one half.
pub const HALF_BITS: u32 = 0x3f00_0000;

/// Bit pattern of the single-precision value one.
pub const ONE_BITS: u32 = 0x3f80_0000;

/// Bit pattern of the single-precision value zero.
pub const ZERO_BITS: u32 = 0;

/// Four components. For particles `w` is the inverse mass.
#[derive(Clone, Copy, Debug, PartialEq, Eq, Structural)]
pub struct Vec4 {
    pub x: u32,
    pub y: u32,
    pub z: u32,
    pub w: u32,
}

/// Three components.
#[derive(Clone, Copy, Debug, PartialEq, Eq, Structural)]
pub struct Vec3 {
    pub x: u32,
    pub y: u32,
    pub z: u32,
}

/// A rotation, stored as a quaternion.
pub type Quat = Vec4;

/// The zero vector with inverse mass one half.
pub open spec fn vec4_default() -> Vec4 {
    Vec4 { x: ZERO_BITS, y: ZERO_BITS, z: ZERO_BITS, w: HALF_BITS }
}

/// Extends a three-component vector with inverse mass one half.
pub open spec fn vec4_of(v: Vec3) -> Vec4 {
    Vec4 { x: v.x, y: v.y, z: v.z, w: HALF_BITS }
}

/// The first three components of a four-component vector.
pub open spec fn xyz_of(v: Vec4) -> Vec3 {
    Vec3 { x: v.x, y: v.y, z: v.z }
}

pub open spec fn vec3_zero() -> Vec3 {
    Vec3 { x: ZERO_BITS, y: ZERO_BITS, z: ZERO_BITS }
}

impl Vec4 {
    /// The zero vector with inverse mass one half.
    pub fn new() -> (r: Vec4)
        ensures
            r == vec4_default(),
    {
        Vec4 { x: ZERO_BITS, y: ZERO_BITS, z: ZERO_BITS, w: HALF_BITS }
    }

    pub fn components(x: u32, y: u32, z: u32, w: u32) -> (r: Vec4)
        ensures
            r == (Vec4 { x, y, z, w }),
    {
        Vec4 { x, y, z, w }
    }

    /// Takes the components of `other` and sets the inverse mass to one half.
    pub fn from(other: &Vec3) -> (r: Vec4)
        ensures
            r == vec4_of(*other),
    {
        Vec4 { x: other.x, y: other.y, z: other.z, w: HALF_BITS }
    }

    /// The first three components.
    pub fn xyz(&self) -> (r: Vec3)
        ensures
            r == xyz_of(*self),
    {
        Vec3 { x: self.x, y: self.y, z: self.z }
    }
}

impl Vec3 {
    /// The zero vector.
    pub fn new() -> (r: Vec3)
        ensures
            r == vec3_zero(),
    {
        Vec3 { x: ZERO_BITS, y: ZERO_BITS, z: ZERO_BITS }
    }

    pub fn components(x: u32, y: u32, z: u32) -> (r: Vec3)
        ensures
            r == (Vec3 { x, y, z }),
    {
        Vec3 { x, y, z }
    }
}

} // verus!
