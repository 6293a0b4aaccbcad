//! Scalar, vector and matrix carriers for the renderer.
//!
//! GPU-bound numeric data is `f32` on the wire. The library never computes
//! with floats; it carries each 32-bit value as its IEEE-754 bit pattern in
//! a `u32`. Every operation defined here (building a model matrix, zeroing
//! a translation column) only moves or replaces whole entries, so it is
//! exact, and the shell converts with `f32::to_bits` / `f32::from_bits` at
//! the boundary.

use vstd::prelude::*;

verus! {

/// Bit pattern of `0.0_f32`.
pub const F32_ZERO: u32 = 0;

/// Bit pattern of `1.0_f32`.
pub const F32_ONE: u32 = 0x3F80_0000;

/// Bit pattern of `0.5_f32`.
pub const F32_HALF: u32 = 0x3F00_0000;

/// Two-component vector of `f32` bit patterns.
#[derive(Clone, Copy, Debug, PartialEq, Eq, Structural)]
pub struct Vec2 {
    pub x: u32,
    pub y: u32,
}

/// Three-component vector of `f32` bit patterns.
#[derive(Clone, Copy, Debug, PartialEq, Eq, Structural)]
pub struct Vec3 {
    pub x: u32,
    pub y: u32,
    pub z: u32,
}

/// Four-component vector of `f32` bit patterns.
#[derive(Clone, Copy, Debug, PartialEq, Eq, Structural)]
pub struct Vec4 {
    pub x: u32,
    pub y: u32,
    pub z: u32,
    pub w: u32,
}

/// Column-major 4x4 matrix of `f32` bit patterns; `x` .. `w` are the four
/// columns, so `w` holds the translation in its first three entries.
#[derive(Clone, Copy, Debug, PartialEq, Eq, Structural)]
pub struct Mat4 {
    pub x: Vec4,
    pub y: Vec4,
    pub z: Vec4,
    pub w: Vec4,
}

impl Vec3 {
    pub fn new(x: u32, y: u32, z: u32) -> (v: Vec3)
        ensures
            v == (Vec3 { x, y, z }),
    {
        Vec3 { x, y, z }
    }
}

pub open spec fn spec_identity() -> Mat4 {
    Mat4 {
        x: Vec4 { x: F32_ONE, y: F32_ZERO, z: F32_ZERO, w: F32_ZERO },
        y: Vec4 { x: F32_ZERO, y: F32_ONE, z: F32_ZERO, w: F32_ZERO },
        z: Vec4 { x: F32_ZERO, y: F32_ZERO, z: F32_ONE, w: F32_ZERO },
        w: Vec4 { x: F32_ZERO, y: F32_ZERO, z: F32_ZERO, w: F32_ONE },
    }
}

/// A rigid translation by `t`: the identity basis with `t` as the
/// translation column.
pub open spec fn spec_translation(t: Vec3) -> Mat4 {
    Mat4 {
        w: Vec4 { x: t.x, y: t.y, z: t.z, w: F32_ONE },
        ..spec_identity()
    }
}

/// A uniform scale by `s` followed by a translation by `t`: diagonal
/// `(s, s, s, 1)` with `t` as the translation column. This is the closed
/// form of `translate(t) * scale(s)`.
pub open spec fn spec_scaled_translation(t: Vec3, s: u32) -> Mat4 {
    Mat4 {
        x: Vec4 { x: s, y: F32_ZERO, z: F32_ZERO, w: F32_ZERO },
        y: Vec4 { x: F32_ZERO, y: s, z: F32_ZERO, w: F32_ZERO },
        z: Vec4 { x: F32_ZERO, y: F32_ZERO, z: s, w: F32_ZERO },
        w: Vec4 { x: t.x, y: t.y, z: t.z, w: F32_ONE },
    }
}

/// `m` with its translation column zeroed and everything else kept.
pub open spec fn spec_without_translation(m: Mat4) -> Mat4 {
    Mat4 {
        w: Vec4 { x: F32_ZERO, y: F32_ZERO, z: F32_ZERO, w: m.w.w },
        ..m
    }
}

impl Mat4 {
    pub fn identity() -> (m: Mat4)
        ensures
            m == spec_identity(),
    {
        Mat4 {
            x: Vec4 { x: F32_ONE, y: F32_ZERO, z: F32_ZERO, w: F32_ZERO },
            y: Vec4 { x: F32_ZERO, y: F32_ONE, z: F32_ZERO, w: F32_ZERO },
            z: Vec4 { x: F32_ZERO, y: F32_ZERO, z: F32_ONE, w: F32_ZERO },
            w: Vec4 { x: F32_ZERO, y: F32_ZERO, z: F32_ZERO, w: F32_ONE },
        }
    }

    pub fn from_translation(t: Vec3) -> (m: Mat4)
        ensures
            m == spec_translation(t),
    {
        let mut m = Mat4::identity();
        m.w.x = t.x;
        m.w.y = t.y;
        m.w.z = t.z;
        m
    }

    pub fn from_scaled_translation(t: Vec3, s: u32) -> (m: Mat4)
        ensures
            m == spec_scaled_translation(t, s),
    {
        let mut m = Mat4::from_translation(t);
        m.x.x = s;
        m.y.y = s;
        m.z.z = s;
        m
    }

    /// Strips the translation column, keeping the rotation part: the
    /// returned matrix places the viewer at the origin. `F32_ZERO` is the
    /// bit pattern of `+0.0`, so the stripped column is exactly zero.
    pub fn without_translation(self) -> (m: Mat4)
        ensures
            m == spec_without_translation(self),
            m.w.x == F32_ZERO && m.w.y == F32_ZERO && m.w.z == F32_ZERO,
            m.x == self.x && m.y == self.y && m.z == self.z,
            m.w.w == self.w.w,
    {
        let mut m = self;
        m.w.x = F32_ZERO;
        m.w.y = F32_ZERO;
        m.w.z = F32_ZERO;
        m
    }
}

} // verus!
