//! Numbers and small vectors as the GPU receives them.
//!
//! Every real number of the scene is a single-precision IEEE 754 value. The
//! library never computes with such a number: it stores it, copies it and
//! compares it for identity, and so it keeps the 32-bit pattern of the value.
//! Two scalars are equal here exactly when the GPU would receive the same
//! four bytes.

use vstd::prelude::*;

verus! {

/// A single-precision number, held by its IEEE 754 bit pattern.
#[derive(Clone, Copy, Debug, PartialEq, Eq, Structural)]
pub struct Scalar {
    pub bits: u32,
}

impl Scalar {
    /// The bit pattern of positive zero.
    pub open spec fn zero_spec() -> Scalar {
        Scalar { bits: 0 }
    }

    /// Wraps a bit pattern.
    pub fn from_bits(bits: u32) -> (s: Scalar)
        ensures
            s.bits == bits,
    {
        Scalar { bits }
    }

    /// The bit pattern of the number.
    pub fn to_bits(self) -> (bits: u32)
        ensures
            bits == self.bits,
    {
        self.bits
    }

    /// Positive zero.
    #[verifier::when_used_as_spec(zero_spec)]
    pub fn zero() -> (s: Scalar)
        ensures
            s == Scalar::zero_spec(),
    {
        Scalar { bits: 0 }
    }
}

/// A point of the plane.
#[derive(Clone, Copy, Debug, PartialEq, Eq, Structural)]
pub struct Point2 {
    pub x: Scalar,
    pub y: Scalar,
}

impl Point2 {
    /// The origin of the plane.
    pub open spec fn origin_spec() -> Point2 {
        Point2 { x: Scalar::zero_spec(), y: Scalar::zero_spec() }
    }

    /// The point with the given coordinates.
    pub fn new(x: Scalar, y: Scalar) -> (p: Point2)
        ensures
            p.x == x,
            p.y == y,
    {
        Point2 { x, y }
    }

    /// The point whose coordinates have the given bit patterns.
    pub fn from_bits(x: u32, y: u32) -> (p: Point2)
        ensures
            p.x.bits == x,
            p.y.bits == y,
    {
        Point2 { x: Scalar { bits: x }, y: Scalar { bits: y } }
    }

    /// The origin of the plane.
    #[verifier::when_used_as_spec(origin_spec)]
    pub fn origin() -> (p: Point2)
        ensures
            p == Point2::origin_spec(),
    {
        Point2 { x: Scalar { bits: 0 }, y: Scalar { bits: 0 } }
    }
}

/// Four scalars, the form in which a colour reaches the shader.
#[derive(Clone, Copy, Debug, PartialEq, Eq, Structural)]
pub struct Vec4 {
    pub x: Scalar,
    pub y: Scalar,
    pub z: Scalar,
    pub w: Scalar,
}

impl Vec4 {
    /// The vector of four positive zeros.
    pub open spec fn zero_spec() -> Vec4 {
        Vec4 {
            x: Scalar::zero_spec(),
            y: Scalar::zero_spec(),
            z: Scalar::zero_spec(),
            w: Scalar::zero_spec(),
        }
    }

    /// The vector of four positive zeros.
    #[verifier::when_used_as_spec(zero_spec)]
    pub fn zero() -> (v: Vec4)
        ensures
            v == Vec4::zero_spec(),
    {
        Vec4 {
            x: Scalar { bits: 0 },
            y: Scalar { bits: 0 },
            z: Scalar { bits: 0 },
            w: Scalar { bits: 0 },
        }
    }
}

/// A colour by its red, green, blue and alpha components.
#[derive(Clone, Copy, Debug, PartialEq, Eq, Structural)]
pub struct Rgba {
    pub r: Scalar,
    pub g: Scalar,
    pub b: Scalar,
    pub a: Scalar,
}

impl Rgba {
    /// The components in the order red, green, blue, alpha.
    pub open spec fn vec4(self) -> Vec4 {
        Vec4 { x: self.r, y: self.g, z: self.b, w: self.a }
    }

    /// The colour with the given components.
    pub fn new(r: Scalar, g: Scalar, b: Scalar, a: Scalar) -> (c: Rgba)
        ensures
            c.r == r,
            c.g == g,
            c.b == b,
            c.a == a,
    {
        Rgba { r, g, b, a }
    }

    /// The colour whose components have the given bit patterns.
    pub fn from_bits(r: u32, g: u32, b: u32, a: u32) -> (c: Rgba)
        ensures
            c.r.bits == r,
            c.g.bits == g,
            c.b.bits == b,
            c.a.bits == a,
    {
        Rgba {
            r: Scalar { bits: r },
            g: Scalar { bits: g },
            b: Scalar { bits: b },
            a: Scalar { bits: a },
        }
    }

    /// Packs the colour for the shader: red, green, blue and alpha become
    /// the first to fourth component.
    #[verifier::when_used_as_spec(vec4)]
    pub fn to_vec4(self) -> (v: Vec4)
        ensures
            v == self.vec4(),
    {
        Vec4 { x: self.r, y: self.g, z: self.b, w: self.a }
    }
}

} // verus!
