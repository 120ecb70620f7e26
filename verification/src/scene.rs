//! The scene as its author writes it, and the records the shader reads.

use crate::geometry::{Point2, Rgba, Vec4};
use vstd::prelude::*;

verus! {

/// What a line does to a ray that meets it.
#[derive(Clone, Copy, Debug, PartialEq, Eq, Structural)]
pub enum LineKind {
    /// The ray ends on the line.
    Solid,
    /// The ray is reflected and tinted with the colour.
    Mirror(Rgba),
}

impl Default for LineKind {
    fn default() -> (kind: LineKind)
        ensures
            kind == LineKind::Solid,
    {
        LineKind::Solid
    }
}

/// A line segment of the scene, from `a` to `b`.
#[derive(Clone, Copy, Debug, PartialEq, Eq, Structural)]
pub struct Line {
    pub a: Point2,
    pub b: Point2,
    pub kind: LineKind,
}

/// The record of one line in the storage buffer that the shader reads.
#[derive(Clone, Copy, Debug, PartialEq, Eq, Structural)]
pub struct ShaderLine {
    pub a: Point2,
    pub b: Point2,
    pub color: Vec4,
    pub mirror: u32,
}

impl ShaderLine {
    /// The records that a projection can produce: the flag is 0 or 1, and a
    /// record whose flag is 0 carries the zero colour.
    pub open spec fn well_formed(self) -> bool {
        &&& self.mirror == 0 || self.mirror == 1
        &&& self.mirror == 0 ==> self.color == Vec4::zero_spec()
    }
}

impl Line {
    /// The record that stands for this line on the GPU: the end points are
    /// kept, a solid line has the zero colour and the flag 0, a mirror has
    /// its colour and the flag 1.
    pub open spec fn gpu(&self) -> ShaderLine {
        match self.kind {
            LineKind::Solid => ShaderLine {
                a: self.a,
                b: self.b,
                color: Vec4::zero_spec(),
                mirror: 0,
            },
            LineKind::Mirror(color) => ShaderLine {
                a: self.a,
                b: self.b,
                color: color.vec4(),
                mirror: 1,
            },
        }
    }

    /// A line from `a` to `b`.
    pub fn new(a: Point2, b: Point2, kind: LineKind) -> (line: Line)
        ensures
            line.a == a,
            line.b == b,
            line.kind == kind,
    {
        Line { a, b, kind }
    }

    /// Projects the line to its GPU record.
    #[verifier::when_used_as_spec(gpu)]
    pub fn to_gpu(&self) -> (out: ShaderLine)
        ensures
            out == self.gpu(),
            out.well_formed(),
            out.a == self.a,
            out.b == self.b,
            self.kind == LineKind::Solid ==> out.color == Vec4::zero_spec() && out.mirror == 0,
            forall|c: Rgba| self.kind == LineKind::Mirror(c) ==> out.color == c.vec4() && out.mirror == 1,
    {
        match self.kind {
            LineKind::Solid => ShaderLine {
                a: self.a,
                b: self.b,
                color: Vec4::zero(),
                mirror: 0,
            },
            LineKind::Mirror(color) => ShaderLine {
                a: self.a,
                b: self.b,
                color: color.to_vec4(),
                mirror: 1,
            },
        }
    }
}

/// The state that reaches the shader as a uniform each frame.
#[derive(Clone, Copy, Debug, PartialEq, Eq, Structural)]
pub struct ShaderInputs {
    pub player: Point2,
}

impl Default for ShaderInputs {
    fn default() -> (inputs: ShaderInputs)
        ensures
            inputs.player == Point2::origin_spec(),
    {
        ShaderInputs { player: Point2::origin() }
    }
}

} // verus!
