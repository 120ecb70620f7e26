//! The line buffer: the CPU-side mirror of the storage buffer.
//!
//! Once per frame, before anything is drawn, the mirror is rebuilt from the
//! lines of the scene: what it held before is dropped, and every line of the
//! scene contributes one record, in the order in which the scene lists them.
//! The mirror is then uploaded as it stands. Nothing is compared with the
//! frame before.

use crate::scene::{Line, ShaderLine};
use vstd::prelude::*;

verus! {

/// The records of a scene: one for each line, in the same order.
pub open spec fn project(scene: Seq<Line>) -> Seq<ShaderLine> {
    Seq::new(scene.len(), |i: int| scene[i].gpu())
}

/// The mirror after an extraction of `scene`, when it held `before`: the
/// records of `scene`, and nothing of `before`.
pub open spec fn extracted(before: Seq<ShaderLine>, scene: Seq<Line>) -> Seq<ShaderLine> {
    project(scene)
}

/// The CPU-side mirror of the storage buffer of lines.
pub struct LineBuffer {
    lines: Vec<ShaderLine>,
}

impl View for LineBuffer {
    type V = Seq<ShaderLine>;

    closed spec fn view(&self) -> Seq<ShaderLine> {
        self.lines@
    }
}

impl LineBuffer {
    /// A mirror without records, as it is before the first extraction.
    pub fn new() -> (buffer: LineBuffer)
        ensures
            buffer@ == Seq::<ShaderLine>::empty(),
    {
        LineBuffer { lines: Vec::new() }
    }

    /// The number of records.
    pub fn len(&self) -> (n: usize)
        ensures
            n == self@.len(),
    {
        self.lines.len()
    }

    /// Whether the mirror holds no record.
    pub fn is_empty(&self) -> (empty: bool)
        ensures
            empty <==> self@.len() == 0,
    {
        self.lines.len() == 0
    }

    /// The record at `index`, if there is one.
    pub fn get(&self, index: usize) -> (record: Option<ShaderLine>)
        ensures
            record == (if index < self@.len() {
                Some(self@[index as int])
            } else {
                None::<ShaderLine>
            }),
    {
        if index < self.lines.len() {
            Some(self.lines[index])
        } else {
            None
        }
    }

    /// The records in upload order.
    pub fn records(&self) -> (records: &Vec<ShaderLine>)
        ensures
            records@ == self@,
    {
        &self.lines
    }
}

/// The extraction step of a frame: rebuilds the mirror from the lines of
/// the scene. The records of the frame before are dropped; afterwards the
/// mirror holds one record for each line of `scene`, in the order of
/// `scene`, and nothing else.
pub fn write_lines_buffer(buffer: &mut LineBuffer, scene: &Vec<Line>)
    ensures
        final(buffer)@ == extracted(old(buffer)@, scene@),
        final(buffer)@ == project(scene@),
        final(buffer)@.len() == scene@.len(),
        forall|i: int| 0 <= i < scene@.len() ==> (#[trigger] final(buffer)@[i]).well_formed(),
{
    buffer.lines.clear();
    let mut i: usize = 0;
    while i < scene.len()
        invariant
            i <= scene.len(),
            buffer.lines@ == project(scene@).subrange(0, i as int),
        decreases scene.len() - i,
    {
        buffer.lines.push(scene[i].to_gpu());
        i += 1;
    }
}

/// Rebuild completeness. The records of a scene are as many as its lines,
/// each is the projection of the line at its place, and each is well formed.
pub proof fn law_projection_is_pointwise(scene: Seq<Line>)
    ensures
        project(scene).len() == scene.len(),
        forall|i: int| 0 <= i < scene.len() ==> #[trigger] project(scene)[i] == scene[i].gpu(),
        forall|i: int| 0 <= i < scene.len() ==> (#[trigger] project(scene)[i]).well_formed(),
{
}

/// Idempotence. What an extraction leaves in the mirror depends on the
/// scene alone: whatever two mirrors held before, after an extraction of the
/// same scene they hold the same records, so that extracting an unchanged
/// scene again changes nothing.
pub proof fn law_rebuild_is_idempotent(before: Seq<ShaderLine>, scene: Seq<Line>)
    ensures
        extracted(before, scene) == project(scene),
        extracted(extracted(before, scene), scene) == extracted(before, scene),
{
}

/// An empty scene leaves an empty mirror.
pub proof fn law_empty_scene(before: Seq<ShaderLine>)
    ensures
        extracted(before, Seq::<Line>::empty()) == Seq::<ShaderLine>::empty(),
{
}

/// Growth. When lines are added behind those of a scene, the records of the
/// larger scene are those of the smaller one followed by those of the added
/// lines: the count is the sum of the counts and the first records are
/// unchanged.
pub proof fn law_added_lines_extend_the_records(scene: Seq<Line>, added: Seq<Line>)
    ensures
        project(scene + added) == project(scene) + project(added),
        project(scene + added).len() == scene.len() + added.len(),
        project(scene + added).subrange(0, scene.len() as int) == project(scene),
{
}

} // verus!
