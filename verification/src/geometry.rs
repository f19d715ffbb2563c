//! The static geometry: either a hard-coded triangle whose vertices live in
//! the shader, or an indexed pentagon. The pentagon's index list carries one
//! trailing padding entry so that the buffer's byte length reaches a 4-byte
//! alignment boundary; the padding entry is never drawn.

use vstd::prelude::*;

verus! {

/// How many vertices the indexed pentagon has.
pub const PENTAGON_VERTEX_COUNT: u16 = 5;

/// Which of the two geometry variants the renderer draws.
#[derive(Clone, Copy, Debug, PartialEq, Eq, Structural)]
pub enum Shape {
    /// Three shader-resident vertices; no vertex or index buffer.
    Triangle,
    /// Five vertices drawn as three triangles through an index buffer.
    Pentagon,
}

/// One draw call: whether it is indexed, how many vertices or indices it
/// consumes, and how many instances it draws.
#[derive(Clone, Copy, Debug, PartialEq, Eq, Structural)]
pub struct DrawCall {
    /// True for an indexed draw, false for a plain vertex-range draw.
    pub indexed: bool,
    /// Number of vertices (plain) or indices (indexed) consumed.
    pub count: u32,
    /// Number of instances; always one here.
    pub instances: u32,
}

/// The draw call each shape is rendered with: three vertices for the
/// triangle, nine indices (three triangles) for the pentagon, one instance
/// either way.
pub open spec fn draw_call_spec(shape: Shape) -> DrawCall {
    match shape {
        Shape::Triangle => DrawCall { indexed: false, count: 3, instances: 1 },
        Shape::Pentagon => DrawCall { indexed: true, count: 9, instances: 1 },
    }
}

impl Shape {
    /// The draw call this shape is rendered with.
    pub fn draw_call(&self) -> (d: DrawCall)
        ensures
            d == draw_call_spec(*self),
    {
        match self {
            Shape::Triangle => DrawCall { indexed: false, count: 3, instances: 1 },
            Shape::Pentagon => DrawCall { indexed: true, count: 9, instances: 1 },
        }
    }
}

/// The pentagon's index list: three triangles fanned around vertex 4,
/// followed by one padding entry (value 0) that aligns the buffer to a
/// 4-byte boundary and is not consumed by the draw call.
pub open spec fn pentagon_index_seq() -> Seq<u16> {
    seq![0u16, 1u16, 4u16, 1u16, 2u16, 4u16, 2u16, 3u16, 4u16, 0u16]
}

/// The pentagon's index buffer contents, padding entry included.
pub fn pentagon_indices() -> (idx: Vec<u16>)
    ensures
        idx@ == pentagon_index_seq(),
{
    let mut idx: Vec<u16> = Vec::new();
    idx.push(0);
    idx.push(1);
    idx.push(4);
    idx.push(1);
    idx.push(2);
    idx.push(4);
    idx.push(2);
    idx.push(3);
    idx.push(4);
    idx.push(0);
    proof {
        assert(idx@ =~= pentagon_index_seq());
    }
    idx
}

/// The index buffer holds exactly ten entries: the nine the draw call
/// consumes, forming the three triangles, and one trailing padding entry.
/// Every entry, the padding included, is a valid vertex index, and the
/// padding entry lies beyond the drawn range, so no triangle references it.
pub proof fn lemma_pentagon_index_padding()
    ensures
        pentagon_index_seq().len() == 10,
        draw_call_spec(Shape::Pentagon).count == 9,
        draw_call_spec(Shape::Pentagon).count < pentagon_index_seq().len(),
        forall|i: int|
            0 <= i < pentagon_index_seq().len() ==> pentagon_index_seq()[i]
                < PENTAGON_VERTEX_COUNT,
        pentagon_index_seq()[9] == 0u16,
{
}

} // verus!
