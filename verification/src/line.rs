//! Line segments: the queue that a frame's segments wait in, and the
//! vertices and indices that a line-list draw call takes for them.

use vstd::prelude::*;
use crate::mesh::{Mesh, Vertex};
use crate::Context;

verus! {

/// The most segments that one frame can draw: each takes two indices, and an
/// index, like the number of indices, is a 32-bit number.
pub const MAX_SEGMENTS: usize = 0x7fff_ffff;

/// The bytes between one vertex and the next: two coordinates of four bytes.
pub const LINE_VERTEX_STRIDE: u64 = 8;

/// The shader location of the one vertex attribute, the position, which
/// starts at the first byte of a vertex.
pub const LINE_POSITION_LOCATION: u32 = 0;

/// A segment from `(x0, y0)` to `(x1, y1)` in normalized device coordinates.
/// Each coordinate is a 32-bit float, held by its bits: the renderer passes
/// coordinates on and never computes with them.
#[derive(Clone, Copy, Debug, PartialEq, Eq, Structural)]
pub struct LineSegment {
    pub x0: u32,
    pub y0: u32,
    pub x1: u32,
    pub y1: u32,
}

/// One end of a segment as the vertex stage reads it: a position of two
/// 32-bit floats, `x` then `y`, each held by its bits.
#[derive(Clone, Copy, Debug, PartialEq, Eq)]
pub struct LineVertex {
    pub position: [u32; 2],
}

impl Vertex for LineVertex {
    open spec fn word_count() -> nat {
        2
    }

    open spec fn words(&self) -> Seq<u32> {
        self.position@
    }

    proof fn lemma_word_count(&self) {
    }

    fn write_words(&self, out: &mut Vec<u32>) {
        out.push(self.position[0]);
        out.push(self.position[1]);
        assert(out@ == old(out)@ + self.position@);
    }
}

impl LineSegment {
    /// The vertex at the segment's start.
    pub open spec fn start(self) -> LineVertex {
        LineVertex { position: [self.x0, self.y0] }
    }

    /// The vertex at the segment's end.
    pub open spec fn end(self) -> LineVertex {
        LineVertex { position: [self.x1, self.y1] }
    }
}

/// The vertices of a queue of segments: for each segment, in the queue's
/// order, its start and then its end.
pub open spec fn line_vertices(segments: Seq<LineSegment>) -> Seq<LineVertex> {
    Seq::new(
        2 * segments.len(),
        |k: int|
            if k % 2 == 0 {
                segments[k / 2].start()
            } else {
                segments[k / 2].end()
            },
    )
}

/// The indices of `count` segments: `0, 1, 2, ..`, two for each segment.
pub open spec fn line_indices(count: nat) -> Seq<u32> {
    Seq::new(2 * count, |k: int| k as u32)
}

/// The stride of the vertex buffer is the size of one vertex: its two words
/// of four bytes.
pub proof fn lemma_line_vertex_stride()
    ensures
        LINE_VERTEX_STRIDE == 4 * LineVertex::word_count(),
{
}

/// The geometry rule of a line list. Of `n` queued segments come `2 * n`
/// vertices and `2 * n` indices; the two indices of the segment at place `k`
/// are `2 * k` and `2 * k + 1`, and the vertices they point at are that
/// segment's start `(x0, y0)` and end `(x1, y1)`.
pub proof fn lemma_segment_geometry(segments: Seq<LineSegment>, k: int)
    requires
        segments.len() <= MAX_SEGMENTS,
        0 <= k < segments.len(),
    ensures
        line_vertices(segments).len() == 2 * segments.len(),
        line_indices(segments.len()).len() == 2 * segments.len(),
        line_indices(segments.len())[2 * k] == 2 * k,
        line_indices(segments.len())[2 * k + 1] == 2 * k + 1,
        line_vertices(segments)[line_indices(segments.len())[2 * k] as int].position@ == seq![
            segments[k].x0,
            segments[k].y0,
        ],
        line_vertices(segments)[line_indices(segments.len())[2 * k + 1] as int].position@
            == seq![segments[k].x1, segments[k].y1],
{
    let vertices = line_vertices(segments);
    assert(vertices[2 * k] == segments[k].start());
    assert(vertices[2 * k + 1] == segments[k].end());
    assert(segments[k].start().position@ =~= seq![segments[k].x0, segments[k].y0]);
    assert(segments[k].end().position@ =~= seq![segments[k].x1, segments[k].y1]);
}

/// Nothing queued gives nothing to draw: no vertex and no index.
pub proof fn lemma_empty_geometry()
    ensures
        line_vertices(Seq::<LineSegment>::empty()) == Seq::<LineVertex>::empty(),
        line_indices(0) == Seq::<u32>::empty(),
{
}

/// Turns a queue of segments into the vertices and indices of a line list:
/// two vertices for each segment, start then end, in the queue's order, and
/// for the segment at place `i` the indices `2 * i` and `2 * i + 1`.
pub fn rasterize(segments: &Vec<LineSegment>) -> (geometry: (Vec<LineVertex>, Vec<u32>))
    requires
        segments@.len() <= MAX_SEGMENTS,
    ensures
        geometry.0@ == line_vertices(segments@),
        geometry.1@ == line_indices(segments@.len()),
{
    let mut vertices: Vec<LineVertex> = Vec::new();
    let mut indices: Vec<u32> = Vec::new();
    let mut offset: u32 = 0;
    let mut i: usize = 0;
    while i < segments.len()
        invariant
            i <= segments@.len() <= MAX_SEGMENTS,
            offset == 2 * i,
            vertices@ == line_vertices(segments@.take(i as int)),
            indices@ == line_indices(i as nat),
        decreases segments@.len() - i,
    {
        let line = segments[i];
        vertices.push(LineVertex { position: [line.x0, line.y0] });
        vertices.push(LineVertex { position: [line.x1, line.y1] });
        indices.push(offset);
        indices.push(1 + offset);
        offset += 2;
        i += 1;
    }
    assert(segments@.take(i as int) == segments@);
    (vertices, indices)
}

/// The renderer's CPU side: the colour format that its pipeline draws to,
/// and the segments queued for the next frame, oldest first.
pub struct LineRenderer {
    target_format: wgpu::TextureFormat,
    queued: Vec<LineSegment>,
}

impl View for LineRenderer {
    type V = Seq<LineSegment>;

    /// The queued segments, oldest first.
    closed spec fn view(&self) -> Seq<LineSegment> {
        self.queued@
    }
}

impl LineRenderer {
    /// The colour format of the pipeline's one colour target.
    pub closed spec fn target(&self) -> wgpu::TextureFormat {
        self.target_format
    }

    /// A renderer for the surface of `ctx`: its pipeline draws to the
    /// surface's colour format, and nothing is queued.
    pub fn new(ctx: &Context) -> (renderer: LineRenderer)
        ensures
            renderer@ == Seq::<LineSegment>::empty(),
            renderer.target() == ctx@.format,
    {
        LineRenderer { target_format: *ctx.wgpu_surface_format(), queued: Vec::new() }
    }

    /// The colour format that the pipeline's colour target has.
    pub fn target_format(&self) -> (format: &wgpu::TextureFormat)
        ensures
            *format == self.target(),
    {
        &self.target_format
    }

    /// The number of segments that wait for the next frame.
    pub fn len(&self) -> (count: usize)
        ensures
            count == self@.len(),
    {
        self.queued.len()
    }

    /// Queues the segment from `(x0, y0)` to `(x1, y1)` behind those already
    /// waiting.
    pub fn line(&mut self, x0: u32, y0: u32, x1: u32, y1: u32)
        ensures
            final(self)@ == old(self)@.push(LineSegment { x0, y0, x1, y1 }),
            final(self).target() == old(self).target(),
    {
        self.queued.push(LineSegment { x0, y0, x1, y1 });
    }

    /// Takes the frame out of the queue: returns the mesh of all queued
    /// segments, to be drawn in one indexed draw call over all its indices,
    /// and leaves the queue empty. With nothing queued the mesh is empty and
    /// the draw call draws nothing.
    pub fn render(&mut self) -> (mesh: Mesh<LineVertex>)
        requires
            old(self)@.len() <= MAX_SEGMENTS,
        ensures
            final(self)@ == Seq::<LineSegment>::empty(),
            final(self).target() == old(self).target(),
            mesh@.vertices == line_vertices(old(self)@),
            mesh@.indices == line_indices(old(self)@.len()),
            mesh@.index_count == 2 * old(self)@.len(),
            mesh@.vertices.len() == 2 * old(self)@.len(),
            mesh@.indices.len() == 2 * old(self)@.len(),
            forall|k: int|
                0 <= k < old(self)@.len() ==> {
                    &&& mesh@.indices[2 * k] == 2 * k
                    &&& mesh@.indices[2 * k + 1] == 2 * k + 1
                    &&& mesh@.vertices[2 * k] == (#[trigger] old(self)@[k]).start()
                    &&& mesh@.vertices[2 * k + 1] == old(self)@[k].end()
                },
            old(self)@.len() == 0 ==> mesh@.index_count == 0 && mesh@.vertices.len() == 0
                && mesh@.indices.len() == 0,
    {
        let (vertices, indices) = rasterize(&self.queued);
        let mesh = Mesh::new(vertices.as_slice(), indices.as_slice());
        self.queued.clear();
        mesh
    }
}

} // verus!
