//! The instanced-rectangle drawable pipeline.
//!
//! The pipeline owns fixed quad geometry — four corner vertices and six
//! indices forming two triangles — and a compiled pipeline handle keyed
//! by the surface format. Each frame it replaces its instance buffer
//! wholesale with one sized exactly to the current instance set and
//! yields exactly one draw item: the indexed quad, instanced over
//! `[0, n)` for `n` given instances. An empty set is valid and yields a
//! zero-instance item that draws nothing.
//!
//! The geometry's float scalars are held as IEEE-754 bit patterns, as
//! everywhere in this library; the packed byte forms below are what the
//! host uploads into the pipeline's vertex and index buffers.

use vstd::prelude::*;

use crate::instance::push_u32_le;
use crate::instance::u32_le_bytes;
use crate::render_item::BufferId;
use crate::render_item::DrawTechnique;
use crate::render_item::PipelineId;
use crate::render_item::RenderItem;

verus! {

/// Bit pattern of the 32-bit float 1.0.
pub const F32_ONE_BITS: u32 = 0x3f80_0000;

/// Bit pattern of the 32-bit float -1.0.
pub const F32_NEG_ONE_BITS: u32 = 0xbf80_0000;

/// Vertices of the quad: the four corners (1,1), (-1,1), (-1,-1),
/// (1,-1), two packed words each.
pub const QUAD_VERTEX_COUNT: u32 = 4;

/// Indices of the quad: two counter-clockwise triangles over the four
/// corners.
pub const QUAD_INDEX_COUNT: u32 = 6;

/// The packed bytes of the quad's vertex buffer: four corner positions
/// in order, each coordinate a little-endian word.
pub open spec fn quad_vertex_bytes() -> Seq<u8> {
    u32_le_bytes(F32_ONE_BITS) + u32_le_bytes(F32_ONE_BITS) + u32_le_bytes(F32_NEG_ONE_BITS)
        + u32_le_bytes(F32_ONE_BITS) + u32_le_bytes(F32_NEG_ONE_BITS) + u32_le_bytes(F32_NEG_ONE_BITS)
        + u32_le_bytes(F32_ONE_BITS) + u32_le_bytes(F32_NEG_ONE_BITS)
}

/// The quad's index list: triangles (0,1,2) and (2,3,0).
pub open spec fn quad_indices() -> Seq<u16> {
    seq![0u16, 1u16, 2u16, 2u16, 3u16, 0u16]
}

/// The two little-endian bytes of a 16-bit word.
pub open spec fn u16_le_bytes(x: u16) -> Seq<u8> {
    seq![(x & 0xff) as u8, ((x >> 8) & 0xff) as u8]
}

/// The packed bytes of a 16-bit index list, in order.
pub open spec fn u16s_le_bytes(xs: Seq<u16>) -> Seq<u8>
    decreases xs.len(),
{
    if xs.len() == 0 {
        Seq::empty()
    } else {
        u16s_le_bytes(xs.drop_last()) + u16_le_bytes(xs.last())
    }
}

/// The packed bytes of the quad's index buffer.
pub open spec fn quad_index_bytes() -> Seq<u8> {
    u16s_le_bytes(quad_indices())
}

/// The quad's vertex-buffer contents, ready for upload.
pub fn quad_vertex_data() -> (r: Vec<u8>)
    ensures
        r@ == quad_vertex_bytes(),
{
    let mut out: Vec<u8> = Vec::new();
    push_u32_le(&mut out, F32_ONE_BITS);
    push_u32_le(&mut out, F32_ONE_BITS);
    push_u32_le(&mut out, F32_NEG_ONE_BITS);
    push_u32_le(&mut out, F32_ONE_BITS);
    push_u32_le(&mut out, F32_NEG_ONE_BITS);
    push_u32_le(&mut out, F32_NEG_ONE_BITS);
    push_u32_le(&mut out, F32_ONE_BITS);
    push_u32_le(&mut out, F32_NEG_ONE_BITS);
    assert(out@ =~= quad_vertex_bytes());
    out
}

/// The quad's index-buffer contents, ready for upload: six 16-bit
/// indices, little-endian.
pub fn quad_index_data() -> (r: Vec<u8>)
    ensures
        r@ == quad_index_bytes(),
{
    let indices: [u16; 6] = [0, 1, 2, 2, 3, 0];
    let mut out: Vec<u8> = Vec::new();
    let mut i: usize = 0;
    while i < 6
        invariant
            i <= 6,
            out@ == u16s_le_bytes(quad_indices().subrange(0, i as int)),
            forall|j: int| 0 <= j < 6 ==> indices@[j] == quad_indices()[j],
        decreases 6 - i,
    {
        let x = indices[i];
        out.push((x & 0xff) as u8);
        out.push(((x >> 8) & 0xff) as u8);
        proof {
            let pre = quad_indices().subrange(0, i as int);
            let post = quad_indices().subrange(0, i + 1 as int);
            assert(post.drop_last() =~= pre);
            assert(out@ =~= u16s_le_bytes(pre) + u16_le_bytes(quad_indices()[i as int]));
        }
        i = i + 1;
    }
    proof {
        assert(quad_indices().subrange(0, 6) =~= quad_indices());
    }
    out
}

/// The drawable pipeline for instanced rectangles: fixed geometry
/// buffers and a compiled pipeline handle, plus the replaceable
/// per-frame instance buffer.
#[derive(Clone, Copy, Debug, PartialEq, Eq, Structural)]
pub struct RectangleRenderer {
    pub pipeline: PipelineId,
    pub vertex_buffer: BufferId,
    pub index_buffer: BufferId,
    pub instance_buffer: Option<BufferId>,
}

impl RectangleRenderer {
    /// Wraps the host-compiled pipeline and the two geometry buffers
    /// the host created from `quad_vertex_data` and `quad_index_data`.
    /// No instance buffer exists until the first frame.
    pub fn new(pipeline: PipelineId, vertex_buffer: BufferId, index_buffer: BufferId) -> (r: Self)
        ensures
            r.pipeline == pipeline,
            r.vertex_buffer == vertex_buffer,
            r.index_buffer == index_buffer,
            r.instance_buffer is None,
    {
        RectangleRenderer { pipeline, vertex_buffer, index_buffer, instance_buffer: None }
    }

    /// Adopts the freshly filled instance buffer of this frame —
    /// dropping ownership of the previous frame's buffer — and yields
    /// exactly one draw item: the indexed quad over all six indices,
    /// instanced over `[0, n)`. An empty set yields a zero-instance
    /// item, not an error.
    pub fn get_items(&mut self, instance_count: u32, instance_buffer: BufferId) -> (items: Vec<RenderItem>)
        ensures
            final(self).pipeline == old(self).pipeline,
            final(self).vertex_buffer == old(self).vertex_buffer,
            final(self).index_buffer == old(self).index_buffer,
            final(self).instance_buffer == Some(instance_buffer),
            items@.len() == 1,
            items@[0].pipeline == old(self).pipeline,
            items@[0].vertex_buffers@ == seq![old(self).vertex_buffer, instance_buffer],
            items@[0].draw_technique == (DrawTechnique::Indexed {
                index_buffer: old(self).index_buffer,
                indices_start: 0,
                indices_end: QUAD_INDEX_COUNT,
            }),
            items@[0].instances_start == 0,
            items@[0].instances_end == instance_count,
    {
        self.instance_buffer = Some(instance_buffer);
        let mut vertex_buffers: Vec<BufferId> = Vec::new();
        vertex_buffers.push(self.vertex_buffer);
        vertex_buffers.push(instance_buffer);
        assert(vertex_buffers@ =~= seq![self.vertex_buffer, instance_buffer]);
        let item = RenderItem {
            pipeline: self.pipeline,
            vertex_buffers,
            draw_technique: DrawTechnique::Indexed {
                index_buffer: self.index_buffer,
                indices_start: 0,
                indices_end: QUAD_INDEX_COUNT,
            },
            instances_start: 0,
            instances_end: instance_count,
        };
        let mut items: Vec<RenderItem> = Vec::new();
        items.push(item);
        items
    }
}

} // verus!
