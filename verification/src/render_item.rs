//! Draw items and the command form a render pass records them into.
//!
//! A draw item is a passive descriptor: a bound pipeline handle, an
//! ordered list of vertex-buffer bindings, one draw technique, and an
//! instance range. The frame controller consumes items uniformly,
//! without knowing which drawable pipeline produced them: each item
//! becomes a short command sequence — bind the pipeline, bind every
//! vertex buffer at its positional slot, then either draw a vertex range
//! or bind the index buffer and draw an index range, both instanced.
//!
//! GPU objects are opaque to this library; the host names them by
//! handle. A handle carries no meaning here beyond identity.

use vstd::prelude::*;

verus! {

/// Names a compiled render pipeline owned by the host.
pub type PipelineId = u64;

/// Names a GPU buffer owned by the host.
pub type BufferId = u64;

/// How one item draws: a plain vertex range, or an index range read
/// from an index buffer. Exactly one variant per item.
#[derive(Clone, Copy, Debug, PartialEq, Eq, Structural)]
pub enum DrawTechnique {
    VertexOnly { vertices_start: u32, vertices_end: u32 },
    Indexed { index_buffer: BufferId, indices_start: u32, indices_end: u32 },
}

/// A frame-scoped descriptor of one instanced draw: constructed fresh
/// each frame, recorded once, never persisted.
#[derive(Debug)]
pub struct RenderItem {
    pub pipeline: PipelineId,
    pub vertex_buffers: Vec<BufferId>,
    pub draw_technique: DrawTechnique,
    pub instances_start: u32,
    pub instances_end: u32,
}

/// One step of a render pass, in recording order.
#[derive(Clone, Copy, Debug, PartialEq, Eq, Structural)]
pub enum RenderCommand {
    BindPipeline(PipelineId),
    BindVertexBuffer { slot: u32, buffer: BufferId },
    BindIndexBuffer(BufferId),
    Draw { vertices_start: u32, vertices_end: u32, instances_start: u32, instances_end: u32 },
    DrawIndexed { indices_start: u32, indices_end: u32, instances_start: u32, instances_end: u32 },
}

/// An item's vertex-buffer list must be addressable by 32-bit slot
/// numbers.
pub open spec fn item_wf(item: RenderItem) -> bool {
    item.vertex_buffers@.len() <= u32::MAX
}

/// The vertex-buffer bindings of one item: buffer `k` at slot `k`.
pub open spec fn binding_commands(buffers: Seq<BufferId>) -> Seq<RenderCommand> {
    Seq::new(buffers.len(), |k: int| RenderCommand::BindVertexBuffer { slot: k as u32, buffer: buffers[k] })
}

/// The closing commands of one item: its technique's draw, with the
/// index-buffer binding first where the technique is indexed.
pub open spec fn technique_commands(item: RenderItem) -> Seq<RenderCommand> {
    match item.draw_technique {
        DrawTechnique::VertexOnly { vertices_start, vertices_end } => seq![
            RenderCommand::Draw {
                vertices_start,
                vertices_end,
                instances_start: item.instances_start,
                instances_end: item.instances_end,
            },
        ],
        DrawTechnique::Indexed { index_buffer, indices_start, indices_end } => seq![
            RenderCommand::BindIndexBuffer(index_buffer),
            RenderCommand::DrawIndexed {
                indices_start,
                indices_end,
                instances_start: item.instances_start,
                instances_end: item.instances_end,
            },
        ],
    }
}

/// The full command sequence of one item.
pub open spec fn item_commands(item: RenderItem) -> Seq<RenderCommand> {
    seq![RenderCommand::BindPipeline(item.pipeline)] + binding_commands(item.vertex_buffers@)
        + technique_commands(item)
}

/// The command sequence of a whole item list, items in order.
pub open spec fn items_commands(items: Seq<RenderItem>) -> Seq<RenderCommand>
    decreases items.len(),
{
    if items.len() == 0 {
        Seq::empty()
    } else {
        items_commands(items.drop_last()) + item_commands(items.last())
    }
}

/// True of a command that issues a draw call.
pub open spec fn is_draw_command(c: RenderCommand) -> bool {
    c is Draw || c is DrawIndexed
}

/// The draw calls of a command sequence, in order.
pub open spec fn draw_commands(cs: Seq<RenderCommand>) -> Seq<RenderCommand> {
    cs.filter(|c: RenderCommand| is_draw_command(c))
}

/// Records one item into a command list.
fn record_item(out: &mut Vec<RenderCommand>, item: &RenderItem)
    requires
        item_wf(*item),
    ensures
        final(out)@ == old(out)@ + item_commands(*item),
{
    out.push(RenderCommand::BindPipeline(item.pipeline));
    let ghost mid = out@;
    let mut k: usize = 0;
    while k < item.vertex_buffers.len()
        invariant
            k <= item.vertex_buffers@.len(),
            item.vertex_buffers@.len() <= u32::MAX,
            out@ == mid + binding_commands(item.vertex_buffers@.subrange(0, k as int)),
        decreases item.vertex_buffers.len() - k,
    {
        out.push(RenderCommand::BindVertexBuffer { slot: k as u32, buffer: item.vertex_buffers[k] });
        proof {
            assert(out@ =~= mid + binding_commands(item.vertex_buffers@.subrange(0, k + 1 as int)));
        }
        k = k + 1;
    }
    proof {
        assert(item.vertex_buffers@.subrange(0, item.vertex_buffers@.len() as int) =~= item.vertex_buffers@);
    }
    match item.draw_technique {
        DrawTechnique::VertexOnly { vertices_start, vertices_end } => {
            out.push(RenderCommand::Draw {
                vertices_start,
                vertices_end,
                instances_start: item.instances_start,
                instances_end: item.instances_end,
            });
        },
        DrawTechnique::Indexed { index_buffer, indices_start, indices_end } => {
            out.push(RenderCommand::BindIndexBuffer(index_buffer));
            out.push(RenderCommand::DrawIndexed {
                indices_start,
                indices_end,
                instances_start: item.instances_start,
                instances_end: item.instances_end,
            });
        },
    }
    assert(out@ =~= old(out)@ + item_commands(*item));
}

/// Records an item list into one flat command sequence: the single
/// render pass of a frame, items in registration order.
pub fn record_items(items: &Vec<RenderItem>) -> (r: Vec<RenderCommand>)
    requires
        forall|i: int| 0 <= i < items@.len() ==> item_wf(#[trigger] items@[i]),
    ensures
        r@ == items_commands(items@),
{
    let mut out: Vec<RenderCommand> = Vec::new();
    let mut i: usize = 0;
    while i < items.len()
        invariant
            i <= items@.len(),
            forall|j: int| 0 <= j < items@.len() ==> item_wf(#[trigger] items@[j]),
            out@ == items_commands(items@.subrange(0, i as int)),
        decreases items.len() - i,
    {
        record_item(&mut out, &items[i]);
        proof {
            let pre = items@.subrange(0, i as int);
            let post = items@.subrange(0, i + 1 as int);
            assert(post.drop_last() =~= pre);
            assert(post.last() == items@[i as int]);
        }
        i = i + 1;
    }
    proof {
        assert(items@.subrange(0, items@.len() as int) =~= items@);
    }
    out
}

} // verus!
