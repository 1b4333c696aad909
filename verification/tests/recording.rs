//! Tests of draw-item recording: how items flatten into one pass's
//! command sequence.

use quadrender::DrawTechnique;
use quadrender::RenderCommand;
use quadrender::RenderItem;
use quadrender::record_items;

#[test]
fn vertex_only_item_records_plain_draw() {
    let item = RenderItem {
        pipeline: 3,
        vertex_buffers: vec![8],
        draw_technique: DrawTechnique::VertexOnly { vertices_start: 0, vertices_end: 4 },
        instances_start: 0,
        instances_end: 2,
    };
    let commands = record_items(&vec![item]);
    assert_eq!(
        commands,
        vec![
            RenderCommand::BindPipeline(3),
            RenderCommand::BindVertexBuffer { slot: 0, buffer: 8 },
            RenderCommand::Draw {
                vertices_start: 0,
                vertices_end: 4,
                instances_start: 0,
                instances_end: 2,
            },
        ]
    );
}

#[test]
fn indexed_item_binds_index_buffer_before_drawing() {
    let item = RenderItem {
        pipeline: 1,
        vertex_buffers: vec![5, 6],
        draw_technique: DrawTechnique::Indexed { index_buffer: 7, indices_start: 0, indices_end: 6 },
        instances_start: 0,
        instances_end: 9,
    };
    let commands = record_items(&vec![item]);
    assert_eq!(
        commands,
        vec![
            RenderCommand::BindPipeline(1),
            RenderCommand::BindVertexBuffer { slot: 0, buffer: 5 },
            RenderCommand::BindVertexBuffer { slot: 1, buffer: 6 },
            RenderCommand::BindIndexBuffer(7),
            RenderCommand::DrawIndexed {
                indices_start: 0,
                indices_end: 6,
                instances_start: 0,
                instances_end: 9,
            },
        ]
    );
}

#[test]
fn items_record_in_registration_order() {
    let first = RenderItem {
        pipeline: 1,
        vertex_buffers: vec![],
        draw_technique: DrawTechnique::VertexOnly { vertices_start: 0, vertices_end: 3 },
        instances_start: 0,
        instances_end: 1,
    };
    let second = RenderItem {
        pipeline: 2,
        vertex_buffers: vec![],
        draw_technique: DrawTechnique::VertexOnly { vertices_start: 3, vertices_end: 6 },
        instances_start: 0,
        instances_end: 1,
    };
    let commands = record_items(&vec![first, second]);
    assert_eq!(commands.len(), 4);
    assert_eq!(commands[0], RenderCommand::BindPipeline(1));
    assert_eq!(commands[2], RenderCommand::BindPipeline(2));
}
