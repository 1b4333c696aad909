//! Tests of the drawable pipeline: draw items, geometry data, and
//! instance packing.

use quadrender::Color;
use quadrender::DrawTechnique;
use quadrender::INSTANCE_STRIDE;
use quadrender::QUAD_INDEX_COUNT;
use quadrender::RectangleInstance;
use quadrender::RectangleRenderer;
use quadrender::ScreenPosition;
use quadrender::pack_instances;
use quadrender::quad_index_data;
use quadrender::quad_vertex_data;

fn instance(px: f32, py: f32, sx: f32, sy: f32, r: f32, g: f32, b: f32) -> RectangleInstance {
    RectangleInstance {
        position: ScreenPosition(px.to_bits(), py.to_bits()),
        size: ScreenPosition(sx.to_bits(), sy.to_bits()),
        color: Color(r.to_bits(), g.to_bits(), b.to_bits()),
    }
}

#[test]
fn one_item_per_instance_set_size() {
    for n in 0u32..8 {
        let mut rect = RectangleRenderer::new(1, 2, 3);
        let items = rect.get_items(n, 40);
        assert_eq!(items.len(), 1);
        assert_eq!(items[0].instances_start, 0);
        assert_eq!(items[0].instances_end, n);
        assert_eq!(items[0].pipeline, 1);
        assert_eq!(items[0].vertex_buffers, vec![2, 40]);
        assert_eq!(rect.instance_buffer, Some(40));
    }
}

#[test]
fn item_uses_indexed_quad() {
    let mut rect = RectangleRenderer::new(1, 2, 3);
    let items = rect.get_items(5, 40);
    assert_eq!(
        items[0].draw_technique,
        DrawTechnique::Indexed { index_buffer: 3, indices_start: 0, indices_end: QUAD_INDEX_COUNT }
    );
}

#[test]
fn instance_buffer_replaced_each_frame() {
    let mut rect = RectangleRenderer::new(1, 2, 3);
    assert_eq!(rect.instance_buffer, None);
    let _ = rect.get_items(1, 40);
    assert_eq!(rect.instance_buffer, Some(40));
    let _ = rect.get_items(1, 41);
    assert_eq!(rect.instance_buffer, Some(41));
}

#[test]
fn quad_vertex_data_is_four_corners() {
    let data = quad_vertex_data();
    let corners: [f32; 8] = [1.0, 1.0, -1.0, 1.0, -1.0, -1.0, 1.0, -1.0];
    let mut expected: Vec<u8> = Vec::new();
    for c in corners {
        expected.extend_from_slice(&c.to_bits().to_le_bytes());
    }
    assert_eq!(data, expected);
}

#[test]
fn quad_index_data_is_two_triangles() {
    let data = quad_index_data();
    let indices: [u16; 6] = [0, 1, 2, 2, 3, 0];
    let mut expected: Vec<u8> = Vec::new();
    for i in indices {
        expected.extend_from_slice(&i.to_le_bytes());
    }
    assert_eq!(data, expected);
    assert_eq!(data.len(), 12);
}

#[test]
fn packed_instances_are_verbatim_little_endian() {
    let a = instance(0.25, -0.5, 0.1, 0.2, 0.5, 0.7, 0.8);
    let b = instance(0.0, 0.0, 1.0, 1.0, 0.0, 0.0, 0.0);
    let packed = pack_instances(&vec![a, b]);
    assert_eq!(packed.len(), 2 * INSTANCE_STRIDE);
    let mut expected: Vec<u8> = Vec::new();
    for v in [0.25f32, -0.5, 0.1, 0.2, 0.5, 0.7, 0.8, 0.0, 0.0, 1.0, 1.0, 0.0, 0.0, 0.0] {
        expected.extend_from_slice(&v.to_bits().to_le_bytes());
    }
    assert_eq!(packed, expected);
}

#[test]
fn packing_empty_set_yields_empty_buffer() {
    let packed = pack_instances(&Vec::new());
    assert_eq!(packed.len(), 0);
}
