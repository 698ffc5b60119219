use cardless::buffer::{Buffer, BufferType};
use cardless::shader_program::ShaderProgram;
use cardless::simple2d_renderer::{BatchRenderer, Simple2DVertex, Vec2};
use cardless::texture::Texture;
use cardless::vertex_attribute::{Vertex, VertexAttributeType};

fn renderer() -> BatchRenderer {
    BatchRenderer::new(ShaderProgram { handler: 1 })
}

fn v(x: i32, y: i32) -> Vec2 {
    Vec2 { x, y }
}

#[test]
fn single_untextured_quad_round_trip() {
    let mut r = renderer();
    let flushed = r.push_square(v(0, 0), v(2, 2));
    assert!(flushed.is_none());

    let expected = vec![
        Simple2DVertex { pos: v(0, 0), uv: v(0, 0), texture: 0 },
        Simple2DVertex { pos: v(2, 0), uv: v(1, 0), texture: 0 },
        Simple2DVertex { pos: v(0, 2), uv: v(0, 1), texture: 0 },
        Simple2DVertex { pos: v(2, 2), uv: v(1, 1), texture: 0 },
    ];
    assert_eq!(r.batch.vbo.data, expected);
    assert_eq!(r.batch.ebo.data, vec![0, 1, 2, 2, 1, 3]);
    assert_eq!(r.batch.textures.len(), 0);
}

#[test]
fn second_quad_indices_are_offset_by_four() {
    let mut r = renderer();
    assert!(r.push_square(v(0, 0), v(1, 1)).is_none());
    assert!(r.push_square(v(5, 5), v(1, 1)).is_none());
    assert_eq!(r.batch.vbo.data.len(), 8);
    assert_eq!(r.batch.ebo.data, vec![0, 1, 2, 2, 1, 3, 4, 5, 6, 6, 5, 7]);
}

#[test]
fn empty_flush_is_a_noop_draw_call() {
    let mut r = renderer();
    let dc = r.flush();
    assert_eq!(dc.vertices.len(), 0);
    assert_eq!(dc.indices.len(), 0);
    assert_eq!(dc.bindings.len(), 0);
    assert_eq!(r.batch.vbo.data.len(), 0);
    assert_eq!(r.batch.ebo.data.len(), 0);
    assert_eq!(r.batch.textures.len(), 0);
}

#[test]
fn distinct_textures_under_capacity_never_flush() {
    let mut r = renderer();
    // two passes over 16 distinct textures: capacity is never exceeded
    for pass in 0..2 {
        for i in 0..16u32 {
            let t = Texture { handler: 100 + i };
            let flushed = r.push_square_texture(v(i as i32, pass), v(1, 1), &t);
            assert!(flushed.is_none());
        }
    }
    // every texture received one stable, unique slot
    assert_eq!(r.batch.textures.len(), 16);
    for (slot, handler) in r.batch.textures.iter().enumerate() {
        assert_eq!(*handler, 100 + slot as u32);
    }
    // each quad's vertices carry the slot of its texture, both passes alike
    for quad in 0..32 {
        let slot = (quad % 16) as i32;
        for corner in 0..4 {
            assert_eq!(r.batch.vbo.data[quad * 4 + corner].texture, slot);
        }
    }
}

#[test]
fn slot_exhaustion_triggers_exactly_one_flush() {
    let mut r = renderer();
    for i in 0..16u32 {
        let t = Texture { handler: 100 + i };
        assert!(r.push_square_texture(v(0, 0), v(1, 1), &t).is_none());
    }
    let fresh = Texture { handler: 999 };
    let flushed = r.push_square_texture(v(0, 0), v(1, 1), &fresh);
    let dc = flushed.expect("the seventeenth texture must flush the batch");
    assert_eq!(dc.bindings.len(), 16);
    assert_eq!(dc.vertices.len(), 64);
    assert_eq!(dc.indices.len(), 96);
    // the table was at capacity, so the flush cleared it; the fresh
    // texture now occupies slot 0 of the new batch
    assert_eq!(r.batch.textures, vec![999]);
    assert_eq!(r.batch.vbo.data.len(), 4);
    for corner in 0..4 {
        assert_eq!(r.batch.vbo.data[corner].texture, 0);
    }
    assert_eq!(r.batch.ebo.data, vec![0, 1, 2, 2, 1, 3]);
}

#[test]
fn geometry_overflow_flushes_before_the_triggering_quad() {
    let mut r = renderer();
    // at six indices per quad, 341 quads fill the index buffer to 2046
    // of its 2048; one more quad's six indices would exceed it (the
    // vertex buffer, at four records per quad, is only at 1364 of 2048)
    for i in 0..341 {
        assert!(r.push_square(v(i, 0), v(1, 1)).is_none());
    }
    assert_eq!(r.batch.vbo.data.len(), 1364);
    assert_eq!(r.batch.ebo.data.len(), 2046);
    let flushed = r.push_square(v(0, 0), v(1, 1));
    let dc = flushed.expect("the 342nd quad must flush the batch");
    assert_eq!(dc.vertices.len(), 1364);
    assert_eq!(dc.indices.len(), 2046);
    // the buffers were cleared before the triggering quad was appended
    assert_eq!(r.batch.vbo.data.len(), 4);
    assert_eq!(r.batch.ebo.data, vec![0, 1, 2, 2, 1, 3]);
}

#[test]
fn texture_reuse_across_underfull_flush() {
    let mut r = renderer();
    let ta = Texture { handler: 42 };
    assert!(r.push_square_texture(v(0, 0), v(1, 1), &ta).is_none());
    let dc = r.flush();
    assert_eq!(dc.bindings, vec![42]);
    // the table was under capacity: the flush kept its residents
    assert_eq!(r.batch.textures, vec![42]);
    // pushing the same texture again resolves to the original slot
    // without re-appending
    assert!(r.push_square_texture(v(1, 1), v(1, 1), &ta).is_none());
    assert_eq!(r.batch.textures, vec![42]);
    assert_eq!(r.batch.vbo.data[0].texture, 0);
    assert_eq!(r.batch.ebo.data, vec![0, 1, 2, 2, 1, 3]);
}

#[test]
fn same_texture_resolves_to_same_slot_within_a_batch() {
    let mut r = renderer();
    let ta = Texture { handler: 5 };
    let tb = Texture { handler: 6 };
    assert!(r.push_square_texture(v(0, 0), v(1, 1), &ta).is_none());
    assert!(r.push_square_texture(v(1, 0), v(1, 1), &tb).is_none());
    assert!(r.push_square_texture(v(2, 0), v(1, 1), &ta).is_none());
    assert!(r.push_square_texture(v(3, 0), v(1, 1), &ta).is_none());
    assert_eq!(r.batch.textures, vec![5, 6]);
    let slots: Vec<i32> = r.batch.vbo.data.iter().map(|vert| vert.texture).collect();
    let expected_slots = vec![0, 0, 0, 0, 1, 1, 1, 1, 0, 0, 0, 0, 0, 0, 0, 0];
    assert_eq!(slots, expected_slots);
}

#[test]
fn bind_yields_one_sampler_unit_per_slot() {
    let r = renderer();
    let samplers = r.bind();
    let expected: Vec<i32> = (0..16).collect();
    assert_eq!(samplers, expected);
}

#[test]
fn attribute_layout_describes_the_vertex_record() {
    let layout = Simple2DVertex::get_attributes_layout();
    assert_eq!(layout.len(), 3);

    assert_eq!(layout[0].attribute_type, VertexAttributeType::F32);
    assert_eq!(layout[0].size, 2);
    assert!(!layout[0].normalized);
    assert_eq!(layout[0].stride, 20);
    assert_eq!(layout[0].width, 0);

    assert_eq!(layout[1].attribute_type, VertexAttributeType::F32);
    assert_eq!(layout[1].size, 2);
    assert_eq!(layout[1].stride, 20);
    assert_eq!(layout[1].width, 8);

    assert_eq!(layout[2].attribute_type, VertexAttributeType::I32);
    assert_eq!(layout[2].size, 1);
    assert_eq!(layout[2].stride, 20);
    assert_eq!(layout[2].width, 16);
}

#[test]
fn buffer_push_appends_and_keeps_identity() {
    let mut b: Buffer<u32> = Buffer::new(BufferType::ELEMENT, Vec::new());
    assert_eq!(b.handler, 0);
    assert_eq!(b.buffer_type, BufferType::ELEMENT);
    b.push(11);
    b.push(22);
    assert_eq!(b.data, vec![11, 22]);
    assert_eq!(b.buffer_type, BufferType::ELEMENT);
}
