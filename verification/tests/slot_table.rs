use cardless::batch::{Batch, DEFAULT_GEOMETRY_CAPACITY, DEFAULT_TEXTURE_SLOT_CAPACITY};
use cardless::simple2d_renderer::Simple2DVertex;
use cardless::texture::Texture;

#[test]
fn batch_new_defaults() {
    let b = Batch::<Simple2DVertex>::new();
    assert_eq!(b.vbo_capacity, DEFAULT_GEOMETRY_CAPACITY);
    assert_eq!(b.ebo_capacity, DEFAULT_GEOMETRY_CAPACITY);
    assert_eq!(b.textures_capacity, DEFAULT_TEXTURE_SLOT_CAPACITY);
    assert_eq!(b.vbo_capacity, 2048);
    assert_eq!(b.ebo_capacity, 2048);
    assert_eq!(b.textures_capacity, 16);
    assert_eq!(b.vbo.data.len(), 0);
    assert_eq!(b.ebo.data.len(), 0);
    assert_eq!(b.textures.len(), 0);
    assert_eq!(b.vbo.handler, 0);
    assert_eq!(b.ebo.handler, 0);
}

#[test]
fn get_texture_slot_allocates_in_insertion_order() {
    let mut b = Batch::<Simple2DVertex>::new();
    for i in 0..16u32 {
        let t = Texture { handler: 1000 + i };
        assert_eq!(b.get_texture_slot(&t), Some(i as i32));
    }
    assert_eq!(b.textures.len(), 16);
    for (slot, handler) in b.textures.iter().enumerate() {
        assert_eq!(*handler, 1000 + slot as u32);
    }
}

#[test]
fn get_texture_slot_reuses_resident_identity() {
    let mut b = Batch::<Simple2DVertex>::new();
    let ta = Texture { handler: 7 };
    let tb = Texture { handler: 8 };
    assert_eq!(b.get_texture_slot(&ta), Some(0));
    assert_eq!(b.get_texture_slot(&tb), Some(1));
    assert_eq!(b.get_texture_slot(&ta), Some(0));
    assert_eq!(b.get_texture_slot(&tb), Some(1));
    assert_eq!(b.textures, vec![7, 8]);
}

#[test]
fn get_texture_slot_full_table_signals_without_mutating() {
    let mut b = Batch::<Simple2DVertex>::new();
    for i in 0..16u32 {
        let t = Texture { handler: i };
        assert_eq!(b.get_texture_slot(&t), Some(i as i32));
    }
    let fresh = Texture { handler: 999 };
    assert_eq!(b.get_texture_slot(&fresh), None);
    assert_eq!(b.textures.len(), 16);
    // a resident identity still resolves while the table is full
    let resident = Texture { handler: 3 };
    assert_eq!(b.get_texture_slot(&resident), Some(3));
    assert_eq!(b.textures.len(), 16);
}
