//! One batch: everything needed to draw one flush's worth of primitives.
//!
//! A batch pairs a vertex geometry buffer and an index geometry buffer
//! with a bounded table of texture slots.  The table maps a texture
//! identity to the small integer slot a shader samples from: insertion
//! order is slot order, no identity appears twice, and an identity keeps
//! its slot for as long as it stays resident.

use vstd::prelude::*;

use crate::buffer::{Buffer, BufferType};
use crate::texture::Texture;
use crate::vertex_attribute::Vertex;

verus! {

/// Default record capacity of each geometry buffer.
pub const DEFAULT_GEOMETRY_CAPACITY: usize = 2048;

/// Default capacity of the texture slot table.
pub const DEFAULT_TEXTURE_SLOT_CAPACITY: usize = 16;

/// The slot of `id` in the table `t`: the index of its first occurrence,
/// or `t.len()` when `id` is not resident.
pub open spec fn slot_of(t: Seq<u32>, id: u32) -> int
    decreases t.len(),
{
    if t.len() == 0 {
        0
    } else if t[0] == id {
        0
    } else {
        1 + slot_of(t.drop_first(), id)
    }
}

/// Whether a lookup-or-allocate of `id` against table `t` succeeds:
/// either `id` is already resident, or a free slot is left under `cap`.
pub open spec fn allocates(t: Seq<u32>, id: u32, cap: int) -> bool {
    t.contains(id) || t.len() < cap
}

/// The table after a successful lookup-or-allocate of `id`.
pub open spec fn alloc_table(t: Seq<u32>, id: u32) -> Seq<u32> {
    if t.contains(id) {
        t
    } else {
        t.push(id)
    }
}

/// The slot a successful lookup-or-allocate of `id` returns.
pub open spec fn alloc_slot(t: Seq<u32>, id: u32) -> int {
    if t.contains(id) {
        slot_of(t, id)
    } else {
        t.len() as int
    }
}

/// A first occurrence at index `i` pins `slot_of` down to `i`.
pub proof fn lemma_slot_of_first(t: Seq<u32>, id: u32, i: int)
    requires
        0 <= i < t.len(),
        t[i] == id,
        forall|j: int| 0 <= j < i ==> t[j] != id,
    ensures
        slot_of(t, id) == i,
    decreases t.len(),
{
    if t[0] == id {
        assert(i == 0);
    } else {
        assert(t.drop_first()[i - 1] == t[i]);
        assert(forall|j: int| 0 <= j < i - 1 ==> t.drop_first()[j] == t[j + 1]);
        lemma_slot_of_first(t.drop_first(), id, i - 1);
    }
}

/// For a resident identity, `slot_of` is a valid index, holds the
/// identity, and no earlier index does.
pub proof fn lemma_slot_of_resident(t: Seq<u32>, id: u32)
    requires
        t.contains(id),
    ensures
        0 <= slot_of(t, id) < t.len(),
        t[slot_of(t, id)] == id,
        forall|j: int| 0 <= j < slot_of(t, id) ==> t[j] != id,
    decreases t.len(),
{
    if t[0] == id {
    } else {
        let i = choose|i: int| 0 <= i < t.len() && t[i] == id;
        assert(t.drop_first()[i - 1] == t[i]);
        assert(t.drop_first().contains(id));
        lemma_slot_of_resident(t.drop_first(), id);
        assert forall|j: int| 0 <= j < slot_of(t, id) implies t[j] != id by {
            if j > 0 {
                assert(t.drop_first()[j - 1] == t[j]);
            }
        }
    }
}

/// One bounded unit of accumulated geometry plus its texture bindings.
pub struct Batch<T> where T: Vertex {
    pub vbo_capacity: usize,
    pub vbo: Buffer<T>,

    pub ebo_capacity: usize,
    pub ebo: Buffer<u32>,

    pub textures_capacity: usize,
    pub textures: Vec<u32>,
}

impl<T> Batch<T> where T: Vertex {
    /// Structural invariant: the buffers respect their capacities, the
    /// slot table respects its capacity and holds no identity twice, and
    /// the capacities leave room for one quad and one texture and keep
    /// index and slot arithmetic within `u32` and `i32`.
    pub open spec fn wf(&self) -> bool {
        &&& self.vbo.data@.len() <= self.vbo_capacity
        &&& self.ebo.data@.len() <= self.ebo_capacity
        &&& self.textures@.len() <= self.textures_capacity
        &&& self.textures@.no_duplicates()
        &&& 4 <= self.vbo_capacity
        &&& self.vbo_capacity <= u32::MAX as usize
        &&& self.vbo_capacity <= usize::MAX - 4
        &&& 6 <= self.ebo_capacity
        &&& self.ebo_capacity <= u32::MAX as usize
        &&& self.ebo_capacity <= usize::MAX - 6
        &&& 1 <= self.textures_capacity
        &&& self.textures_capacity <= i32::MAX as usize
    }

    pub fn new() -> (r: Self)
        ensures
            r.wf(),
            r.vbo_capacity == DEFAULT_GEOMETRY_CAPACITY,
            r.ebo_capacity == DEFAULT_GEOMETRY_CAPACITY,
            r.textures_capacity == DEFAULT_TEXTURE_SLOT_CAPACITY,
            r.vbo.data@.len() == 0,
            r.ebo.data@.len() == 0,
            r.textures@.len() == 0,
            r.vbo.handler == 0,
            r.ebo.handler == 0,
            r.vbo.buffer_type == BufferType::VERTEX,
            r.ebo.buffer_type == BufferType::ELEMENT,
    {
        let textures_capacity = DEFAULT_TEXTURE_SLOT_CAPACITY;
        Self {
            vbo_capacity: DEFAULT_GEOMETRY_CAPACITY,
            vbo: Buffer::new(BufferType::VERTEX, Vec::new()),
            ebo_capacity: DEFAULT_GEOMETRY_CAPACITY,
            ebo: Buffer::new(BufferType::ELEMENT, Vec::new()),
            textures_capacity,
            textures: Vec::with_capacity(textures_capacity),
        }
    }

    /// Lookup-or-allocate: the slot of `texture` if it is resident, the
    /// next free slot if one is left, and `None` (without mutating
    /// anything) when the table is full — the caller must flush first.
    #[verifier::loop_isolation(false)]
    pub fn get_texture_slot(&mut self, texture: &Texture) -> (r: Option<i32>)
        requires
            old(self).wf(),
        ensures
            final(self).wf(),
            final(self).vbo.data@ == old(self).vbo.data@,
            final(self).vbo.handler == old(self).vbo.handler,
            final(self).vbo.buffer_type == old(self).vbo.buffer_type,
            final(self).ebo.data@ == old(self).ebo.data@,
            final(self).ebo.handler == old(self).ebo.handler,
            final(self).ebo.buffer_type == old(self).ebo.buffer_type,
            final(self).vbo_capacity == old(self).vbo_capacity,
            final(self).ebo_capacity == old(self).ebo_capacity,
            final(self).textures_capacity == old(self).textures_capacity,
            match r {
                Some(slot) => {
                    &&& allocates(
                        old(self).textures@,
                        texture.handler,
                        old(self).textures_capacity as int,
                    )
                    &&& final(self).textures@ == alloc_table(old(self).textures@, texture.handler)
                    &&& slot as int == alloc_slot(old(self).textures@, texture.handler)
                    &&& 0 <= (slot as int) && (slot as int) < final(self).textures@.len()
                    &&& final(self).textures@[slot as int] == texture.handler
                },
                None => {
                    &&& !allocates(
                        old(self).textures@,
                        texture.handler,
                        old(self).textures_capacity as int,
                    )
                    &&& final(self).textures@ == old(self).textures@
                },
            },
    {
        let handler = texture.handler;
        let n = self.textures.len();
        let mut i: usize = 0;
        while i < n
            invariant
                i <= n,
                forall|j: int| 0 <= j < i ==> self.textures@[j] != handler,
            decreases n - i,
        {
            if self.textures[i] == handler {
                proof {
                    lemma_slot_of_first(self.textures@, handler, i as int);
                }
                return Some(i as i32);
            }
            i += 1;
        }
        assert(!self.textures@.contains(handler));
        let next_slot = self.textures.len();
        if next_slot < self.textures_capacity {
            self.textures.push(handler);
            Some(next_slot as i32)
        } else {
            None
        }
    }
}

} // verus!
