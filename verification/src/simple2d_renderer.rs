//! The batch renderer: the orchestration layer over one batch.
//!
//! `push_square` and `push_square_texture` accumulate quads; the renderer
//! decides when capacity forces an implicit flush.  A flush is handed
//! back as a [`DrawCall`] value: the records to upload, the texture
//! identities to bind slot by slot, and (implicitly, by the length of
//! the index sequence) the size of the one indexed draw to issue.  The
//! unverified graphics backend performs the draw call; the core only
//! decides when to flush and what a flush consists of.

use vstd::prelude::*;

use crate::batch::{alloc_slot, alloc_table, allocates, Batch};
use crate::shader_program::ShaderProgram;
use crate::texture::Texture;
use crate::vertex_attribute::{Vertex, VertexAttribute, VertexAttributeType};

verus! {

/// A 2D point or extent, in the renderer's integer coordinate space.
#[derive(Clone, Copy, PartialEq, Eq, Structural, Debug)]
pub struct Vec2 {
    pub x: i32,
    pub y: i32,
}

/// The vertex record of the 2D renderer: position, texture coordinate,
/// and the batch-local texture slot the fragment samples from.
#[derive(Clone, Copy, PartialEq, Eq, Structural, Debug)]
pub struct Simple2DVertex {
    pub pos: Vec2,
    pub uv: Vec2,
    pub texture: i32,
}

/// The attribute layout the backend uses to interpret an uploaded
/// `Simple2DVertex` record: position at byte offset 0, texture
/// coordinate at byte offset 8, texture slot at byte offset 16,
/// 20 bytes of stride in all.
pub open spec fn simple2d_attributes() -> Seq<VertexAttribute> {
    seq![
        (VertexAttribute {
            attribute_type: VertexAttributeType::F32,
            size: 2,
            normalized: false,
            stride: 20,
            width: 0,
        }),
        (VertexAttribute {
            attribute_type: VertexAttributeType::F32,
            size: 2,
            normalized: false,
            stride: 20,
            width: 8,
        }),
        (VertexAttribute {
            attribute_type: VertexAttributeType::I32,
            size: 1,
            normalized: false,
            stride: 20,
            width: 16,
        }),
    ]
}

impl Vertex for Simple2DVertex {
    fn get_attributes_layout() -> (r: Vec<VertexAttribute>)
        ensures
            r@ == simple2d_attributes(),
    {
        let mut layout: Vec<VertexAttribute> = Vec::new();
        layout.push(VertexAttribute::new(VertexAttributeType::F32, 2, false, 20, 0));
        layout.push(VertexAttribute::new(VertexAttributeType::F32, 2, false, 20, 8));
        layout.push(VertexAttribute::new(VertexAttributeType::I32, 1, false, 20, 16));
        layout
    }
}

/// The four corner vertices of one quad, in emission order: origin,
/// right, up, opposite — with texture coordinates (0,0), (1,0), (0,1),
/// (1,1), every vertex carrying the resolved texture slot.
pub open spec fn quad_vertices(pos: Vec2, size: Vec2, slot: i32) -> Seq<Simple2DVertex> {
    seq![
        (Simple2DVertex { pos: pos, uv: (Vec2 { x: 0, y: 0 }), texture: slot }),
        (Simple2DVertex {
            pos: (Vec2 { x: (pos.x + size.x) as i32, y: pos.y }),
            uv: (Vec2 { x: 1, y: 0 }),
            texture: slot,
        }),
        (Simple2DVertex {
            pos: (Vec2 { x: pos.x, y: (pos.y + size.y) as i32 }),
            uv: (Vec2 { x: 0, y: 1 }),
            texture: slot,
        }),
        (Simple2DVertex {
            pos: (Vec2 { x: (pos.x + size.x) as i32, y: (pos.y + size.y) as i32 }),
            uv: (Vec2 { x: 1, y: 1 }),
            texture: slot,
        }),
    ]
}

/// The six indices of one quad: the fixed fan pattern {0,1,2, 2,1,3}
/// offset by the position of the quad's first vertex.
pub open spec fn quad_indices(first: int) -> Seq<u32> {
    seq![
        first as u32,
        (first + 1) as u32,
        (first + 2) as u32,
        (first + 2) as u32,
        (first + 1) as u32,
        (first + 3) as u32,
    ]
}

/// Whether appending one more quad (4 vertices, 6 indices) would exceed
/// a geometry buffer's capacity.
pub open spec fn geometry_overflow(verts: int, idxs: int, vcap: int, icap: int) -> bool {
    verts + 4 > vcap || idxs + 6 > icap
}

/// The slot table after a flush: cleared only when it was exactly at
/// capacity, kept untouched otherwise so later batches can reuse the
/// resident slot assignments.
pub open spec fn flushed_textures(t: Seq<u32>, cap: int) -> Seq<u32> {
    if t.len() == cap {
        Seq::empty()
    } else {
        t
    }
}

/// Everything the backend must do for one flush: upload `vertices` and
/// `indices`, bind `bindings[i]` to texture unit `i` for every resident
/// `i`, and issue one indexed draw over all of `indices`.
pub struct DrawCall {
    pub vertices: Vec<Simple2DVertex>,
    pub indices: Vec<u32>,
    pub bindings: Vec<u32>,
}

/// The orchestration layer: one shader program handle and one batch.
pub struct BatchRenderer {
    pub shader: ShaderProgram,
    pub batch: Batch<Simple2DVertex>,
}

/// The parts of a renderer that no push or flush ever changes: the
/// program handle, the capacities, and the GPU-side buffer identities.
pub open spec fn same_pipeline(a: BatchRenderer, b: BatchRenderer) -> bool {
    &&& a.shader == b.shader
    &&& a.batch.vbo_capacity == b.batch.vbo_capacity
    &&& a.batch.ebo_capacity == b.batch.ebo_capacity
    &&& a.batch.textures_capacity == b.batch.textures_capacity
    &&& a.batch.vbo.handler == b.batch.vbo.handler
    &&& a.batch.ebo.handler == b.batch.ebo.handler
    &&& a.batch.vbo.buffer_type == b.batch.vbo.buffer_type
    &&& a.batch.ebo.buffer_type == b.batch.ebo.buffer_type
}

impl BatchRenderer {
    pub open spec fn wf(&self) -> bool {
        self.batch.wf()
    }

    /// A renderer over an already compiled program: the program compiler
    /// (an external collaborator) turns shader sources into the handle.
    pub fn new(shader: ShaderProgram) -> (r: Self)
        ensures
            r.wf(),
            r.shader == shader,
            r.batch.vbo_capacity == crate::batch::DEFAULT_GEOMETRY_CAPACITY,
            r.batch.ebo_capacity == crate::batch::DEFAULT_GEOMETRY_CAPACITY,
            r.batch.textures_capacity == crate::batch::DEFAULT_TEXTURE_SLOT_CAPACITY,
            r.batch.vbo.data@.len() == 0,
            r.batch.ebo.data@.len() == 0,
            r.batch.textures@.len() == 0,
    {
        let batch = Batch::new();
        Self { shader, batch }
    }

    /// The sampler-unit list to load into the shader's texture sampler
    /// array once per renderer activation: the fixed sequence
    /// `[0..capacity)`, establishing that slot `i` samples from texture
    /// unit `i`.
    pub fn bind(&self) -> (samplers: Vec<i32>)
        requires
            self.wf(),
        ensures
            samplers@.len() == self.batch.textures_capacity,
            forall|i: int| 0 <= i < samplers@.len() ==> samplers@[i] == i,
    {
        let mut samplers: Vec<i32> = Vec::new();
        let cap = self.batch.textures_capacity;
        let mut i: usize = 0;
        while i < cap
            invariant
                i <= cap,
                cap <= i32::MAX as usize,
                samplers@.len() == i,
                forall|j: int| 0 <= j < i ==> samplers@[j] == j,
            decreases cap - i,
        {
            samplers.push(i as i32);
            i += 1;
        }
        samplers
    }

    /// Upload-and-draw decision point.  Hands back the full current
    /// contents of the batch as one draw call, clears both geometry
    /// buffers unconditionally, and clears the slot table only when it
    /// was exactly at capacity.  On an empty batch this is a valid
    /// no-op draw call of zero indices.
    #[verifier::loop_isolation(false)]
    pub fn flush(&mut self) -> (dc: DrawCall)
        requires
            old(self).wf(),
        ensures
            final(self).wf(),
            same_pipeline(*old(self), *final(self)),
            dc.vertices@ == old(self).batch.vbo.data@,
            dc.indices@ == old(self).batch.ebo.data@,
            dc.bindings@ == old(self).batch.textures@,
            final(self).batch.vbo.data@.len() == 0,
            final(self).batch.ebo.data@.len() == 0,
            final(self).batch.textures@ == flushed_textures(
                old(self).batch.textures@,
                old(self).batch.textures_capacity as int,
            ),
    {
        let mut vertices: Vec<Simple2DVertex> = Vec::new();
        core::mem::swap(&mut vertices, &mut self.batch.vbo.data);
        let mut indices: Vec<u32> = Vec::new();
        core::mem::swap(&mut indices, &mut self.batch.ebo.data);

        let mut bindings: Vec<u32> = Vec::new();
        let n = self.batch.textures.len();
        let mut i: usize = 0;
        while i < n
            invariant
                i <= n,
                bindings@ == self.batch.textures@.take(i as int),
            decreases n - i,
        {
            bindings.push(self.batch.textures[i]);
            i += 1;
        }
        if self.batch.textures.len() == self.batch.textures_capacity {
            self.batch.textures.clear();
        }

        DrawCall { vertices, indices, bindings }
    }

    /// Append the four corner vertices and six fan indices of one quad,
    /// each vertex carrying `slot` as its texture reference.
    fn emit_quad(&mut self, pos: Vec2, size: Vec2, slot: i32)
        requires
            old(self).wf(),
            old(self).batch.vbo.data@.len() + 4 <= old(self).batch.vbo_capacity,
            old(self).batch.ebo.data@.len() + 6 <= old(self).batch.ebo_capacity,
            i32::MIN <= pos.x + size.x <= i32::MAX,
            i32::MIN <= pos.y + size.y <= i32::MAX,
        ensures
            final(self).wf(),
            same_pipeline(*old(self), *final(self)),
            final(self).batch.textures@ == old(self).batch.textures@,
            final(self).batch.vbo.data@ == old(self).batch.vbo.data@ + quad_vertices(
                pos,
                size,
                slot,
            ),
            final(self).batch.ebo.data@ == old(self).batch.ebo.data@ + quad_indices(
                old(self).batch.vbo.data@.len() as int,
            ),
    {
        let first_vertex = self.batch.vbo.data.len() as u32;

        self.batch.vbo.push(
            Simple2DVertex { pos, uv: Vec2 { x: 0, y: 0 }, texture: slot },
        );
        self.batch.vbo.push(
            Simple2DVertex {
                pos: Vec2 { x: pos.x + size.x, y: pos.y },
                uv: Vec2 { x: 1, y: 0 },
                texture: slot,
            },
        );
        self.batch.vbo.push(
            Simple2DVertex {
                pos: Vec2 { x: pos.x, y: pos.y + size.y },
                uv: Vec2 { x: 0, y: 1 },
                texture: slot,
            },
        );
        self.batch.vbo.push(
            Simple2DVertex {
                pos: Vec2 { x: pos.x + size.x, y: pos.y + size.y },
                uv: Vec2 { x: 1, y: 1 },
                texture: slot,
            },
        );

        self.batch.ebo.push(first_vertex);
        self.batch.ebo.push(first_vertex + 1);
        self.batch.ebo.push(first_vertex + 2);
        self.batch.ebo.push(first_vertex + 2);
        self.batch.ebo.push(first_vertex + 1);
        self.batch.ebo.push(first_vertex + 3);
    }

    /// Push one untextured quad, under the convention that slot 0 stands
    /// for "no texture".  If the quad would overflow either geometry
    /// buffer, the batch is flushed first and the flush's draw call is
    /// handed back.
    pub fn push_square(&mut self, pos: Vec2, size: Vec2) -> (flushed: Option<DrawCall>)
        requires
            old(self).wf(),
            i32::MIN <= pos.x + size.x <= i32::MAX,
            i32::MIN <= pos.y + size.y <= i32::MAX,
        ensures
            final(self).wf(),
            same_pipeline(*old(self), *final(self)),
            ({
                let geo = geometry_overflow(
                    old(self).batch.vbo.data@.len() as int,
                    old(self).batch.ebo.data@.len() as int,
                    old(self).batch.vbo_capacity as int,
                    old(self).batch.ebo_capacity as int,
                );
                let v0 = if geo { Seq::<Simple2DVertex>::empty() } else {
                    old(self).batch.vbo.data@
                };
                let i0 = if geo { Seq::<u32>::empty() } else { old(self).batch.ebo.data@ };
                &&& final(self).batch.vbo.data@ == v0 + quad_vertices(pos, size, 0)
                &&& final(self).batch.ebo.data@ == i0 + quad_indices(v0.len() as int)
                &&& final(self).batch.textures@ == (if geo {
                    flushed_textures(
                        old(self).batch.textures@,
                        old(self).batch.textures_capacity as int,
                    )
                } else {
                    old(self).batch.textures@
                })
                &&& (flushed is Some <==> geo)
                &&& (match flushed {
                    Some(dc) => {
                        &&& dc.vertices@ == old(self).batch.vbo.data@
                        &&& dc.indices@ == old(self).batch.ebo.data@
                        &&& dc.bindings@ == old(self).batch.textures@
                    },
                    None => true,
                })
            }),
    {
        let mut flushed: Option<DrawCall> = None;
        if self.batch.vbo.data.len() + 4 > self.batch.vbo_capacity
            || self.batch.ebo.data.len() + 6 > self.batch.ebo_capacity {
            flushed = Some(self.flush());
        }

        self.emit_quad(pos, size, 0);
        flushed
    }

    /// Push one textured quad.  If the quad would overflow either
    /// geometry buffer, or the texture is new and the slot table is
    /// full, the batch is flushed first (at most one flush per push)
    /// and the flush's draw call is handed back; the quad's vertices
    /// then carry the slot the texture resolved to.
    pub fn push_square_texture(
        &mut self,
        pos: Vec2,
        size: Vec2,
        texture: &Texture,
    ) -> (flushed: Option<DrawCall>)
        requires
            old(self).wf(),
            i32::MIN <= pos.x + size.x <= i32::MAX,
            i32::MIN <= pos.y + size.y <= i32::MAX,
        ensures
            final(self).wf(),
            same_pipeline(*old(self), *final(self)),
            ({
                let h = texture.handler;
                let tcap = old(self).batch.textures_capacity as int;
                let geo = geometry_overflow(
                    old(self).batch.vbo.data@.len() as int,
                    old(self).batch.ebo.data@.len() as int,
                    old(self).batch.vbo_capacity as int,
                    old(self).batch.ebo_capacity as int,
                );
                let t1 = if geo { flushed_textures(old(self).batch.textures@, tcap) } else {
                    old(self).batch.textures@
                };
                let slot_full = !allocates(t1, h, tcap);
                let t2 = if slot_full { Seq::<u32>::empty() } else { t1 };
                let v0 = if geo || slot_full { Seq::<Simple2DVertex>::empty() } else {
                    old(self).batch.vbo.data@
                };
                let i0 = if geo || slot_full { Seq::<u32>::empty() } else {
                    old(self).batch.ebo.data@
                };
                let slot = alloc_slot(t2, h);
                &&& final(self).batch.textures@ == alloc_table(t2, h)
                &&& final(self).batch.vbo.data@ == v0 + quad_vertices(pos, size, slot as i32)
                &&& final(self).batch.ebo.data@ == i0 + quad_indices(v0.len() as int)
                &&& (flushed is Some <==> geo || slot_full)
                &&& (match flushed {
                    Some(dc) => {
                        &&& dc.vertices@ == old(self).batch.vbo.data@
                        &&& dc.indices@ == old(self).batch.ebo.data@
                        &&& dc.bindings@ == old(self).batch.textures@
                    },
                    None => true,
                })
            }),
    {
        let mut flushed: Option<DrawCall> = None;
        if self.batch.vbo.data.len() + 4 > self.batch.vbo_capacity
            || self.batch.ebo.data.len() + 6 > self.batch.ebo_capacity {
            flushed = Some(self.flush());
        }

        let slot = match self.batch.get_texture_slot(texture) {
            Some(slot) => slot,
            None => {
                // The slot table was full and untouched by any geometry
                // flush (a flush always leaves room), so this is the one
                // flush of this push; it clears the table and the retry
                // lands in an empty one.
                flushed = Some(self.flush());
                self.batch.get_texture_slot(texture).unwrap()
            },
        };

        self.emit_quad(pos, size, slot);
        flushed
    }
}

} // verus!
