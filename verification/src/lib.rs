//! Core of a 2D sprite batch renderer.
//!
//! Draw requests (axis-aligned quads, optionally textured) accumulate in
//! CPU-side vertex and index buffers together with a bounded table of
//! texture slots.  The renderer decides when the accumulated geometry must
//! be flushed as one draw call; the flush itself is returned as a plain
//! value describing what an unverified graphics backend has to upload,
//! bind and draw.

pub mod batch;
pub mod buffer;
pub mod laws;
pub mod shader_program;
pub mod simple2d_renderer;
pub mod texture;
pub mod vertex_attribute;
