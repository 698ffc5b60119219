//! Description of how the raw bytes of a vertex record are to be
//! interpreted by the rendering backend, one attribute at a time.

use vstd::prelude::*;

verus! {

/// The scalar type of one vertex attribute.
#[derive(Clone, Copy, PartialEq, Eq, Structural, Debug)]
pub enum VertexAttributeType {
    F32,
    I32,
    U32,
}

/// One attribute of a vertex layout: its scalar type, how many components
/// it has, whether the backend should normalize it, the byte stride of a
/// whole vertex record, and the attribute's byte offset within the record.
#[derive(Clone, Copy, PartialEq, Eq, Structural, Debug)]
pub struct VertexAttribute {
    pub attribute_type: VertexAttributeType,
    pub size: usize,
    pub normalized: bool,
    pub stride: usize,
    pub width: usize,
}

impl VertexAttribute {
    pub fn new(
        attribute_type: VertexAttributeType,
        size: usize,
        normalized: bool,
        stride: usize,
        width: usize,
    ) -> (r: Self)
        ensures
            r == (VertexAttribute { attribute_type, size, normalized, stride, width }),
    {
        Self { attribute_type, size, normalized, stride, width }
    }
}

/// A vertex variant: a fixed-layout record that declares its own attribute
/// layout, so the rendering backend can interpret the raw buffer.
pub trait Vertex: Sized {
    fn get_attributes_layout() -> Vec<VertexAttribute>;
}

} // verus!
