//! A geometry buffer: a CPU-side sequence of records paired with the
//! identity of the GPU-side store that mirrors it.
//!
//! The buffer itself enforces no capacity: capacity is checked by the
//! owning renderer before a whole primitive's worth of records is pushed.
//! Uploading the records to the GPU store is the backend's job; the
//! backend reads `data` and `handler` and performs the upload.

use vstd::prelude::*;

verus! {

/// Which kind of GPU store backs the buffer.
#[derive(Clone, Copy, PartialEq, Eq, Structural, Debug)]
pub enum BufferType {
    VERTEX,
    ELEMENT,
}

/// A capacity-free growable sequence of records plus the handle of the
/// GPU-side store tied to it.  `handler` is 0 until the backend has
/// created the store and recorded its identity here.
pub struct Buffer<T> {
    pub handler: u32,
    pub data: Vec<T>,
    pub buffer_type: BufferType,
}

impl<T> Buffer<T> {
    pub fn new(buffer_type: BufferType, data: Vec<T>) -> (r: Self)
        ensures
            r.handler == 0,
            r.data == data,
            r.buffer_type == buffer_type,
    {
        Self { handler: 0, data, buffer_type }
    }

    /// Append one record.  No capacity check happens here: the owning
    /// renderer checks capacity before pushing a whole primitive.
    pub fn push(&mut self, record: T)
        ensures
            final(self).data@ == old(self).data@.push(record),
            final(self).handler == old(self).handler,
            final(self).buffer_type == old(self).buffer_type,
    {
        self.data.push(record);
    }
}

} // verus!
