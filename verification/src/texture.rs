//! A texture identity.
//!
//! The core never reads pixels: decoding an image and uploading it to a
//! GPU texture object is the backend's job, and what comes back from that
//! upload is an opaque handle.  Everything the batching logic needs is
//! the identity carried here.

use vstd::prelude::*;

verus! {

/// The identity of a GPU texture object, as handed out by the backend
/// after it uploaded the decoded pixels.
#[derive(Clone, Copy, PartialEq, Eq, Structural, Debug)]
pub struct Texture {
    pub handler: u32,
}

} // verus!
