//! The opaque handle of a compiled and linked shader program.
//!
//! Compiling and linking shader sources is the program compiler's job
//! (an external collaborator); what the renderer owns for the lifetime
//! of its batches is only the identity that came back from it.

use vstd::prelude::*;

verus! {

/// The identity of a linked shader program, as handed out by the
/// program compiler.
#[derive(Clone, Copy, PartialEq, Eq, Structural, Debug)]
pub struct ShaderProgram {
    pub handler: u32,
}

} // verus!
