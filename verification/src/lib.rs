//! Verified core of a bridge that drives an immediate-mode GUI library inside
//! the event loop of a 2D windowing framework.
//!
//! The bridge's job is translation: host input events become GUI-library input
//! events, and the GUI library's per-frame output (triangle meshes plus
//! texture deltas) becomes host draw calls. This crate holds the decision
//! logic of that translation over plain values — key, button and modifier
//! mapping tables, the pending-input buffer, the texture table with its
//! one-frame-delayed free queue, and triangle winding correction — each with a
//! contract that pins its result down. The embedding layer owns the actual GUI
//! context and graphics backend; it feeds this crate plain values and carries
//! out the commands it returns.

pub mod bridge;
pub mod geom;
pub mod image;
pub mod input;
pub mod keymap;
pub mod mesh;
pub mod texture;

use vstd::prelude::*;

verus! {

/// A condition the bridge cannot recover from mid-frame. The host backend
/// offers no error channel for a partly drawn frame, so the embedding layer
/// treats every variant as fatal.
#[derive(Clone, Copy, PartialEq, Eq, Structural, Debug)]
pub enum BridgeError {
    /// The GUI library produced a primitive that is not a triangle mesh.
    UnsupportedPrimitive,
    /// A texture delta asked to patch a sub-rectangle of an existing texture,
    /// which the bridge does not implement.
    PartialUpdateUnsupported,
    /// A mesh referenced a managed texture identifier with no live entry in
    /// the texture table.
    TextureMissing(u64),
    /// A mesh index pointed past the end of its vertex buffer.
    IndexOutOfBounds,
}

} // verus!
