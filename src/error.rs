//! Failures that the library reports instead of panicking.
use vstd::prelude::*;

verus! {

/// A failure of the streaming layer.
///
/// `NonUniformScale` and `CapacityExceeded` signal malformed scene content;
/// `UnwrittenSlot` and `IndexPastEnd` signal a caller that broke the pools'
/// protocol. These are fatal by design: the caller aborts the frame (or the
/// process) rather than recover. `BufferTooLarge` is a resource-creation
/// failure: it aborts building the pass that asked for the buffer.
#[derive(Clone, Copy, Debug, PartialEq, Eq, Structural)]
pub enum RenderError {
    /// The entity at `entity` (in encounter order) has a transform whose
    /// three basis scales differ in magnitude, so no radius can be read.
    NonUniformScale { entity: usize },
    /// `count` qualifying entities were found, more than the `capacity`
    /// that the record list is laid out for.
    CapacityExceeded { count: usize, capacity: usize },
    /// Frame slot `index` was bound before anything was written to it.
    UnwrittenSlot { index: usize },
    /// A texture slot was written at `index`, past the end (`len`) of the
    /// pool.
    IndexPastEnd { index: usize, len: usize },
    /// Static data of `count` elements cannot be described to the device:
    /// the count does not fit in 32 bits or its byte size in 64.
    BufferTooLarge { count: usize },
}

} // verus!
