//! Drawing surfaces and the GPU state that fabricates them.
//!
//! A surface is a render target of fixed pixel dimensions whose canvas
//! records the draw commands issued to it. The GPU state stands for the
//! context the host created; it counts the surfaces allocated against it,
//! which is what the reallocation-avoidance contracts are stated over.

use vstd::prelude::*;

use crate::ops::CanvasOp;

verus! {

/// A GPU-backed drawing surface: pixel dimensions plus the ordered log of
/// commands issued to its canvas since creation.
#[derive(Clone, Debug)]
pub struct Surface {
    pub width: i32,
    pub height: i32,
    pub ops: Vec<CanvasOp>,
}

impl Surface {
    /// A fresh surface of exactly the given pixel dimensions, nothing drawn.
    pub fn with_dimensions(width: i32, height: i32) -> (s: Surface)
        ensures
            s.width == width,
            s.height == height,
            s.ops@ == Seq::<CanvasOp>::empty(),
    {
        Surface { width, height, ops: Vec::new() }
    }
}

/// The context handle this core owns once per GPU context. The host performs
/// the actual context handshake; this core tracks how many render-target
/// surfaces were fabricated against the context.
#[derive(Clone, Copy, PartialEq, Eq, Structural, Debug)]
pub struct GpuState {
    pub alloc_count: u64,
}

impl GpuState {
    pub fn new() -> (g: GpuState)
        ensures
            g.alloc_count == 0,
    {
        GpuState { alloc_count: 0 }
    }

    /// Fabricates a render-target surface of exactly the given pixel
    /// dimensions, counting the allocation.
    pub fn create_target_surface(&mut self, width: i32, height: i32) -> (s: Surface)
        requires
            old(self).alloc_count < u64::MAX,
        ensures
            final(self).alloc_count == old(self).alloc_count + 1,
            s.width == width,
            s.height == height,
            s.ops@ == Seq::<CanvasOp>::empty(),
    {
        self.alloc_count = self.alloc_count + 1;
        Surface::with_dimensions(width, height)
    }
}

} // verus!
