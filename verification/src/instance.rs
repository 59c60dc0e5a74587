//! Per-instance data as the GPU consumes it.

use vstd::prelude::*;

use crate::vertex::{matrix_attributes, VertexBufferLayout, VertexStepMode};

verus! {

/// One instance flattened for upload: a model matrix of sixteen 32-bit words.
/// The translation-and-rotation arithmetic that produces the matrix happens
/// outside this crate; what arrives here is the finished matrix.
#[derive(Clone, Copy, Debug)]
pub struct InstanceRaw {
    pub model: [[u32; 4]; 4],
}

impl InstanceRaw {
    /// Wraps a finished model matrix.
    pub fn new(model: [[u32; 4]; 4]) -> (r: InstanceRaw)
        ensures
            r.model == model,
    {
        InstanceRaw { model }
    }

    /// The instance buffer layout: the matrix is chopped up into four-word
    /// columns at shader locations 2 through 5 and reassembled in the shader.
    pub fn layout() -> (l: VertexBufferLayout)
        ensures
            l.array_stride == 64,
            l.step_mode == VertexStepMode::Instance,
            l.attributes@ == matrix_attributes(),
            l.wf(),
    {
        crate::vertex::matrix_instance_layout()
    }
}

} // verus!
