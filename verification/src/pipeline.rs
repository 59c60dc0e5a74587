//! The state a render pipeline builder accumulates, and the completeness
//! check that building performs.
//!
//! The GPU objects themselves (layouts, shader modules, color targets) are
//! opaque to this crate; what is tracked and checked is which of them the
//! caller supplied, the shader entry point names, the vertex buffer layouts,
//! and the primitive-state choices, so that building can only happen once a
//! shader module and both entry points are in place — the inputs on which
//! the builder would otherwise tear its pieces out of empty options.

use vstd::prelude::*;

use crate::vertex::VertexBufferLayout;

verus! {

/// Which side of a triangle is culled.
#[derive(Clone, Copy, Debug, PartialEq, Eq, Structural)]
pub enum Face {
    Front,
    Back,
}

/// Which winding counts as the front face.
#[derive(Clone, Copy, Debug, PartialEq, Eq, Structural)]
pub enum FrontFace {
    Ccw,
    Cw,
}

/// The builder's bookkeeping: what was supplied so far.
#[derive(Debug)]
pub struct RenderPipelineBuilder {
    pub has_layout: bool,
    pub has_shader_module: bool,
    pub vertex_entry: Option<String>,
    pub fragment_entry: Option<String>,
    pub vertex_buffer_layouts: Vec<VertexBufferLayout>,
    pub cull_mode: Option<Face>,
    pub front_face: FrontFace,
    pub has_depth_stencil: bool,
    pub color_target_count: usize,
}

/// Everything a complete pipeline description holds, released by a
/// successful build.
#[derive(Debug)]
pub struct RenderPipelinePlan {
    pub has_layout: bool,
    pub vertex_entry: String,
    pub fragment_entry: String,
    pub vertex_buffer_layouts: Vec<VertexBufferLayout>,
    pub cull_mode: Option<Face>,
    pub front_face: FrontFace,
    pub has_depth_stencil: bool,
    pub color_target_count: usize,
}

impl RenderPipelineBuilder {
    /// A fresh builder: nothing supplied, no culling, counter-clockwise
    /// front faces, no depth-stencil state, no color targets.
    pub fn new() -> (r: RenderPipelineBuilder)
        ensures
            !r.has_layout,
            !r.has_shader_module,
            r.vertex_entry is None,
            r.fragment_entry is None,
            r.vertex_buffer_layouts@.len() == 0,
            r.cull_mode is None,
            r.front_face == FrontFace::Ccw,
            !r.has_depth_stencil,
            r.color_target_count == 0,
    {
        RenderPipelineBuilder {
            has_layout: false,
            has_shader_module: false,
            vertex_entry: None,
            fragment_entry: None,
            vertex_buffer_layouts: Vec::new(),
            cull_mode: None,
            front_face: FrontFace::Ccw,
            has_depth_stencil: false,
            color_target_count: 0,
        }
    }

    /// Records that a pipeline layout was supplied.
    pub fn with_layout(self) -> (r: RenderPipelineBuilder)
        ensures
            r == (RenderPipelineBuilder { has_layout: true, ..self }),
    {
        RenderPipelineBuilder { has_layout: true, ..self }
    }

    /// Records that a shader module was compiled and both entry points were
    /// named.
    pub fn with_shaders(self, vertex_entry: String, fragment_entry: String) -> (r:
        RenderPipelineBuilder)
        ensures
            r.has_shader_module,
            r.vertex_entry == Some(vertex_entry),
            r.fragment_entry == Some(fragment_entry),
            r.has_layout == self.has_layout,
            r.vertex_buffer_layouts == self.vertex_buffer_layouts,
            r.cull_mode == self.cull_mode,
            r.front_face == self.front_face,
            r.has_depth_stencil == self.has_depth_stencil,
            r.color_target_count == self.color_target_count,
    {
        RenderPipelineBuilder {
            has_shader_module: true,
            vertex_entry: Some(vertex_entry),
            fragment_entry: Some(fragment_entry),
            ..self
        }
    }

    /// Appends one vertex buffer layout.
    pub fn add_vertex_buffer_layout(self, layout: VertexBufferLayout) -> (r:
        RenderPipelineBuilder)
        ensures
            r.vertex_buffer_layouts@ == self.vertex_buffer_layouts@.push(layout),
            r.has_layout == self.has_layout,
            r.has_shader_module == self.has_shader_module,
            r.vertex_entry == self.vertex_entry,
            r.fragment_entry == self.fragment_entry,
            r.cull_mode == self.cull_mode,
            r.front_face == self.front_face,
            r.has_depth_stencil == self.has_depth_stencil,
            r.color_target_count == self.color_target_count,
    {
        let mut r = self;
        r.vertex_buffer_layouts.push(layout);
        r
    }

    /// Chooses the culling mode and the front-face winding.
    pub fn with_culling(self, cull_mode: Option<Face>, front_face: FrontFace) -> (r:
        RenderPipelineBuilder)
        ensures
            r == (RenderPipelineBuilder { cull_mode, front_face, ..self }),
    {
        RenderPipelineBuilder { cull_mode, front_face, ..self }
    }

    /// Records that a depth-stencil state was supplied.
    pub fn with_depth_stencil_state(self) -> (r: RenderPipelineBuilder)
        ensures
            r == (RenderPipelineBuilder { has_depth_stencil: true, ..self }),
    {
        RenderPipelineBuilder { has_depth_stencil: true, ..self }
    }

    /// Counts one more color target.
    pub fn add_color_target_state(self) -> (r: RenderPipelineBuilder)
        requires
            self.color_target_count < usize::MAX,
        ensures
            r == (RenderPipelineBuilder {
                color_target_count: (self.color_target_count + 1) as usize,
                ..self
            }),
    {
        RenderPipelineBuilder { color_target_count: self.color_target_count + 1, ..self }
    }

    /// Releases the finished description. Only callable once a shader module
    /// and both entry points were supplied: without them there is no vertex
    /// or fragment stage to describe.
    pub fn build(self) -> (r: RenderPipelinePlan)
        requires
            self.has_shader_module,
            self.vertex_entry is Some,
            self.fragment_entry is Some,
        ensures
            r.has_layout == self.has_layout,
            Some(r.vertex_entry) == self.vertex_entry,
            Some(r.fragment_entry) == self.fragment_entry,
            r.vertex_buffer_layouts == self.vertex_buffer_layouts,
            r.cull_mode == self.cull_mode,
            r.front_face == self.front_face,
            r.has_depth_stencil == self.has_depth_stencil,
            r.color_target_count == self.color_target_count,
    {
        let RenderPipelineBuilder {
            has_layout,
            has_shader_module: _,
            vertex_entry,
            fragment_entry,
            vertex_buffer_layouts,
            cull_mode,
            front_face,
            has_depth_stencil,
            color_target_count,
        } = self;
        let vertex_entry = match vertex_entry {
            Some(e) => e,
            None => {
                unreached()
            },
        };
        let fragment_entry = match fragment_entry {
            Some(e) => e,
            None => {
                unreached()
            },
        };
        RenderPipelinePlan {
            has_layout,
            vertex_entry,
            fragment_entry,
            vertex_buffer_layouts,
            cull_mode,
            front_face,
            has_depth_stencil,
            color_target_count,
        }
    }
}

} // verus!
