use hydra::pipeline::{Face, FrontFace, RenderPipelineBuilder};
use hydra::vertex::{ColoredVertex, VertexLayout};

#[test]
fn builder_defaults() {
    let b = RenderPipelineBuilder::new();
    assert!(!b.has_layout);
    assert!(!b.has_shader_module);
    assert!(b.vertex_entry.is_none());
    assert!(b.fragment_entry.is_none());
    assert_eq!(b.vertex_buffer_layouts.len(), 0);
    assert_eq!(b.cull_mode, None);
    assert_eq!(b.front_face, FrontFace::Ccw);
    assert!(!b.has_depth_stencil);
    assert_eq!(b.color_target_count, 0);
}

#[test]
fn builder_records_everything() {
    let plan = RenderPipelineBuilder::new()
        .with_layout()
        .with_shaders(String::from("vs_main"), String::from("fs_main"))
        .add_vertex_buffer_layout(ColoredVertex::layout())
        .add_vertex_buffer_layout(ColoredVertex::layout())
        .with_culling(Some(Face::Back), FrontFace::Cw)
        .with_depth_stencil_state()
        .add_color_target_state()
        .build();
    assert!(plan.has_layout);
    assert_eq!(plan.vertex_entry, "vs_main");
    assert_eq!(plan.fragment_entry, "fs_main");
    assert_eq!(plan.vertex_buffer_layouts.len(), 2);
    assert_eq!(plan.vertex_buffer_layouts[0].array_stride, 24);
    assert_eq!(plan.cull_mode, Some(Face::Back));
    assert_eq!(plan.front_face, FrontFace::Cw);
    assert!(plan.has_depth_stencil);
    assert_eq!(plan.color_target_count, 1);
}

#[test]
fn builder_minimal_build() {
    let plan = RenderPipelineBuilder::new()
        .with_shaders(String::from("vs"), String::from("fs"))
        .build();
    assert!(!plan.has_layout);
    assert_eq!(plan.vertex_buffer_layouts.len(), 0);
    assert_eq!(plan.color_target_count, 0);
    assert_eq!(plan.cull_mode, None);
}
