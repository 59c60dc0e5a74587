use hydra::instance::InstanceRaw;
use hydra::vertex::{
    BasicInstanceData, BasicVertex, ColoredVertex, TexturedVertex, VertexFormat, VertexLayout,
    VertexStepMode,
};

#[test]
fn basic_vertex_layout_values() {
    let l = BasicVertex::layout();
    assert_eq!(l.array_stride, 12);
    assert_eq!(l.step_mode, VertexStepMode::Vertex);
    assert_eq!(l.attributes.len(), 1);
    assert_eq!(l.attributes[0].format, VertexFormat::Float32x3);
    assert_eq!(l.attributes[0].offset, 0);
    assert_eq!(l.attributes[0].shader_location, 0);
}

#[test]
fn colored_vertex_layout_values() {
    let l = ColoredVertex::layout();
    assert_eq!(l.array_stride, 24);
    assert_eq!(l.step_mode, VertexStepMode::Vertex);
    assert_eq!(l.attributes.len(), 2);
    assert_eq!(l.attributes[0].format, VertexFormat::Float32x3);
    assert_eq!(l.attributes[0].offset, 0);
    assert_eq!(l.attributes[0].shader_location, 0);
    assert_eq!(l.attributes[1].format, VertexFormat::Float32x3);
    assert_eq!(l.attributes[1].offset, 12);
    assert_eq!(l.attributes[1].shader_location, 1);
}

#[test]
fn textured_vertex_layout_values() {
    let l = TexturedVertex::layout();
    assert_eq!(l.array_stride, 20);
    assert_eq!(l.step_mode, VertexStepMode::Vertex);
    assert_eq!(l.attributes.len(), 2);
    assert_eq!(l.attributes[0].format, VertexFormat::Float32x3);
    assert_eq!(l.attributes[0].offset, 0);
    assert_eq!(l.attributes[1].format, VertexFormat::Float32x2);
    assert_eq!(l.attributes[1].offset, 12);
    assert_eq!(l.attributes[1].shader_location, 1);
}

#[test]
fn instance_layout_values() {
    let l = InstanceRaw::layout();
    assert_eq!(l.array_stride, 64);
    assert_eq!(l.step_mode, VertexStepMode::Instance);
    assert_eq!(l.attributes.len(), 4);
    for (i, a) in l.attributes.iter().enumerate() {
        assert_eq!(a.format, VertexFormat::Float32x4);
        assert_eq!(a.offset, 16 * i as u64);
        assert_eq!(a.shader_location, 2 + i as u32);
    }
}

#[test]
fn basic_instance_data_layout_matches_instance_raw() {
    let a = BasicInstanceData::layout();
    let b = InstanceRaw::layout();
    assert_eq!(a.array_stride, b.array_stride);
    assert_eq!(a.step_mode, b.step_mode);
    assert_eq!(a.attributes, b.attributes);
}

#[test]
fn vertex_slots_start_zeroed() {
    let v = ColoredVertex::new();
    assert_eq!(v.position, [0, 0, 0]);
    assert_eq!(v.color, [0, 0, 0]);
    let t = TexturedVertex::new();
    assert_eq!(t.position, [0, 0, 0]);
    assert_eq!(t.uv, [0, 0]);
}

#[test]
fn add_position_stores_words() {
    let mut v = BasicVertex::new();
    let p = [1.0f32.to_bits(), 2.0f32.to_bits(), 3.0f32.to_bits()];
    v.add_position(p);
    assert_eq!(v.position, p);
}

#[test]
fn colored_vertex_takes_normals_as_color() {
    let mut v = ColoredVertex::new();
    assert!(v.try_add_normal([7, 8, 9]).is_ok());
    assert_eq!(v.color, [7, 8, 9]);
    assert!(v.try_add_uv([1, 2]).is_err());
}

#[test]
fn basic_vertex_refuses_extras() {
    let mut v = BasicVertex::new();
    assert_eq!(
        v.try_add_normal([1, 2, 3]),
        Err("BasicVertex doesn't support normals!")
    );
    assert_eq!(v.try_add_uv([1, 2]), Err("BasicVertex doesn't support uvs!"));
}

#[test]
fn textured_vertex_takes_uv() {
    let mut v = TexturedVertex::new();
    assert!(v.try_add_normal([1, 2, 3]).is_err());
    assert!(v.try_add_uv([4, 5]).is_ok());
    assert_eq!(v.uv, [4, 5]);
}

#[test]
fn try_add_color_rides_the_normal_slot() {
    let mut v = ColoredVertex::new();
    assert!(v.try_add_color([11, 12, 13]).is_ok());
    assert_eq!(v.color, [11, 12, 13]);
    let mut b = BasicVertex::new();
    assert!(b.try_add_color([1, 2, 3]).is_err());
}
