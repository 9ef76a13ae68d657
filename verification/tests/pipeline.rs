use quadrender::renderer::pipeline::{
    default_cull_mode, pipeline_description, pipeline_layout_label, pipeline_vertex_buffers, select_vertex_buffers,
    Face, FrontFace, PrimitiveTopology,
};
use quadrender::renderer::shader_type::{
    define_wgsl_struct, expand_vertex_attributes, BufferLayout, VertexAttribute, VertexFormat, VertexInput,
    VertexStepMode,
};

#[test]
fn layout_labels() {
    assert_eq!(pipeline_layout_label(Some("SSAO Pipeline")), "SSAO Pipeline Layout");
    assert_eq!(pipeline_layout_label(None), "Default Pipeline Layout");
}

fn layout(attributes: Vec<VertexAttribute>, step_mode: VertexStepMode, array_stride: u64) -> BufferLayout {
    BufferLayout { attributes, step_mode, array_stride }
}

#[test]
fn instance_buffer_only_with_attributes() {
    let v = layout(expand_vertex_attributes(vec![(0, vec![VertexFormat::Float32x3])]), VertexStepMode::Instance, 12);
    let i = layout(expand_vertex_attributes(vec![(1, vec![VertexFormat::Uint32])]), VertexStepMode::Vertex, 4);
    let both = select_vertex_buffers(v.clone(), i.clone());
    assert_eq!(both.len(), 2);
    assert_eq!(both[0].step_mode, VertexStepMode::Vertex);
    assert_eq!(both[0].attributes, v.attributes);
    assert_eq!(both[0].array_stride, 12);
    assert_eq!(both[1].step_mode, VertexStepMode::Instance);
    assert_eq!(both[1].attributes, i.attributes);
    assert_eq!(both[1].array_stride, 4);
    let empty = layout(vec![], VertexStepMode::Instance, 0);
    let one = select_vertex_buffers(v, empty);
    assert_eq!(one.len(), 1);
    assert_eq!(one[0].step_mode, VertexStepMode::Vertex);
}

struct Corner {
    _p: [u8; 8],
}

struct Tint {
    _c: [u8; 16],
}

struct Nothing;

impl VertexInput for Corner {
    fn definition(location_offset: u32) -> String {
        define_wgsl_struct("Corner", vec![(0, vec!["p: vec2<f32>".to_string()])], location_offset)
    }
    fn vertex_attributes() -> Vec<VertexAttribute> {
        expand_vertex_attributes(vec![(0, vec![VertexFormat::Float32x2])])
    }
}

impl VertexInput for Tint {
    fn definition(location_offset: u32) -> String {
        define_wgsl_struct("Tint", vec![(0, vec!["c: vec4<f32>".to_string()])], location_offset)
    }
    fn vertex_attributes() -> Vec<VertexAttribute> {
        expand_vertex_attributes(vec![(0, vec![VertexFormat::Float32x4])])
    }
}

impl VertexInput for Nothing {
    fn definition(_location_offset: u32) -> String {
        String::new()
    }
    fn vertex_attributes() -> Vec<VertexAttribute> {
        vec![]
    }
}

#[test]
fn pipeline_buffers_follow_vertex_locations() {
    let buffers = pipeline_vertex_buffers::<Corner, Tint>();
    assert_eq!(buffers.len(), 2);
    assert_eq!(buffers[0].array_stride, 8);
    assert_eq!(buffers[0].attributes[0].shader_location, 0);
    assert_eq!(buffers[1].step_mode, VertexStepMode::Instance);
    assert_eq!(buffers[1].array_stride, 16);
    assert_eq!(buffers[1].attributes[0].shader_location, 1);
    assert_eq!(pipeline_vertex_buffers::<Corner, Nothing>().len(), 1);
}

#[test]
fn pipeline_descriptions_fix_the_fixed_state() {
    assert_eq!(default_cull_mode(), Some(Face::Back));
    let d = pipeline_description::<Corner, Tint>(Some("Text"), default_cull_mode());
    assert_eq!(d.layout_label, "Text Layout");
    assert_eq!(d.vertex_entry_point, "vs_main");
    assert_eq!(d.fragment_entry_point, "fs_main");
    assert_eq!(d.vertex_buffers.len(), 2);
    assert_eq!(d.vertex_buffers[1].attributes[0].shader_location, 1);
    assert_eq!(d.topology, PrimitiveTopology::TriangleList);
    assert_eq!(d.front_face, FrontFace::Cw);
    assert_eq!(d.cull_mode, Some(Face::Back));
    assert!(d.unclipped_depth);
    assert!(!d.conservative);
    assert_eq!(d.sample_count, 1);
    assert_eq!(d.sample_mask, u64::MAX);
    assert!(!d.alpha_to_coverage_enabled);
    assert_eq!(pipeline_description::<Corner, Nothing>(None, None).cull_mode, None);
}
