use quadrender::renderer::shader_type::{
    define_wgsl_struct, expand_vertex_attributes, vertex_format_wgsl_type_name, VertexAttribute,
    VertexFormat,
};

#[test]
fn test_blah() {
    assert!(true);
}

#[test]
fn wgsl_struct_numbers_locations_from_offset() {
    let s = define_wgsl_struct(
        "InstanceInput",
        vec![
            (0, vec!["uv_scale: vec2<f32>".to_string(), "uv_offset: vec2<f32>".to_string()]),
            (2, vec!["tint: vec4<f32>".to_string()]),
        ],
        9,
    );
    assert_eq!(
        s,
        "struct InstanceInput {\n  @location(9) uv_scale: vec2<f32>,\n  @location(10) uv_offset: vec2<f32>,\n  @location(11) tint: vec4<f32>,\n}"
    );
}

#[test]
fn expanded_attributes_are_packed() {
    let attrs = expand_vertex_attributes(vec![
        (0, vec![VertexFormat::Float32x4, VertexFormat::Float32x2]),
        (5, vec![VertexFormat::Uint8x2, VertexFormat::Float64x3]),
    ]);
    assert_eq!(
        attrs,
        vec![
            VertexAttribute { format: VertexFormat::Float32x4, offset: 0, shader_location: 0 },
            VertexAttribute { format: VertexFormat::Float32x2, offset: 16, shader_location: 1 },
            VertexAttribute { format: VertexFormat::Uint8x2, offset: 24, shader_location: 5 },
            VertexAttribute { format: VertexFormat::Float64x3, offset: 26, shader_location: 6 },
        ]
    );
}

#[test]
fn wgsl_type_names() {
    assert_eq!(vertex_format_wgsl_type_name(VertexFormat::Float64x2), "vec2<f32>");
    assert_eq!(vertex_format_wgsl_type_name(VertexFormat::Sint8x4), "vec4<i32>");
    assert_eq!(vertex_format_wgsl_type_name(VertexFormat::Uint32), "u32");
}

use quadrender::renderer::shader_type::{
    concat_all, join_lines, location_offsets, next_location_offset, shader_source,
    shift_attribute_locations, ShaderType, ShaderTypeAligned,
    ShaderUniformType, ShaderUniforms, VertexDataType, VertexInput, VertexInputs,
};

const ALL_FORMATS: [(VertexFormat, wgpu::VertexFormat); 45] = [
    (VertexFormat::Uint8, wgpu::VertexFormat::Uint8),
    (VertexFormat::Uint8x2, wgpu::VertexFormat::Uint8x2),
    (VertexFormat::Uint8x4, wgpu::VertexFormat::Uint8x4),
    (VertexFormat::Sint8, wgpu::VertexFormat::Sint8),
    (VertexFormat::Sint8x2, wgpu::VertexFormat::Sint8x2),
    (VertexFormat::Sint8x4, wgpu::VertexFormat::Sint8x4),
    (VertexFormat::Unorm8, wgpu::VertexFormat::Unorm8),
    (VertexFormat::Unorm8x2, wgpu::VertexFormat::Unorm8x2),
    (VertexFormat::Unorm8x4, wgpu::VertexFormat::Unorm8x4),
    (VertexFormat::Snorm8, wgpu::VertexFormat::Snorm8),
    (VertexFormat::Snorm8x2, wgpu::VertexFormat::Snorm8x2),
    (VertexFormat::Snorm8x4, wgpu::VertexFormat::Snorm8x4),
    (VertexFormat::Uint16, wgpu::VertexFormat::Uint16),
    (VertexFormat::Uint16x2, wgpu::VertexFormat::Uint16x2),
    (VertexFormat::Uint16x4, wgpu::VertexFormat::Uint16x4),
    (VertexFormat::Sint16, wgpu::VertexFormat::Sint16),
    (VertexFormat::Sint16x2, wgpu::VertexFormat::Sint16x2),
    (VertexFormat::Sint16x4, wgpu::VertexFormat::Sint16x4),
    (VertexFormat::Unorm16, wgpu::VertexFormat::Unorm16),
    (VertexFormat::Unorm16x2, wgpu::VertexFormat::Unorm16x2),
    (VertexFormat::Unorm16x4, wgpu::VertexFormat::Unorm16x4),
    (VertexFormat::Snorm16, wgpu::VertexFormat::Snorm16),
    (VertexFormat::Snorm16x2, wgpu::VertexFormat::Snorm16x2),
    (VertexFormat::Snorm16x4, wgpu::VertexFormat::Snorm16x4),
    (VertexFormat::Float16, wgpu::VertexFormat::Float16),
    (VertexFormat::Float16x2, wgpu::VertexFormat::Float16x2),
    (VertexFormat::Float16x4, wgpu::VertexFormat::Float16x4),
    (VertexFormat::Float32, wgpu::VertexFormat::Float32),
    (VertexFormat::Float32x2, wgpu::VertexFormat::Float32x2),
    (VertexFormat::Float32x3, wgpu::VertexFormat::Float32x3),
    (VertexFormat::Float32x4, wgpu::VertexFormat::Float32x4),
    (VertexFormat::Uint32, wgpu::VertexFormat::Uint32),
    (VertexFormat::Uint32x2, wgpu::VertexFormat::Uint32x2),
    (VertexFormat::Uint32x3, wgpu::VertexFormat::Uint32x3),
    (VertexFormat::Uint32x4, wgpu::VertexFormat::Uint32x4),
    (VertexFormat::Sint32, wgpu::VertexFormat::Sint32),
    (VertexFormat::Sint32x2, wgpu::VertexFormat::Sint32x2),
    (VertexFormat::Sint32x3, wgpu::VertexFormat::Sint32x3),
    (VertexFormat::Sint32x4, wgpu::VertexFormat::Sint32x4),
    (VertexFormat::Float64, wgpu::VertexFormat::Float64),
    (VertexFormat::Float64x2, wgpu::VertexFormat::Float64x2),
    (VertexFormat::Float64x3, wgpu::VertexFormat::Float64x3),
    (VertexFormat::Float64x4, wgpu::VertexFormat::Float64x4),
    (VertexFormat::Unorm10_10_10_2, wgpu::VertexFormat::Unorm10_10_10_2),
    (VertexFormat::Unorm8x4Bgra, wgpu::VertexFormat::Unorm8x4Bgra),
];

#[test]
fn format_sizes_match_wgpu() {
    for (ours, theirs) in ALL_FORMATS {
        assert_eq!(ours.size(), theirs.size(), "{:?}", ours);
    }
}

#[test]
fn shader_type_names() {
    assert_eq!(<u32 as ShaderType>::wgsl_name(), "u32");
    assert_eq!(<glam::Mat4 as ShaderType>::wgsl_name(), "mat4x4<f32>");
    assert_eq!(<[glam::Vec4; 64] as ShaderType>::wgsl_name(), "array<vec4<f32>, 64>");
    assert_eq!(<[[i32; 3]; 10] as ShaderType>::wgsl_name(), "array<array<i32, 3>, 10>");
    assert_eq!(<glam::Vec2 as ShaderTypeAligned>::ALIGNMENT, 8);
    assert_eq!(<[glam::Vec3; 4] as ShaderTypeAligned>::ALIGNMENT, 16);
}

struct A;
struct B;

impl ShaderUniformType for A {
    fn definition() -> String {
        "struct A { x: f32 }\n".to_string()
    }
}

impl ShaderUniformType for B {
    fn definition() -> String {
        "struct B { y: u32 }\n".to_string()
    }
}

#[test]
fn uniform_definitions_concatenate() {
    assert_eq!(<() as ShaderUniforms>::definition(), "");
    assert_eq!(<(A, B) as ShaderUniforms>::definition(), "struct A { x: f32 }\nstruct B { y: u32 }\n");
    assert_eq!(<glam::Mat4 as ShaderUniforms>::definition(), "mat4x4<f32>");
}

struct Pos {
    _p: [u8; 16],
}

struct Inst {
    _t: [u8; 8],
    _c: [u8; 4],
}

impl VertexInput for Pos {
    fn definition(location_offset: u32) -> String {
        define_wgsl_struct("Pos", vec![(0, vec!["position: vec4<f32>".to_string()])], location_offset)
    }
    fn vertex_attributes() -> Vec<VertexAttribute> {
        expand_vertex_attributes(vec![(0, vec![VertexFormat::Float32x4])])
    }
}

impl VertexInput for Inst {
    fn definition(location_offset: u32) -> String {
        define_wgsl_struct(
            "Inst",
            vec![(0, vec!["uv: vec2<f32>".to_string()]), (1, vec!["tint: u32".to_string()])],
            location_offset,
        )
    }
    fn vertex_attributes() -> Vec<VertexAttribute> {
        expand_vertex_attributes(vec![(0, vec![VertexFormat::Float32x2, VertexFormat::Uint32])])
    }
}

#[test]
fn tuple_inputs_take_consecutive_locations() {
    assert_eq!(<(Pos, Inst) as VertexInputs>::locations_count(), 3);
    assert_eq!(
        <(Pos, Inst) as VertexInputs>::definition(),
        "struct Pos {\n  @location(0) position: vec4<f32>,\n}\nstruct Inst {\n  @location(1) uv: vec2<f32>,\n  @location(2) tint: u32,\n}"
    );
    let layouts = <(Pos, Inst) as VertexInputs>::vertex_buffer_layouts();
    assert_eq!(layouts[0].attributes[0].shader_location, 0);
    assert_eq!(layouts[1].attributes[0].shader_location, 1);
    assert_eq!(layouts.len(), 2);
    assert_eq!(layouts[0].array_stride, 16);
    assert_eq!(layouts[1].array_stride, 12);
    let locs: Vec<u32> = layouts[1].attributes.iter().map(|a| a.shader_location).collect();
    assert_eq!(locs, vec![1, 2]);
    assert_eq!(Pos::next_offset(), 1);
    assert_eq!(
        shader_source::<(), (Pos, Inst)>("@vertex fn vs_main() {}"),
        format!("{}{}", <(Pos, Inst) as VertexInputs>::definition(), "@vertex fn vs_main() {}")
    );
}

#[test]
fn locations_shift_and_follow() {
    let attrs = expand_vertex_attributes(vec![(2, vec![VertexFormat::Float32, VertexFormat::Float32])]);
    let shifted = shift_attribute_locations(&attrs, 5);
    assert_eq!(shifted.iter().map(|a| a.shader_location).collect::<Vec<_>>(), vec![7, 8]);
    assert_eq!(shifted[1].offset, 4);
    assert_eq!(next_location_offset(&shifted), 9);
    assert_eq!(next_location_offset(&vec![]), 0);
}

#[test]
fn vertex_data_fields() {
    assert_eq!(<u32 as VertexDataType>::wgsl_fields("id"), vec!["id: u32".to_string()]);
    assert_eq!(
        <glam::Mat4 as VertexDataType>::wgsl_fields("transform"),
        vec![
            "transform_1: vec4<f32>".to_string(),
            "transform_2: vec4<f32>".to_string(),
            "transform_3: vec4<f32>".to_string(),
            "transform_4: vec4<f32>".to_string(),
        ]
    );
    assert_eq!(<glam::Mat3 as VertexDataType>::vertex_formats(), vec![VertexFormat::Float32x3; 3]);
    assert_eq!(<glam::Mat3 as VertexDataType>::N, 3);
    assert_eq!(<glam::Vec2 as VertexDataType>::N, 1);
}

#[test]
fn text_helpers() {
    let parts = vec!["a".to_string(), "bc".to_string(), "".to_string()];
    assert_eq!(concat_all(&parts), "abc");
    assert_eq!(join_lines(&parts), "a\nbc\n");
    assert_eq!(join_lines(&vec![]), "");
    assert_eq!(location_offsets(&vec![2, 3, 1]), (vec![0, 2, 5], 6));
    assert_eq!(location_offsets(&vec![u32::MAX, 2]), (vec![0, u32::MAX], 1));
}
