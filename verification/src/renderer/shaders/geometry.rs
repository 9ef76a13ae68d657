//! Bindings of the `geometry` shader: its bound globals and constants, and
//! its source.
pub mod globals;
use vstd::prelude::*;

verus! {

/// The source of the shader.
pub const SOURCE: &'static str = "struct GlobalUniformsX_naga_oil_mod_XM5WG6YTBNQX {\n    time: f32,\n    screen_size: vec2<f32>,\n}\n\nstruct ViewProjectionUniformsX_naga_oil_mod_XM5WG6YTBNQX {\n    view: mat4x4<f32>,\n    projection: mat4x4<f32>,\n    camera_pos: vec3<f32>,\n    inverse_view: mat4x4<f32>,\n}\n\nstruct VertexInput {\n    @location(0) position: vec4<f32>,\n    @location(1) tex_coords: vec2<f32>,\n    @location(2) normal: vec3<f32>,\n}\n\nstruct InstanceInput {\n    @location(3) uv_scale: vec2<f32>,\n    @location(4) uv_offset: vec2<f32>,\n    @location(5) tint: vec4<f32>,\n    @location(6) model_1_: vec4<f32>,\n    @location(7) model_2_: vec4<f32>,\n    @location(8) model_3_: vec4<f32>,\n    @location(9) model_4_: vec4<f32>,\n    @location(10) normal_1_: vec4<f32>,\n    @location(11) normal_2_: vec4<f32>,\n    @location(12) normal_3_: vec4<f32>,\n    @location(13) normal_4_: vec4<f32>,\n}\n\nstruct VertexOutput {\n    @builtin(position) clip_position: vec4<f32>,\n    @location(0) tex_coords: vec2<f32>,\n    @location(1) view_pos: vec4<f32>,\n    @location(2) view_space_normal: vec4<f32>,\n    @location(3) tint_color: vec4<f32>,\n}\n\nstruct FragmentOutput {\n    @location(0) g_position: vec4<f32>,\n    @location(1) g_normal: vec4<f32>,\n    @location(2) g_albedo_spec: vec4<f32>,\n}\n\n@group(0) @binding(0) \nvar t_diffuse: texture_2d<f32>;\n@group(0) @binding(1) \nvar s_diffuse: sampler;\n@group(1) @binding(0) \nvar<uniform> global_uniforms: GlobalUniformsX_naga_oil_mod_XM5WG6YTBNQX;\n@group(2) @binding(0) \nvar<uniform> view_proj_uniforms: ViewProjectionUniformsX_naga_oil_mod_XM5WG6YTBNQX;\n\n@vertex \nfn vs_main(vertex: VertexInput, instance: InstanceInput) -> VertexOutput {\n    var out: VertexOutput;\n\n    let model_transform = mat4x4<f32>(instance.model_1_, instance.model_2_, instance.model_3_, instance.model_4_);\n    let normal_matrix = mat4x4<f32>(instance.normal_1_, instance.normal_2_, instance.normal_3_, instance.normal_4_);\n    out.tex_coords = (instance.uv_offset + (instance.uv_scale * vertex.tex_coords));\n    let _e21 = view_proj_uniforms.view;\n    let model_view = (_e21 * model_transform);\n    let model_view_pos = (model_view * vertex.position);\n    let _e28 = view_proj_uniforms.projection;\n    out.clip_position = (_e28 * model_view_pos);\n    out.view_space_normal = (normal_matrix * vec4<f32>(vertex.normal, 1f));\n    out.view_pos = model_view_pos;\n    out.tint_color = instance.tint;\n    let _e38 = out;\n    return _e38;\n}\n\n@fragment \nfn fs_main(in: VertexOutput) -> FragmentOutput {\n    var out_1: FragmentOutput;\n\n    out_1.g_position = in.view_pos;\n    out_1.g_normal = normalize(in.view_space_normal);\n    let _e12 = textureSample(t_diffuse, s_diffuse, in.tex_coords);\n    out_1.g_albedo_spec = (in.tint_color * _e12);\n    let _e14 = out_1;\n    return _e14;\n}\n";

} // verus!
