//! Bindings of the `depth_only` shader: its bound globals and constants, and
//! its source.
pub mod globals;
use vstd::prelude::*;

verus! {

/// The source of the shader.
pub const SOURCE: &'static str = "struct GlobalUniformsX_naga_oil_mod_XM5WG6YTBNQX {\n    time: f32,\n    screen_size: vec2<f32>,\n}\n\nstruct ViewProjectionUniformsX_naga_oil_mod_XM5WG6YTBNQX {\n    view: mat4x4<f32>,\n    projection: mat4x4<f32>,\n    camera_pos: vec3<f32>,\n    inverse_view: mat4x4<f32>,\n}\n\nstruct VertexInputX_naga_oil_mod_XNFXHA5LUOMX {\n    @location(0) position: vec4<f32>,\n    @location(1) tex_coords: vec2<f32>,\n    @location(2) normal: vec3<f32>,\n}\n\nstruct InstanceInputX_naga_oil_mod_XNFXHA5LUOMX {\n    @location(3) uv_scale: vec2<f32>,\n    @location(4) uv_offset: vec2<f32>,\n    @location(5) tint: vec4<f32>,\n    @location(6) model_1x: vec4<f32>,\n    @location(7) model_2x: vec4<f32>,\n    @location(8) model_3x: vec4<f32>,\n    @location(9) model_4x: vec4<f32>,\n    @location(10) normal_1x: vec4<f32>,\n    @location(11) normal_2x: vec4<f32>,\n    @location(12) normal_3x: vec4<f32>,\n    @location(13) normal_4x: vec4<f32>,\n}\n\nstruct VertexOutput {\n    @builtin(position) clip_position: vec4<f32>,\n}\n\n@group(0) @binding(0) \nvar t_diffuse: texture_2d<f32>;\n@group(0) @binding(1) \nvar s_diffuse: sampler;\n@group(1) @binding(0) \nvar<uniform> global_uniforms: GlobalUniformsX_naga_oil_mod_XM5WG6YTBNQX;\n@group(2) @binding(0) \nvar<uniform> view_proj_uniforms: ViewProjectionUniformsX_naga_oil_mod_XM5WG6YTBNQX;\n\n@vertex \nfn vs_main(vertex: VertexInputX_naga_oil_mod_XNFXHA5LUOMX, instance: InstanceInputX_naga_oil_mod_XNFXHA5LUOMX) -> VertexOutput {\n    var out: VertexOutput;\n\n    let model_transform = mat4x4<f32>(instance.model_1x, instance.model_2x, instance.model_3x, instance.model_4x);\n    let normal_matrix = mat4x4<f32>(instance.normal_1x, instance.normal_2x, instance.normal_3x, instance.normal_4x);\n    let _e13 = view_proj_uniforms.view;\n    let model_view = (_e13 * model_transform);\n    let model_view_pos = (model_view * vertex.position);\n    let _e22 = view_proj_uniforms.projection;\n    out.clip_position = (_e22 * model_view_pos);\n    let _e24 = out;\n    return _e24;\n}\n\n@fragment \nfn fs_main(in: VertexOutput) {\n    return;\n}\n";

} // verus!
