//! Bindings of the `shadow_map` shader: its bound globals and constants, and
//! its source.
pub mod globals;
use vstd::prelude::*;

verus! {

/// The source of the shader.
pub const SOURCE: &'static str = "struct GlobalUniformsX_naga_oil_mod_XM5WG6YTBNQX {\n    time: f32,\n    screen_size: vec2<f32>,\n}\n\nstruct ViewProjectionUniformsX_naga_oil_mod_XM5WG6YTBNQX {\n    view: mat4x4<f32>,\n    projection: mat4x4<f32>,\n    camera_pos: vec3<f32>,\n    inverse_view: mat4x4<f32>,\n}\n\nstruct VertexInputX_naga_oil_mod_XNFXHA5LUOMX {\n    @location(0) position: vec4<f32>,\n    @location(1) tex_coords: vec2<f32>,\n    @location(2) normal: vec3<f32>,\n}\n\nstruct InstanceInputX_naga_oil_mod_XNFXHA5LUOMX {\n    @location(3) uv_scale: vec2<f32>,\n    @location(4) uv_offset: vec2<f32>,\n    @location(5) tint: vec4<f32>,\n    @location(6) model_1x: vec4<f32>,\n    @location(7) model_2x: vec4<f32>,\n    @location(8) model_3x: vec4<f32>,\n    @location(9) model_4x: vec4<f32>,\n    @location(10) normal_1x: vec4<f32>,\n    @location(11) normal_2x: vec4<f32>,\n    @location(12) normal_3x: vec4<f32>,\n    @location(13) normal_4x: vec4<f32>,\n}\n\n@group(0) @binding(0) \nvar t_diffuse: texture_2d<f32>;\n@group(0) @binding(1) \nvar s_diffuse: sampler;\n@group(1) @binding(0) \nvar<uniform> global_uniforms: GlobalUniformsX_naga_oil_mod_XM5WG6YTBNQX;\n@group(2) @binding(0) \nvar<uniform> view_proj_uniforms: ViewProjectionUniformsX_naga_oil_mod_XM5WG6YTBNQX;\n\n@vertex \nfn vs_main(vertex: VertexInputX_naga_oil_mod_XNFXHA5LUOMX, instance: InstanceInputX_naga_oil_mod_XNFXHA5LUOMX) -> @builtin(position) vec4<f32> {\n    let model_transform = mat4x4<f32>(instance.model_1x, instance.model_2x, instance.model_3x, instance.model_4x);\n    let model = (model_transform * vertex.position);\n    let _e11 = view_proj_uniforms.view;\n    let model_view = (_e11 * model);\n    let _e15 = view_proj_uniforms.projection;\n    return (_e15 * model_view);\n}\n\n@fragment \nfn fs_main(@builtin(position) position: vec4<f32>) -> @location(0) vec4<f32> {\n    return vec4<f32>(position.z, position.z, position.z, 1f);\n}\n";

} // verus!
