//! Bindings of the `picking` shader: its bound globals and constants, and
//! its source.
pub mod globals;
use vstd::prelude::*;

verus! {

/// The source of the shader.
pub const SOURCE: &'static str = "struct GlobalUniforms {\n    time: f32,\n}\n\nstruct ViewProjectionUniforms {\n    view: mat4x4<f32>,\n    projection: mat4x4<f32>,\n    camera_pos: vec3<f32>,\n}\n\nstruct VertexInput {\n    @location(0) position: vec4<f32>,\n    @location(1) tex_coords: vec2<f32>,\n    @location(2) normal: vec3<f32>,\n}\n\nstruct InstanceInput {\n    @location(3) model_1_: vec4<f32>,\n    @location(4) model_2_: vec4<f32>,\n    @location(5) model_3_: vec4<f32>,\n    @location(6) model_4_: vec4<f32>,\n    @location(7) @interpolate(flat) id_color: vec2<u32>,\n}\n\nstruct VertexOutput {\n    @builtin(position) clip_position: vec4<f32>,\n    @location(1) world_pos: vec4<f32>,\n    @location(2) @interpolate(flat) id_color: vec2<u32>,\n}\n\n@group(0) @binding(0) \nvar t_diffuse: texture_2d<f32>;\n@group(0) @binding(1) \nvar s_diffuse: sampler;\n@group(1) @binding(0) \nvar<uniform> global_uniforms: GlobalUniforms;\n@group(2) @binding(0) \nvar<uniform> view_proj_uniforms: ViewProjectionUniforms;\n\n@vertex \nfn vs_main(vertex: VertexInput, instance: InstanceInput) -> VertexOutput {\n    var out: VertexOutput;\n\n    let model_transform = mat4x4<f32>(instance.model_1_, instance.model_2_, instance.model_3_, instance.model_4_);\n    let model = (model_transform * vertex.position);\n    let _e11 = view_proj_uniforms.view;\n    let model_view = (_e11 * model);\n    let _e17 = view_proj_uniforms.projection;\n    out.clip_position = (_e17 * model_view);\n    out.world_pos = model;\n    out.id_color = instance.id_color;\n    let _e22 = out;\n    return _e22;\n}\n\n@fragment \nfn fs_main(in: VertexOutput) -> @location(0) @interpolate(flat) vec4<u32> {\n    return vec4<u32>((in.id_color.x & 255u), ((in.id_color.x >> 8u) & 255u), ((in.id_color.x >> 16u) & 255u), (in.id_color.x >> 24u));\n}\n";

} // verus!
