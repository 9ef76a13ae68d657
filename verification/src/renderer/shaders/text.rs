//! Bindings of the `text` shader: its bound globals and constants, and
//! its source.
pub mod globals;
use vstd::prelude::*;

verus! {

/// The source of the shader.
pub const SOURCE: &'static str = "struct GlobalUniforms {\n    time: f32,\n}\n\nstruct ViewProjectionUniforms {\n    view: mat4x4<f32>,\n    projection: mat4x4<f32>,\n}\n\nstruct VertexInput {\n    @location(0) position: vec4<f32>,\n    @location(1) tex_coords: vec2<f32>,\n}\n\nstruct InstanceInput {\n    @location(2) uv_scale: vec2<f32>,\n    @location(3) uv_offset: vec2<f32>,\n    @location(4) tint: vec4<f32>,\n    @location(5) model_1_: vec4<f32>,\n    @location(6) model_2_: vec4<f32>,\n    @location(7) model_3_: vec4<f32>,\n    @location(8) model_4_: vec4<f32>,\n}\n\nstruct VertexOutput {\n    @builtin(position) clip_position: vec4<f32>,\n    @location(0) tex_coords: vec2<f32>,\n    @location(1) screen_pos: vec2<f32>,\n    @location(2) tint_color: vec4<f32>,\n}\n\n@group(0) @binding(0) \nvar t_diffuse: texture_2d<f32>;\n@group(0) @binding(1) \nvar s_diffuse: sampler;\n@group(1) @binding(0) \nvar<uniform> global_uniforms: GlobalUniforms;\n@group(2) @binding(0) \nvar<uniform> view_proj_uniforms: ViewProjectionUniforms;\n\nfn median(r: f32, g: f32, b: f32) -> f32 {\n    return max(min(r, g), min(max(r, g), b));\n}\n\n@vertex \nfn vs_main(vertex: VertexInput, instance: InstanceInput) -> VertexOutput {\n    var out: VertexOutput;\n\n    let model_transform = mat4x4<f32>(instance.model_1_, instance.model_2_, instance.model_3_, instance.model_4_);\n    out.tex_coords = (instance.uv_offset + (instance.uv_scale * vertex.tex_coords));\n    let model = (model_transform * vertex.position);\n    let _e18 = view_proj_uniforms.view;\n    let model_view = (_e18 * model);\n    let _e23 = view_proj_uniforms.projection;\n    out.clip_position = (_e23 * model_view);\n    out.screen_pos = model_view.xy;\n    out.tint_color = instance.tint;\n    let _e29 = out;\n    return _e29;\n}\n\n@fragment \nfn fs_main(in: VertexOutput) -> @location(0) vec4<f32> {\n    let msd = textureSample(t_diffuse, s_diffuse, in.tex_coords);\n    let _e8 = median(msd.x, msd.y, msd.z);\n    let _e9 = fwidth(_e8);\n    let w = (_e9 * 0.5f);\n    let opacity = smoothstep((0.5f - w), (0.5f + w), _e8);\n    return vec4<f32>(in.tint_color.x, in.tint_color.y, in.tint_color.z, (opacity * in.tint_color.w));\n}\n";

} // verus!
