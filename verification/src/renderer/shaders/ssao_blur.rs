//! Bindings of the `ssao_blur` shader: its bound globals and constants, and
//! its source.
pub mod globals;
use vstd::prelude::*;

verus! {

/// The source of the shader.
pub const SOURCE: &'static str = "struct GlobalUniformsX_naga_oil_mod_XM5WG6YTBNQX {\n    time: f32,\n    screen_size: vec2<f32>,\n}\n\nstruct ViewProjectionUniformsX_naga_oil_mod_XM5WG6YTBNQX {\n    view: mat4x4<f32>,\n    projection: mat4x4<f32>,\n    camera_pos: vec3<f32>,\n    inverse_view: mat4x4<f32>,\n}\n\nstruct VertexInput {\n    @location(0) position: vec4<f32>,\n    @location(1) tex_coords: vec2<f32>,\n}\n\nstruct InstanceInput {\n    @location(2) uv_scale: vec2<f32>,\n    @location(3) uv_offset: vec2<f32>,\n    @location(4) tint: vec4<f32>,\n    @location(5) model_1_: vec4<f32>,\n    @location(6) model_2_: vec4<f32>,\n    @location(7) model_3_: vec4<f32>,\n    @location(8) model_4_: vec4<f32>,\n}\n\nstruct VertexOutput {\n    @builtin(position) clip_position: vec4<f32>,\n    @location(0) tex_coords: vec2<f32>,\n    @location(1) tint_color: vec4<f32>,\n}\n\nstruct BlurUniforms {\n    half_kernel_size: i32,\n    sharpness: f32,\n    step: vec2<f32>,\n}\n\n@group(0) @binding(0) \nvar t_diffuse: texture_2d<f32>;\n@group(0) @binding(1) \nvar s_diffuse: sampler;\n@group(1) @binding(0) \nvar<uniform> global_uniforms: GlobalUniformsX_naga_oil_mod_XM5WG6YTBNQX;\n@group(2) @binding(0) \nvar<uniform> view_proj_uniforms: ViewProjectionUniformsX_naga_oil_mod_XM5WG6YTBNQX;\n@group(4) @binding(0) \nvar<uniform> blur_settings: BlurUniforms;\n@group(3) @binding(0) \nvar depth_buffer: texture_depth_2d;\n@group(3) @binding(1) \nvar depth_buffer_sampler: sampler;\n\nfn blur_weight(radius: f32, center_depth_1: f32, sample_depth: f32) -> f32 {\n    let _e2 = blur_settings.half_kernel_size;\n    let blur_sigma = ((f32(_e2) + 1f) * 0.5f);\n    let blur_falloff = (1f / ((2f * blur_sigma) * blur_sigma));\n    let _e18 = blur_settings.sharpness;\n    let depth_diff = ((sample_depth - center_depth_1) * _e18);\n    let weight_1 = exp2((((-(radius) * radius) * blur_falloff) - (depth_diff * depth_diff)));\n    return weight_1;\n}\n\n@vertex \nfn vs_main(vertex: VertexInput, instance: InstanceInput) -> VertexOutput {\n    var out: VertexOutput;\n    var model: vec4<f32>;\n\n    let model_transform = mat4x4<f32>(instance.model_1_, instance.model_2_, instance.model_3_, instance.model_4_);\n    out.tex_coords = (instance.uv_offset + (instance.uv_scale * vertex.tex_coords));\n    model = vertex.position;\n    let _e18 = model.x;\n    model.x = ((_e18 * 2f) - 1f);\n    let _e25 = model.y;\n    model.y = ((_e25 * 2f) - 1f);\n    let model_view = model;\n    out.clip_position = model_view;\n    out.tint_color = instance.tint;\n    let _e34 = out;\n    return _e34;\n}\n\n@fragment \nfn fs_main(in: VertexOutput) -> @location(0) f32 {\n    var result: f32;\n    var center_depth: f32;\n    var weight: f32 = 1f;\n    var i: i32 = 1i;\n    var i_1: i32 = 1i;\n\n    let _e7 = textureDimensions(t_diffuse, 0i);\n    let texelSize = (vec2<f32>(1f, 1f) / vec2<f32>(_e7));\n    let _e14 = textureSample(t_diffuse, s_diffuse, in.tex_coords);\n    result = _e14.x;\n    let _e20 = textureSample(depth_buffer, depth_buffer_sampler, in.tex_coords);\n    center_depth = _e20;\n    loop {\n        let _e23 = i;\n        let _e26 = blur_settings.half_kernel_size;\n        if (_e23 <= _e26) {\n        } else {\n            break;\n        }\n        {\n            let _e28 = i;\n            let r = f32(_e28);\n            let _e33 = blur_settings.step;\n            let uv = (in.tex_coords + (r * _e33));\n            let _e38 = textureSample(t_diffuse, s_diffuse, uv);\n            let sample_color = _e38.x;\n            let sample_depth_1 = textureSample(depth_buffer, depth_buffer_sampler, in.tex_coords);\n            let _e44 = center_depth;\n            let _e45 = blur_weight(r, _e44, sample_depth_1);\n            let _e47 = weight;\n            weight = (_e47 + _e45);\n            let _e50 = result;\n            result = (_e50 + (sample_color * _e45));\n        }\n        continuing {\n            let _e53 = i;\n            i = (_e53 + 1i);\n        }\n    }\n    loop {\n        let _e56 = i_1;\n        let _e59 = blur_settings.half_kernel_size;\n        if (_e56 <= _e59) {\n        } else {\n            break;\n        }\n        {\n            let _e61 = i_1;\n            let r_1 = f32(_e61);\n            let _e66 = blur_settings.step;\n            let uv_1 = (in.tex_coords - (r_1 * _e66));\n            let _e71 = textureSample(t_diffuse, s_diffuse, uv_1);\n            let sample_color_1 = _e71.x;\n            let sample_depth_2 = textureSample(depth_buffer, depth_buffer_sampler, in.tex_coords);\n            let _e77 = center_depth;\n            let _e78 = blur_weight(r_1, _e77, sample_depth_2);\n            let _e79 = weight;\n            weight = (_e79 + _e78);\n            let _e82 = result;\n            result = (_e82 + (sample_color_1 * _e78));\n        }\n        continuing {\n            let _e85 = i_1;\n            i_1 = (_e85 + 1i);\n        }\n    }\n    let _e87 = weight;\n    let _e88 = result;\n    result = (_e88 / _e87);\n    let _e90 = result;\n    return _e90;\n}\n";

} // verus!
