//! Bindings of the `ssao_from_depth` shader: its bound globals and constants, and
//! its source.
pub mod constants;
pub mod globals;
use vstd::prelude::*;

verus! {

/// The source of the shader.
pub const SOURCE: &'static str = "struct GlobalUniformsX_naga_oil_mod_XM5WG6YTBNQX {\n    time: f32,\n    screen_size: vec2<f32>,\n}\n\nstruct ViewProjectionUniformsX_naga_oil_mod_XM5WG6YTBNQX {\n    view: mat4x4<f32>,\n    projection: mat4x4<f32>,\n    camera_pos: vec3<f32>,\n    inverse_view: mat4x4<f32>,\n}\n\nstruct Kernel {\n    items: array<vec4<f32>, 64>,\n    radius: f32,\n    bias: f32,\n    noise_texture_scale: vec2<f32>,\n    aspect_ratio: f32,\n    tan_half_fov: f32,\n    inverse_proj: mat4x4<f32>,\n}\n\nstruct VertexInput {\n    @location(0) position: vec4<f32>,\n    @location(1) tex_coords: vec2<f32>,\n}\n\nstruct InstanceInput {\n    @location(2) uv_scale: vec2<f32>,\n    @location(3) uv_offset: vec2<f32>,\n    @location(4) tint: vec4<f32>,\n    @location(5) model_1_: vec4<f32>,\n    @location(6) model_2_: vec4<f32>,\n    @location(7) model_3_: vec4<f32>,\n    @location(8) model_4_: vec4<f32>,\n}\n\nstruct VertexOutput {\n    @builtin(position) clip_position: vec4<f32>,\n    @location(0) tex_coords: vec2<f32>,\n}\n\nconst KERNEL_SIZE: u32 = 64u;\n\n@group(0) @binding(0) \nvar t_diffuse: texture_2d<f32>;\n@group(0) @binding(1) \nvar s_diffuse: sampler;\n@group(1) @binding(0) \nvar<uniform> global_uniforms: GlobalUniformsX_naga_oil_mod_XM5WG6YTBNQX;\n@group(2) @binding(0) \nvar<uniform> view_proj_uniforms: ViewProjectionUniformsX_naga_oil_mod_XM5WG6YTBNQX;\n@group(3) @binding(0) \nvar depth_buffer: texture_depth_2d;\n@group(3) @binding(1) \nvar depth_buffer_sampler: sampler;\n@group(4) @binding(0) \nvar<uniform> kernel: Kernel;\n@group(5) @binding(0) \nvar ssao_noise: texture_2d<f32>;\n@group(5) @binding(1) \nvar ssao_noise_sampler: sampler;\n\nfn reconstructPosition(coords: vec2<f32>) -> vec3<f32> {\n    let x = ((coords.x * 2f) - 1f);\n    let y = (((1f - coords.y) * 2f) - 1f);\n    let z = textureSample(depth_buffer, depth_buffer_sampler, coords);\n    let position_s = vec4<f32>(x, y, z, 1f);\n    let _e20 = kernel.inverse_proj;\n    let position_v = (_e20 * position_s);\n    return (position_v.xyz / vec3(position_v.w));\n}\n\nfn normalFromDepth(center: vec3<f32>, coords_1: vec2<f32>) -> vec3<f32> {\n    var y1_: vec3<f32>;\n    var y2_: vec3<f32>;\n    var x1_: vec3<f32>;\n    var x2_: vec3<f32>;\n\n    let _e6 = global_uniforms.screen_size;\n    let _e9 = reconstructPosition((coords_1 + (vec2<f32>(0f, 1f) / _e6)));\n    let _e15 = global_uniforms.screen_size;\n    let _e18 = reconstructPosition((coords_1 + (vec2<f32>(0f, -1f) / _e15)));\n    y1_ = _e9;\n    y2_ = center;\n    if (abs((_e18.z - center.z)) < abs((_e9.z - center.z))) {\n        y1_ = center;\n        y2_ = _e18;\n    }\n    let _e36 = global_uniforms.screen_size;\n    let _e39 = reconstructPosition((coords_1 + (vec2<f32>(-1f, 0f) / _e36)));\n    let _e45 = global_uniforms.screen_size;\n    let _e48 = reconstructPosition((coords_1 + (vec2<f32>(1f, 0f) / _e45)));\n    x1_ = _e39;\n    x2_ = center;\n    if (abs((_e48.z - center.z)) < abs((_e39.z - center.z))) {\n        x1_ = center;\n        x2_ = _e48;\n    }\n    let _e60 = x2_;\n    let _e61 = x1_;\n    let _e63 = y2_;\n    let _e64 = y1_;\n    return normalize(cross((_e60 - _e61), (_e63 - _e64)));\n}\n\n@vertex \nfn vs_main(vertex: VertexInput, instance: InstanceInput) -> VertexOutput {\n    var out: VertexOutput;\n    var model: vec4<f32>;\n\n    let model_transform = mat4x4<f32>(instance.model_1_, instance.model_2_, instance.model_3_, instance.model_4_);\n    out.tex_coords = (instance.uv_offset + (instance.uv_scale * vertex.tex_coords));\n    model = vertex.position;\n    let _e18 = model.x;\n    model.x = ((_e18 * 2f) - 1f);\n    let _e25 = model.y;\n    model.y = ((_e25 * 2f) - 1f);\n    let model_view = model;\n    out.clip_position = model_view;\n    let _e32 = out;\n    return _e32;\n}\n\n@fragment \nfn fs_main(in: VertexOutput) -> @location(0) f32 {\n    var view_pos: vec3<f32>;\n    var view_space_normal: vec3<f32>;\n    var random_vec: vec3<f32>;\n    var occlusion: f32 = 0f;\n    var i: i32 = 0i;\n    var sample: vec3<f32>;\n    var offset: vec4<f32>;\n    var sample_depth: f32;\n    var range_check: f32;\n\n    let _e4 = reconstructPosition(in.tex_coords);\n    view_pos = _e4;\n    let _e6 = view_pos;\n    let _e8 = normalFromDepth(_e6, in.tex_coords);\n    view_space_normal = _e8;\n    let _e14 = kernel.noise_texture_scale;\n    let _e18 = textureSample(ssao_noise, ssao_noise_sampler, (_e14 * in.tex_coords.xy));\n    random_vec = _e18.xyz;\n    let _e21 = random_vec;\n    let _e22 = view_space_normal;\n    let _e23 = random_vec;\n    let _e24 = view_space_normal;\n    let tangent = normalize((_e21 - (_e22 * dot(_e23, _e24))));\n    let _e29 = view_space_normal;\n    let bitangent = cross(_e29, tangent);\n    let _e31 = view_space_normal;\n    let TBN = mat3x3<f32>(tangent, bitangent, _e31);\n    loop {\n        let _e34 = i;\n        if (_e34 < 64i) {\n        } else {\n            break;\n        }\n        {\n            let _e37 = view_pos;\n            let _e41 = kernel.radius;\n            let _e45 = i;\n            let _e47 = kernel.items[_e45];\n            sample = (_e37.xyz + ((_e41 * TBN) * _e47.xyz));\n            let _e54 = view_proj_uniforms.projection;\n            let _e55 = sample;\n            offset = (_e54 * vec4<f32>(_e55, 1f));\n            let _e62 = offset.w;\n            let _e63 = offset.x;\n            offset.x = (_e63 / _e62);\n            let _e67 = offset.w;\n            let _e68 = offset.y;\n            offset.y = (_e68 / _e67);\n            let _e72 = offset.x;\n            offset.x = ((_e72 * 0.5f) + 0.5f);\n            let _e79 = offset.y;\n            offset.y = ((_e79 * 0.5f) + 0.5f);\n            let _e86 = offset.y;\n            offset.y = (1f - _e86);\n            let _e89 = offset;\n            let _e91 = reconstructPosition(_e89.xy);\n            sample_depth = _e91.z;\n            let _e98 = kernel.radius;\n            let _e100 = view_pos.z;\n            let _e101 = sample_depth;\n            range_check = smoothstep(0f, 1f, (_e98 / abs((_e100 - _e101))));\n            let _e107 = sample_depth;\n            let _e109 = sample.z;\n            let _e112 = kernel.bias;\n            if (_e107 >= (_e109 + _e112)) {\n                let _e116 = range_check;\n                let _e117 = range_check;\n                let _e119 = occlusion;\n                occlusion = (_e119 + (_e116 * _e117));\n            }\n        }\n        continuing {\n            let _e122 = i;\n            i = (_e122 + 1i);\n        }\n    }\n    let _e124 = occlusion;\n    occlusion = (1f - (_e124 / 64f));\n    let _e129 = occlusion;\n    occlusion = pow(_e129, 2f);\n    let _e132 = occlusion;\n    return _e132;\n}\n";

} // verus!
