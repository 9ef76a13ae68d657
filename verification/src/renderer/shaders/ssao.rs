//! Bindings of the `ssao` shader: its bound globals and constants, and
//! its source.
pub mod globals;
use vstd::prelude::*;

verus! {

/// The source of the shader.
pub const SOURCE: &'static str = "struct GlobalUniformsX_naga_oil_mod_XM5WG6YTBNQX {\n    time: f32,\n    screen_size: vec2<f32>,\n}\n\nstruct ViewProjectionUniformsX_naga_oil_mod_XM5WG6YTBNQX {\n    view: mat4x4<f32>,\n    projection: mat4x4<f32>,\n    camera_pos: vec3<f32>,\n    inverse_view: mat4x4<f32>,\n}\n\nstruct VertexInput {\n    @location(0) position: vec4<f32>,\n    @location(1) tex_coords: vec2<f32>,\n}\n\nstruct InstanceInput {\n    @location(2) uv_scale: vec2<f32>,\n    @location(3) uv_offset: vec2<f32>,\n    @location(4) tint: vec4<f32>,\n    @location(5) model_1_: vec4<f32>,\n    @location(6) model_2_: vec4<f32>,\n    @location(7) model_3_: vec4<f32>,\n    @location(8) model_4_: vec4<f32>,\n}\n\nstruct VertexOutput {\n    @builtin(position) clip_position: vec4<f32>,\n    @location(0) tex_coords: vec2<f32>,\n    @location(1) tint_color: vec4<f32>,\n}\n\nstruct Kernel {\n    items: array<vec4<f32>, 64>,\n    count: u32,\n    radius: f32,\n    bias: f32,\n    noise_texture_scale: vec2<f32>,\n}\n\n@group(0) @binding(0) \nvar t_diffuse: texture_2d<f32>;\n@group(0) @binding(1) \nvar s_diffuse: sampler;\n@group(1) @binding(0) \nvar<uniform> global_uniforms: GlobalUniformsX_naga_oil_mod_XM5WG6YTBNQX;\n@group(2) @binding(0) \nvar<uniform> view_proj_uniforms: ViewProjectionUniformsX_naga_oil_mod_XM5WG6YTBNQX;\n@group(3) @binding(0) \nvar g_position: texture_2d<f32>;\n@group(3) @binding(1) \nvar g_position_sampler: sampler;\n@group(3) @binding(2) \nvar g_normal: texture_2d<f32>;\n@group(3) @binding(3) \nvar g_normal_sampler: sampler;\n@group(3) @binding(4) \nvar g_albedo_spec: texture_2d<f32>;\n@group(3) @binding(5) \nvar g_albedo_spec_sampler: sampler;\n@group(4) @binding(0) \nvar<uniform> kernel: Kernel;\n@group(5) @binding(0) \nvar ssao_noise: texture_2d<f32>;\n@group(5) @binding(1) \nvar ssao_noise_sampler: sampler;\n\n@vertex \nfn vs_main(vertex: VertexInput, instance: InstanceInput) -> VertexOutput {\n    var out: VertexOutput;\n    var model: vec4<f32>;\n\n    let model_transform = mat4x4<f32>(instance.model_1_, instance.model_2_, instance.model_3_, instance.model_4_);\n    out.tex_coords = (instance.uv_offset + (instance.uv_scale * vertex.tex_coords));\n    model = vertex.position;\n    let _e18 = model.x;\n    model.x = ((_e18 * 2f) - 1f);\n    let _e25 = model.y;\n    model.y = ((_e25 * 2f) - 1f);\n    let model_view = model;\n    out.clip_position = model_view;\n    out.tint_color = instance.tint;\n    let _e34 = out;\n    return _e34;\n}\n\n@fragment \nfn fs_main(in: VertexOutput) -> @location(0) f32 {\n    var view_space_pos: vec4<f32>;\n    var view_space_normal: vec3<f32>;\n    var random_vec: vec3<f32>;\n    var occlusion: f32 = 0f;\n    var i: i32 = 0i;\n    var sample: vec3<f32>;\n    var offset: vec4<f32>;\n    var sample_depth: f32;\n    var range_check: f32;\n\n    let _e7 = textureSample(g_position, g_position_sampler, in.tex_coords.xy);\n    view_space_pos = _e7;\n    let _e13 = textureSample(g_normal, g_normal_sampler, in.tex_coords.xy);\n    view_space_normal = normalize(_e13.xyz);\n    let _e21 = kernel.noise_texture_scale;\n    let _e25 = textureSample(ssao_noise, ssao_noise_sampler, (_e21 * in.tex_coords.xy));\n    random_vec = _e25.xyz;\n    let _e28 = random_vec;\n    let _e29 = view_space_normal;\n    let _e30 = random_vec;\n    let _e31 = view_space_normal;\n    let tangent = normalize((_e28 - (_e29 * dot(_e30, _e31))));\n    let _e36 = view_space_normal;\n    let bitangent = cross(_e36, tangent);\n    let _e38 = view_space_normal;\n    let TBN = mat3x3<f32>(tangent, bitangent, _e38);\n    loop {\n        let _e41 = i;\n        let _e44 = kernel.count;\n        if (_e41 < i32(_e44)) {\n        } else {\n            break;\n        }\n        {\n            let _e47 = view_space_pos;\n            let _e51 = kernel.radius;\n            let _e55 = i;\n            let _e57 = kernel.items[_e55];\n            sample = (_e47.xyz + ((_e51 * TBN) * _e57.xyz));\n            let _e64 = view_proj_uniforms.projection;\n            let _e65 = sample;\n            offset = (_e64 * vec4<f32>(_e65, 1f));\n            let _e72 = offset.w;\n            let _e73 = offset.x;\n            offset.x = (_e73 / _e72);\n            let _e77 = offset.w;\n            let _e78 = offset.y;\n            offset.y = (_e78 / _e77);\n            let _e82 = offset.x;\n            offset.x = ((_e82 * 0.5f) + 0.5f);\n            let _e89 = offset.y;\n            offset.y = ((_e89 * 0.5f) + 0.5f);\n            let _e96 = offset.y;\n            offset.y = (1f - _e96);\n            let _e101 = offset;\n            let _e103 = textureSample(g_position, g_position_sampler, _e101.xy);\n            sample_depth = _e103.z;\n            let _e110 = kernel.radius;\n            let _e112 = view_space_pos.z;\n            let _e113 = sample_depth;\n            range_check = smoothstep(0f, 1f, (_e110 / abs((_e112 - _e113))));\n            let _e119 = sample_depth;\n            let _e121 = sample.z;\n            let _e124 = kernel.bias;\n            if (_e119 >= (_e121 + _e124)) {\n                let _e128 = range_check;\n                let _e129 = occlusion;\n                occlusion = (_e129 + _e128);\n            }\n        }\n        continuing {\n            let _e132 = i;\n            i = (_e132 + 1i);\n        }\n    }\n    let _e134 = occlusion;\n    let _e137 = kernel.count;\n    occlusion = (1f - (_e134 / f32(_e137)));\n    let _e142 = occlusion;\n    occlusion = pow(_e142, 2f);\n    let _e145 = occlusion;\n    return _e145;\n}\n";

} // verus!
