//! Bindings of the `deferred_lighting` shader: its bound globals and constants, and
//! its source.
pub mod constants;
pub mod globals;
use vstd::prelude::*;

verus! {

/// The source of the shader.
pub const SOURCE: &'static str = "struct GlobalUniforms {\n    time: f32,\n}\n\nstruct ViewProjectionUniforms {\n    view: mat4x4<f32>,\n    projection: mat4x4<f32>,\n    camera_pos: vec3<f32>,\n    inverse_view: mat4x4<f32>,\n}\n\nstruct VertexInput {\n    @location(0) position: vec4<f32>,\n    @location(1) tex_coords: vec2<f32>,\n}\n\nstruct InstanceInput {\n    @location(2) uv_scale: vec2<f32>,\n    @location(3) uv_offset: vec2<f32>,\n    @location(4) tint: vec4<f32>,\n    @location(5) model_1_: vec4<f32>,\n    @location(6) model_2_: vec4<f32>,\n    @location(7) model_3_: vec4<f32>,\n    @location(8) model_4_: vec4<f32>,\n}\n\nstruct VertexOutput {\n    @builtin(position) clip_position: vec4<f32>,\n    @location(0) tex_coords: vec2<f32>,\n    @location(2) tint_color: vec4<f32>,\n}\n\nstruct Light {\n    position: vec4<f32>,\n    color: vec4<f32>,\n    view_proj: mat4x4<f32>,\n}\n\nstruct LightsUniform {\n    items: array<Light, 8>,\n    count: u32,\n}\n\nconst AMBIENT_LIGHT_FACTOR: vec3<f32> = vec3<f32>(0.5f, 0.5f, 0.5f);\n\n@group(0) @binding(0) \nvar t_diffuse: texture_2d<f32>;\n@group(0) @binding(1) \nvar s_diffuse: sampler;\n@group(1) @binding(0) \nvar<uniform> global_uniforms: GlobalUniforms;\n@group(2) @binding(0) \nvar<uniform> view_proj_uniforms: ViewProjectionUniforms;\n@group(3) @binding(0) \nvar g_position: texture_2d<f32>;\n@group(3) @binding(1) \nvar g_position_sampler: sampler;\n@group(3) @binding(2) \nvar g_normal: texture_2d<f32>;\n@group(3) @binding(3) \nvar g_normal_sampler: sampler;\n@group(3) @binding(4) \nvar g_albedo_spec: texture_2d<f32>;\n@group(3) @binding(5) \nvar g_albedo_spec_sampler: sampler;\n@group(4) @binding(0) \nvar<uniform> lights: LightsUniform;\n@group(4) @binding(1) \nvar shadow_map: texture_depth_2d_array;\n@group(4) @binding(2) \nvar shadow_map_sampler: sampler_comparison;\n\n@vertex \nfn vs_main(vertex: VertexInput, instance: InstanceInput) -> VertexOutput {\n    var out: VertexOutput;\n    var model: vec4<f32>;\n\n    let model_transform = mat4x4<f32>(instance.model_1_, instance.model_2_, instance.model_3_, instance.model_4_);\n    out.tex_coords = (instance.uv_offset + (instance.uv_scale * vertex.tex_coords));\n    model = vertex.position;\n    let _e18 = model.x;\n    model.x = ((_e18 * 2f) - 1f);\n    let _e25 = model.y;\n    model.y = ((_e25 * 2f) - 1f);\n    let model_view = model;\n    out.clip_position = model_view;\n    out.tint_color = instance.tint;\n    let _e34 = out;\n    return _e34;\n}\n\n@fragment \nfn fs_main(in: VertexOutput) -> @location(0) vec4<f32> {\n    var specular: vec4<f32> = vec4<f32>(0f, 0f, 0f, 0f);\n    var diffuse: vec4<f32> = vec4<f32>(0f, 0f, 0f, 0f);\n    var total_light: vec4<f32>;\n    var i: u32 = 0u;\n    var shadow: f32;\n    var specular_factor: f32;\n\n    let view_pos = textureSample(g_position, g_position_sampler, in.tex_coords);\n    let view_space_normal = textureSample(g_normal, g_normal_sampler, in.tex_coords);\n    let _e16 = textureSample(g_albedo_spec, g_albedo_spec_sampler, in.tex_coords);\n    let albedo_spec = (in.tint_color * _e16);\n    let _e21 = textureSample(t_diffuse, s_diffuse, in.tex_coords);\n    total_light = vec4(clamp(_e21.x, 0f, 1f));\n    loop {\n        let _e29 = i;\n        let _e32 = lights.count;\n        if (_e29 < _e32) {\n        } else {\n            break;\n        }\n        {\n            let _e36 = i;\n            let light_color = lights.items[_e36].color;\n            let _e42 = i;\n            let light_pos_w = lights.items[_e42].position;\n            let view_dir_v = normalize(view_pos);\n            let _e49 = view_proj_uniforms.view;\n            let light_pos_v = (_e49 * light_pos_w);\n            let light_dir_v = normalize((light_pos_v - view_pos).xyz);\n            let _e56 = i;\n            let _e59 = lights.items[_e56].view_proj;\n            let _e62 = view_proj_uniforms.inverse_view;\n            let shadow_pos = ((_e59 * _e62) * view_pos);\n            shadow = 1f;\n            let half_dir_v = normalize((view_dir_v.xyz + light_dir_v));\n            let reflect_dir_v = reflect(light_dir_v, view_space_normal.xyz);\n            specular_factor = clamp(dot(view_space_normal.xyz, half_dir_v), 0f, 1f);\n            let _e78 = specular_factor;\n            specular_factor = pow(_e78, 32f);\n            let _e81 = specular_factor;\n            if (_e81 > 0f) {\n                let _e85 = shadow;\n                let _e87 = specular_factor;\n                let _e90 = total_light;\n                total_light = (_e90 + (((_e85 * 0.6f) * _e87) * light_color));\n            }\n            let d = clamp(dot(view_space_normal.xyz, light_dir_v), 0f, 1f);\n            let _e97 = shadow;\n            let _e100 = total_light;\n            total_light = (_e100 + ((_e97 * d) * light_color));\n        }\n        continuing {\n            let _e103 = i;\n            i = (_e103 + 1u);\n        }\n    }\n    let _e106 = total_light;\n    return vec4<f32>((albedo_spec.xyz * _e106.xyz), albedo_spec.w);\n}\n";

} // verus!
