//! Bindings of the `forward` shader: its bound globals and constants, and
//! its source.
pub mod globals;
use vstd::prelude::*;

verus! {

/// The source of the shader.
pub const SOURCE: &'static str = "struct GlobalUniformsX_naga_oil_mod_XM5WG6YTBNQX {\n    time: f32,\n    screen_size: vec2<f32>,\n}\n\nstruct ViewProjectionUniformsX_naga_oil_mod_XM5WG6YTBNQX {\n    view: mat4x4<f32>,\n    projection: mat4x4<f32>,\n    camera_pos: vec3<f32>,\n    inverse_view: mat4x4<f32>,\n}\n\nstruct ModelVertexDataX_naga_oil_mod_XM5WG6YTBNQX {\n    @location(0) position: vec4<f32>,\n    @location(1) tex_coords: vec2<f32>,\n    @location(2) normal: vec3<f32>,\n}\n\nstruct InstanceInput {\n    @location(3) uv_scale: vec2<f32>,\n    @location(4) uv_offset: vec2<f32>,\n    @location(5) tint: vec4<f32>,\n    @location(6) model_1_: vec4<f32>,\n    @location(7) model_2_: vec4<f32>,\n    @location(8) model_3_: vec4<f32>,\n    @location(9) model_4_: vec4<f32>,\n    @location(10) normal_1_: vec4<f32>,\n    @location(11) normal_2_: vec4<f32>,\n    @location(12) normal_3_: vec4<f32>,\n    @location(13) normal_4_: vec4<f32>,\n}\n\nstruct VertexOutput {\n    @builtin(position) clip_position: vec4<f32>,\n    @location(0) tex_coords: vec2<f32>,\n    @location(1) view_pos: vec4<f32>,\n    @location(2) view_space_normal: vec3<f32>,\n    @location(3) tint_color: vec4<f32>,\n    @location(4) world_pos: vec4<f32>,\n}\n\nstruct Light {\n    direction: vec3<f32>,\n    kind: u32,\n    color: vec4<f32>,\n    view_proj: mat4x4<f32>,\n    position: vec3<f32>,\n    radius: f32,\n    reach: f32,\n}\n\nstruct LightsUniform {\n    items: array<Light, 8>,\n    count: u32,\n    shadow_bias_minimum: f32,\n    shadow_bias_factor: f32,\n    shadow_blur_half_kernel_size: i32,\n    ambient_color: vec4<f32>,\n}\n\n@group(0) @binding(0) \nvar t_diffuse: texture_2d<f32>;\n@group(0) @binding(1) \nvar s_diffuse: sampler;\n@group(1) @binding(0) \nvar<uniform> global_uniforms: GlobalUniformsX_naga_oil_mod_XM5WG6YTBNQX;\n@group(2) @binding(0) \nvar<uniform> view_proj_uniforms: ViewProjectionUniformsX_naga_oil_mod_XM5WG6YTBNQX;\n@group(3) @binding(0) \nvar<uniform> lights: LightsUniform;\n@group(3) @binding(1) \nvar shadow_map: texture_depth_2d_array;\n@group(3) @binding(2) \nvar shadow_map_sampler: sampler_comparison;\n@group(4) @binding(0) \nvar occlusion_map: texture_2d<f32>;\n@group(4) @binding(1) \nvar occlusion_map_sampler: sampler;\n\n@vertex \nfn vs_main(vertex: ModelVertexDataX_naga_oil_mod_XM5WG6YTBNQX, instance: InstanceInput) -> VertexOutput {\n    var out: VertexOutput;\n\n    let model_transform = mat4x4<f32>(instance.model_1_, instance.model_2_, instance.model_3_, instance.model_4_);\n    let normal_matrix = mat4x4<f32>(instance.normal_1_, instance.normal_2_, instance.normal_3_, instance.normal_4_);\n    out.tex_coords = (instance.uv_offset + (instance.uv_scale * vertex.tex_coords));\n    let _e21 = view_proj_uniforms.view;\n    let model_view = (_e21 * model_transform);\n    let model_view_pos = (model_view * vertex.position);\n    let _e28 = view_proj_uniforms.projection;\n    out.clip_position = (_e28 * model_view_pos);\n    out.view_space_normal = (normal_matrix * vec4<f32>(vertex.normal, 1f)).xyz;\n    out.view_pos = model_view_pos;\n    out.tint_color = instance.tint;\n    out.world_pos = (model_transform * vertex.position);\n    let _e42 = out;\n    return _e42;\n}\n\n@fragment \nfn fs_main(in: VertexOutput) -> @location(0) vec4<f32> {\n    var total_light: vec3<f32> = vec3<f32>(0f, 0f, 0f);\n    var i: u32 = 0u;\n    var visibility: f32;\n    var bias: f32;\n    var occlusion: f32;\n    var weight: f32;\n    var x: i32;\n    var y: i32;\n\n    let view_pos = in.view_pos;\n    let view_space_normal = in.view_space_normal;\n    let _e10 = textureSample(t_diffuse, s_diffuse, in.tex_coords);\n    let albedo_spec = (in.tint_color * _e10);\n    let _e13 = textureDimensions(shadow_map);\n    let texelSize = (1f / f32(_e13.x));\n    let _e20 = lights.ambient_color;\n    let MaterialAmbientColor = _e20.xyz;\n    let MaterialDiffuseColor = albedo_spec.xyz;\n    const MaterialSpecularColor = vec3<f32>(0.4f, 0.4f, 0.4f);\n    let n = normalize(in.view_space_normal);\n    let _e35 = global_uniforms.screen_size;\n    let _e37 = textureSample(occlusion_map, occlusion_map_sampler, (in.clip_position.xy / _e35));\n    let ao = _e37.x;\n    let _e42 = total_light;\n    total_light = (_e42 + ((ao * MaterialAmbientColor) * MaterialDiffuseColor));\n    loop {\n        let _e45 = i;\n        let _e48 = lights.count;\n        if (_e45 < _e48) {\n        } else {\n            break;\n        }\n        {\n            visibility = 1f;\n            let _e54 = i;\n            let _e57 = lights.items[_e54].kind;\n            if (_e57 == 1u) {\n                let _e64 = i;\n                let _e67 = lights.items[_e64].position;\n                let light_to_fragment = (in.world_pos.xyz - _e67);\n                let light_dist_sqr = dot(light_to_fragment, light_to_fragment);\n                let _e73 = i;\n                let _e76 = lights.items[_e73].direction;\n                let spot_factor = dot(normalize(light_to_fragment), _e76);\n                let _e80 = i;\n                let _e83 = lights.items[_e80].reach;\n                let reach_sqr = pow(_e83, 2f);\n                let _e88 = i;\n                let _e91 = lights.items[_e88].radius;\n                if ((spot_factor > _e91) && (light_dist_sqr < reach_sqr)) {\n                    let _e101 = i;\n                    let _e104 = lights.items[_e101].radius;\n                    visibility = (1f - (((1f - spot_factor) * 1f) / (1f - _e104)));\n                } else {\n                    visibility = 0f;\n                }\n            }\n            let _e113 = i;\n            let _e116 = lights.items[_e113].color;\n            let LightColor = _e116.xyz;\n            let _e120 = i;\n            let LightPower = lights.items[_e120].color.w;\n            let _e127 = view_proj_uniforms.view;\n            let _e130 = i;\n            let _e133 = lights.items[_e130].position;\n            let l = normalize((_e127 * vec4<f32>(_e133, 0f)).xyz);\n            let cosTheta = clamp(dot(n, l), 0f, 1f);\n            let E = normalize(-(in.view_pos.xyz));\n            let R = reflect(-(l), n);\n            let cosAlpha = clamp(dot(E, R), 0f, 1f);\n            bias = 0f;\n            let _e157 = i;\n            let _e160 = lights.items[_e157].view_proj;\n            let shadow_pos = (_e160 * in.world_pos);\n            const flip_correction = vec2<f32>(0.5f, -0.5f);\n            let proj_correction = (1f / shadow_pos.w);\n            let ShadowCoord = (((shadow_pos.xy * flip_correction) * proj_correction) + vec2<f32>(0.5f, 0.5f));\n            occlusion = 0f;\n            weight = 0f;\n            let _e182 = lights.shadow_blur_half_kernel_size;\n            x = -(_e182);\n            loop {\n                let _e185 = x;\n                let _e188 = lights.shadow_blur_half_kernel_size;\n                if (_e185 <= _e188) {\n                } else {\n                    break;\n                }\n                {\n                    let _e192 = lights.shadow_blur_half_kernel_size;\n                    y = -(_e192);\n                    loop {\n                        let _e195 = y;\n                        let _e198 = lights.shadow_blur_half_kernel_size;\n                        if (_e195 <= _e198) {\n                        } else {\n                            break;\n                        }\n                        {\n                            let _e203 = x;\n                            let _e205 = y;\n                            let _e210 = i;\n                            let _e212 = bias;\n                            let _e216 = textureSampleCompare(shadow_map, shadow_map_sampler, (ShadowCoord.xy + (vec2<f32>(f32(_e203), f32(_e205)) * texelSize)), _e210, ((shadow_pos.z - _e212) / shadow_pos.w));\n                            let _e219 = occlusion;\n                            occlusion = (_e219 + (1f - _e216));\n                            let _e222 = weight;\n                            weight = (_e222 + 1f);\n                        }\n                        continuing {\n                            let _e225 = y;\n                            y = (_e225 + 1i);\n                        }\n                    }\n                }\n                continuing {\n                    let _e228 = x;\n                    x = (_e228 + 1i);\n                }\n            }\n            let _e230 = weight;\n            let _e231 = occlusion;\n            occlusion = (_e231 / _e230);\n            let _e233 = visibility;\n            let _e234 = occlusion;\n            visibility = clamp((_e233 - _e234), 0f, 1f);\n            let _e239 = visibility;\n            let _e244 = visibility;\n            let _e252 = total_light;\n            total_light = (_e252 + (((((_e239 * MaterialDiffuseColor) * LightColor) * LightPower) * cosTheta) + ((((_e244 * MaterialSpecularColor) * LightColor) * LightPower) * pow(cosAlpha, 5f))));\n        }\n        continuing {\n            let _e255 = i;\n            i = (_e255 + 1u);\n        }\n    }\n    let _e257 = total_light;\n    return vec4<f32>(_e257.xyz, albedo_spec.w);\n}\n";

} // verus!
