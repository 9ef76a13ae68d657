//! The bound globals and bind groups of the `deferred_lighting` shader.
pub mod t_diffuse;
pub mod s_diffuse;
pub mod global_uniforms;
pub mod view_proj_uniforms;
pub mod g_position;
pub mod g_position_sampler;
pub mod g_normal;
pub mod g_normal_sampler;
pub mod g_albedo_spec;
pub mod g_albedo_spec_sampler;
pub mod lights;
pub mod shadow_map;
pub mod shadow_map_sampler;
pub mod group0;
pub mod group4;
pub mod group3;
