//! The bound globals and bind groups of the `ssao` shader.
pub mod t_diffuse;
pub mod s_diffuse;
pub mod global_uniforms;
pub mod view_proj_uniforms;
pub mod g_position;
pub mod g_position_sampler;
pub mod g_normal;
pub mod g_normal_sampler;
pub mod g_albedo_spec;
pub mod g_albedo_spec_sampler;
pub mod kernel;
pub mod ssao_noise;
pub mod ssao_noise_sampler;
pub mod group5;
pub mod group3;
pub mod group0;
