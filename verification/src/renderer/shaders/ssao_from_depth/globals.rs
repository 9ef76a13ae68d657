//! The bound globals and bind groups of the `ssao_from_depth` shader.
pub mod t_diffuse;
pub mod s_diffuse;
pub mod global_uniforms;
pub mod view_proj_uniforms;
pub mod depth_buffer;
pub mod depth_buffer_sampler;
pub mod kernel;
pub mod ssao_noise;
pub mod ssao_noise_sampler;
pub mod group5;
pub mod group3;
pub mod group0;
