//! The bound globals and bind groups of the `ssao_blur` shader.
pub mod t_diffuse;
pub mod s_diffuse;
pub mod global_uniforms;
pub mod view_proj_uniforms;
pub mod blur_settings;
pub mod depth_buffer;
pub mod depth_buffer_sampler;
pub mod group0;
pub mod group3;
