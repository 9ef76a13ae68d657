//! The bound globals and bind groups of the `flat` shader.
pub mod t_diffuse;
pub mod s_diffuse;
pub mod global_uniforms;
pub mod view_proj_uniforms;
pub mod group0;
