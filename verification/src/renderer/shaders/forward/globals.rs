//! The bound globals and bind groups of the `forward` shader.
pub mod t_diffuse;
pub mod s_diffuse;
pub mod global_uniforms;
pub mod view_proj_uniforms;
pub mod lights;
pub mod shadow_map;
pub mod shadow_map_sampler;
pub mod occlusion_map;
pub mod occlusion_map_sampler;
pub mod group3;
pub mod group0;
pub mod group4;
