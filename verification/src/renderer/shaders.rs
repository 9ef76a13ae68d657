//! Bind group layouts of the renderer's shaders, one module per shader,
//! one module per bound global or bind group.
pub mod ssao_from_depth;
pub mod picking;
pub mod deferred_lighting;
pub mod depth_only;
pub mod geometry;
pub mod ssao;
pub mod shadow_map;
pub mod text;
pub mod flat;
pub mod ssao_blur;
pub mod forward;
