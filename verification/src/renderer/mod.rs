//! Renderer-side handles, layouts and shader text.
pub mod bindings;
pub mod display;
pub mod instance;
pub mod mesh;
pub mod model;
pub mod pipeline;
pub mod pipeline_store;
pub mod shader_type;
pub mod shaders;
pub mod slot_key;
pub mod texture;
