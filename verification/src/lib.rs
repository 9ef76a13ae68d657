//! Building blocks of a small wgpu renderer whose bookkeeping, layout and
//! shader-text logic is verified with Verus.
pub mod resource_manager;
pub mod sprite;
pub mod utils;
pub mod renderer;
pub mod time;
