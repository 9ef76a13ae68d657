//! The `depth_buffer` global of the `ssao_from_depth` shader (group 3, binding 0).
use vstd::prelude::*;

verus! {

/// The global's name in the shader.
pub const NAME: &'static str = "depth_buffer";

pub const GROUP: u32 = 3u32;

pub const BINDING: u32 = 0u32;

} // verus!
