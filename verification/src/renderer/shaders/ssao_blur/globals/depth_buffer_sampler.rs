//! The `depth_buffer_sampler` global of the `ssao_blur` shader (group 3, binding 1).
use vstd::prelude::*;

verus! {

/// The global's name in the shader.
pub const NAME: &'static str = "depth_buffer_sampler";

pub const GROUP: u32 = 3u32;

pub const BINDING: u32 = 1u32;

} // verus!
