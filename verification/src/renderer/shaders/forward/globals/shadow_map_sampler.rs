//! The `shadow_map_sampler` global of the `forward` shader (group 3, binding 2).
use vstd::prelude::*;

verus! {

/// The global's name in the shader.
pub const NAME: &'static str = "shadow_map_sampler";

pub const GROUP: u32 = 3u32;

pub const BINDING: u32 = 2u32;

} // verus!
