//! The `occlusion_map` global of the `forward` shader (group 4, binding 0).
use vstd::prelude::*;

verus! {

/// The global's name in the shader.
pub const NAME: &'static str = "occlusion_map";

pub const GROUP: u32 = 4u32;

pub const BINDING: u32 = 0u32;

} // verus!
