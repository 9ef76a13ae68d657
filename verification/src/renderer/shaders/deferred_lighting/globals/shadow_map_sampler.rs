//! The `shadow_map_sampler` global of the `deferred_lighting` shader (group 4, binding 2).
use vstd::prelude::*;

verus! {

/// The global's name in the shader.
pub const NAME: &'static str = "shadow_map_sampler";

pub const GROUP: u32 = 4u32;

pub const BINDING: u32 = 2u32;

} // verus!
