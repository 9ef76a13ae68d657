//! The `shadow_map` global of the `deferred_lighting` shader (group 4, binding 1).
use vstd::prelude::*;

verus! {

/// The global's name in the shader.
pub const NAME: &'static str = "shadow_map";

pub const GROUP: u32 = 4u32;

pub const BINDING: u32 = 1u32;

} // verus!
