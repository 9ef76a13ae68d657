//! The `g_position` global of the `deferred_lighting` shader (group 3, binding 0).
use vstd::prelude::*;

verus! {

/// The global's name in the shader.
pub const NAME: &'static str = "g_position";

pub const GROUP: u32 = 3u32;

pub const BINDING: u32 = 0u32;

} // verus!
