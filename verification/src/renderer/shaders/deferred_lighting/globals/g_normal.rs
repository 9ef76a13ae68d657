//! The `g_normal` global of the `deferred_lighting` shader (group 3, binding 2).
use vstd::prelude::*;

verus! {

/// The global's name in the shader.
pub const NAME: &'static str = "g_normal";

pub const GROUP: u32 = 3u32;

pub const BINDING: u32 = 2u32;

} // verus!
