//! The `g_normal_sampler` global of the `deferred_lighting` shader (group 3, binding 3).
use vstd::prelude::*;

verus! {

/// The global's name in the shader.
pub const NAME: &'static str = "g_normal_sampler";

pub const GROUP: u32 = 3u32;

pub const BINDING: u32 = 3u32;

} // verus!
