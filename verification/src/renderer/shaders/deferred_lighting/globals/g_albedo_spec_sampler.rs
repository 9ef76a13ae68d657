//! The `g_albedo_spec_sampler` global of the `deferred_lighting` shader (group 3, binding 5).
use vstd::prelude::*;

verus! {

/// The global's name in the shader.
pub const NAME: &'static str = "g_albedo_spec_sampler";

pub const GROUP: u32 = 3u32;

pub const BINDING: u32 = 5u32;

} // verus!
