//! The `ssao_noise` global of the `ssao` shader (group 5, binding 0).
use vstd::prelude::*;

verus! {

/// The global's name in the shader.
pub const NAME: &'static str = "ssao_noise";

pub const GROUP: u32 = 5u32;

pub const BINDING: u32 = 0u32;

} // verus!
