//! The `ssao_noise_sampler` global of the `ssao` shader (group 5, binding 1).
use vstd::prelude::*;

verus! {

/// The global's name in the shader.
pub const NAME: &'static str = "ssao_noise_sampler";

pub const GROUP: u32 = 5u32;

pub const BINDING: u32 = 1u32;

} // verus!
