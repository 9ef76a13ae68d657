//! The `s_diffuse` global of the `flat` shader (group 0, binding 1).
use vstd::prelude::*;

verus! {

/// The global's name in the shader.
pub const NAME: &'static str = "s_diffuse";

pub const GROUP: u32 = 0u32;

pub const BINDING: u32 = 1u32;

} // verus!
