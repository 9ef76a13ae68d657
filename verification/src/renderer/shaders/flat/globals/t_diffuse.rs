//! The `t_diffuse` global of the `flat` shader (group 0, binding 0).
use vstd::prelude::*;

verus! {

/// The global's name in the shader.
pub const NAME: &'static str = "t_diffuse";

pub const GROUP: u32 = 0u32;

pub const BINDING: u32 = 0u32;

} // verus!
