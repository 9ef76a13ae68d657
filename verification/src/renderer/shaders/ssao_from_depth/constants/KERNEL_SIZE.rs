//! The `KERNEL_SIZE` constant of the `ssao_from_depth` shader.
use vstd::prelude::*;

verus! {

/// The constant's name in the shader.
pub const NAME: &'static str = "KERNEL_SIZE";

/// The constant's value.
pub const VALUE: u32 = 64u32;

} // verus!
