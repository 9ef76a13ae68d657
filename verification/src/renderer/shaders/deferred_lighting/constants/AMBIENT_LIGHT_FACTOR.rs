//! The `AMBIENT_LIGHT_FACTOR` constant of the `deferred_lighting` shader.
use vstd::prelude::*;

verus! {

/// The constant's name in the shader.
pub const NAME: &'static str = "AMBIENT_LIGHT_FACTOR";

} // verus!
