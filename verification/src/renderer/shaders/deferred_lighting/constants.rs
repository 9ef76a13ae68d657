//! The constants declared by the `deferred_lighting` shader.
#[allow(non_snake_case)]
pub mod AMBIENT_LIGHT_FACTOR;
