//! The constants declared by the `ssao_from_depth` shader.
#[allow(non_snake_case)]
pub mod KERNEL_SIZE;
