//! Layout of the `view_proj_uniforms` global (group 2, binding 0) of the `deferred_lighting` shader.
use crate::renderer::bindings::{BindGroupLayoutDescriptor, ShaderStages, spec_uniform_entry, uniform_entry};
use vstd::prelude::*;

verus! {

/// The global's name in the shader.
pub const NAME: &'static str = "view_proj_uniforms";

pub const GROUP: u32 = 2u32;

pub const BINDING: u32 = 0u32;

/// The layout of the `view_proj_uniforms` global (group 2, binding 0), every entry seen by the vertex and fragment stages.
pub fn layout() -> (r: BindGroupLayoutDescriptor)
    ensures
        r.label is Some,
        r.label.unwrap()@ == "view_proj_uniforms"@,
        r.entries@ == seq![
            spec_uniform_entry(0, ShaderStages::VertexFragment),
        ],
{
    BindGroupLayoutDescriptor {
        label: Some("view_proj_uniforms"),
        entries: vec![
            uniform_entry(0, ShaderStages::VertexFragment),
        ],
    }
}

} // verus!
