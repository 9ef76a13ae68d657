//! Layout of bind group 0 of the `flat` shader.
use crate::renderer::bindings::{BindGroupLayoutDescriptor, SamplerBindingType, ShaderStages, TextureSampleType, TextureViewDimension, sampler_entry, spec_sampler_entry, spec_texture_entry, texture_entry};
use vstd::prelude::*;

verus! {

pub const GROUP: u32 = 0u32;

/// The layout of bind group 0, every entry seen by the vertex and fragment stages.
pub fn layout() -> (r: BindGroupLayoutDescriptor)
    ensures
        r.label is Some,
        r.label.unwrap()@ == "group0"@,
        r.entries@ == seq![
            spec_texture_entry(0, ShaderStages::VertexFragment, TextureSampleType::Float { filterable: true }, TextureViewDimension::D2),
            spec_sampler_entry(1, ShaderStages::VertexFragment, SamplerBindingType::Filtering),
        ],
{
    BindGroupLayoutDescriptor {
        label: Some("group0"),
        entries: vec![
            texture_entry(0, ShaderStages::VertexFragment, TextureSampleType::Float { filterable: true }, TextureViewDimension::D2),
            sampler_entry(1, ShaderStages::VertexFragment, SamplerBindingType::Filtering),
        ],
    }
}

} // verus!
