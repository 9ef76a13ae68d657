//! Layout of bind group 3 of the `deferred_lighting` shader.
use crate::renderer::bindings::{BindGroupLayoutDescriptor, SamplerBindingType, ShaderStages, TextureSampleType, TextureViewDimension, sampler_entry, spec_sampler_entry, spec_texture_entry, texture_entry};
use vstd::prelude::*;

verus! {

pub const GROUP: u32 = 3u32;

/// The layout of bind group 3, every entry seen by the vertex and fragment stages.
pub fn layout() -> (r: BindGroupLayoutDescriptor)
    ensures
        r.label is Some,
        r.label.unwrap()@ == "group3"@,
        r.entries@ == seq![
            spec_texture_entry(0, ShaderStages::VertexFragment, TextureSampleType::Float { filterable: true }, TextureViewDimension::D2),
            spec_sampler_entry(1, ShaderStages::VertexFragment, SamplerBindingType::Filtering),
            spec_texture_entry(2, ShaderStages::VertexFragment, TextureSampleType::Float { filterable: true }, TextureViewDimension::D2),
            spec_sampler_entry(3, ShaderStages::VertexFragment, SamplerBindingType::Filtering),
            spec_texture_entry(4, ShaderStages::VertexFragment, TextureSampleType::Float { filterable: true }, TextureViewDimension::D2),
            spec_sampler_entry(5, ShaderStages::VertexFragment, SamplerBindingType::Filtering),
        ],
{
    BindGroupLayoutDescriptor {
        label: Some("group3"),
        entries: vec![
            texture_entry(0, ShaderStages::VertexFragment, TextureSampleType::Float { filterable: true }, TextureViewDimension::D2),
            sampler_entry(1, ShaderStages::VertexFragment, SamplerBindingType::Filtering),
            texture_entry(2, ShaderStages::VertexFragment, TextureSampleType::Float { filterable: true }, TextureViewDimension::D2),
            sampler_entry(3, ShaderStages::VertexFragment, SamplerBindingType::Filtering),
            texture_entry(4, ShaderStages::VertexFragment, TextureSampleType::Float { filterable: true }, TextureViewDimension::D2),
            sampler_entry(5, ShaderStages::VertexFragment, SamplerBindingType::Filtering),
        ],
    }
}

} // verus!
