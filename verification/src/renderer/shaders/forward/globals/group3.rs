//! Layout of bind group 3 of the `forward` shader.
use crate::renderer::bindings::{BindGroupLayoutDescriptor, SamplerBindingType, ShaderStages, TextureSampleType, TextureViewDimension, sampler_entry, spec_sampler_entry, spec_texture_entry, spec_uniform_entry, texture_entry, uniform_entry};
use vstd::prelude::*;

verus! {

pub const GROUP: u32 = 3u32;

/// The layout of bind group 3, every entry seen by the vertex and fragment stages.
pub fn layout() -> (r: BindGroupLayoutDescriptor)
    ensures
        r.label is Some,
        r.label.unwrap()@ == "group3"@,
        r.entries@ == seq![
            spec_uniform_entry(0, ShaderStages::VertexFragment),
            spec_texture_entry(1, ShaderStages::VertexFragment, TextureSampleType::Depth, TextureViewDimension::D2Array),
            spec_sampler_entry(2, ShaderStages::VertexFragment, SamplerBindingType::Comparison),
        ],
{
    BindGroupLayoutDescriptor {
        label: Some("group3"),
        entries: vec![
            uniform_entry(0, ShaderStages::VertexFragment),
            texture_entry(1, ShaderStages::VertexFragment, TextureSampleType::Depth, TextureViewDimension::D2Array),
            sampler_entry(2, ShaderStages::VertexFragment, SamplerBindingType::Comparison),
        ],
    }
}

} // verus!
