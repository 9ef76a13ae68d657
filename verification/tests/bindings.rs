use quadrender::renderer::bindings::{
    combine_layout_entries, comparison_sampler_layout_entries, depth_buffer_layout_entries,
    depth_texture_array_view_layout_entries, depth_texture_view_layout_entries,
    material_group_layout_entries, sampled_texture_bgl_entries, texture_bgl_entries, texture_sampler_layout_entries,
    texture_view_layout_entries, unfiltered_material_group_layout_entries, uniform_bgl_entry,
    uniform_buffer_layout_entries, uniform_buffer_size, BindGroupLayoutEntry, BindingType,
    BufferBindingType, SamplerBindingType, ShaderStages, TextureSampleType, TextureScalar,
    TextureViewDimension,
};
use quadrender::renderer::shaders;

fn tex(binding: u32, visibility: ShaderStages, sample_type: TextureSampleType, dim: TextureViewDimension) -> BindGroupLayoutEntry {
    BindGroupLayoutEntry {
        binding,
        visibility,
        ty: BindingType::Texture { sample_type, view_dimension: dim, multisampled: false },
        count: None,
    }
}

fn samp(binding: u32, visibility: ShaderStages, s: SamplerBindingType) -> BindGroupLayoutEntry {
    BindGroupLayoutEntry { binding, visibility, ty: BindingType::Sampler(s), count: None }
}

fn uni(binding: u32, visibility: ShaderStages) -> BindGroupLayoutEntry {
    BindGroupLayoutEntry {
        binding,
        visibility,
        ty: BindingType::Buffer { ty: BufferBindingType::Uniform, has_dynamic_offset: false, min_binding_size: None },
        count: None,
    }
}

#[test]
fn shader_uniform_layouts() {
    let l = shaders::forward::globals::global_uniforms::layout();
    assert_eq!(l.label, Some("global_uniforms"));
    assert_eq!(l.entries, vec![uni(0, ShaderStages::VertexFragment)]);
    assert_eq!(shaders::forward::globals::global_uniforms::GROUP, 1);
    let k = shaders::ssao::globals::kernel::layout();
    assert_eq!(k.label, Some("kernel"));
    assert_eq!(shaders::ssao::globals::kernel::GROUP, 4);
}

#[test]
fn shader_group_layouts() {
    let l = shaders::deferred_lighting::globals::group4::layout();
    assert_eq!(l.label, Some("group4"));
    assert_eq!(
        l.entries,
        vec![
            uni(0, ShaderStages::VertexFragment),
            tex(1, ShaderStages::VertexFragment, TextureSampleType::Depth, TextureViewDimension::D2Array),
            samp(2, ShaderStages::VertexFragment, SamplerBindingType::Comparison),
        ]
    );
    let g = shaders::ssao_blur::globals::group3::layout();
    assert_eq!(
        g.entries,
        vec![
            tex(0, ShaderStages::VertexFragment, TextureSampleType::Depth, TextureViewDimension::D2),
            samp(1, ShaderStages::VertexFragment, SamplerBindingType::Filtering),
        ]
    );
}

#[test]
fn combined_entries_are_renumbered() {
    let groups = vec![
        texture_view_layout_entries(TextureScalar::Float, 2, true),
        texture_sampler_layout_entries(true),
        uniform_buffer_layout_entries(),
    ];
    let c = combine_layout_entries(&groups);
    let bindings: Vec<u32> = c.iter().map(|e| e.binding).collect();
    assert_eq!(bindings, vec![0, 1, 2]);
    assert_eq!(c[2].visibility, ShaderStages::All);
}

#[test]
fn material_groups() {
    assert_eq!(
        material_group_layout_entries(),
        vec![
            tex(0, ShaderStages::Fragment, TextureSampleType::Float { filterable: true }, TextureViewDimension::D2),
            samp(1, ShaderStages::Fragment, SamplerBindingType::Filtering),
        ]
    );
    assert_eq!(
        unfiltered_material_group_layout_entries()[1],
        samp(1, ShaderStages::Fragment, SamplerBindingType::NonFiltering)
    );
    assert_eq!(depth_buffer_layout_entries()[0].ty, BindingType::Texture {
        sample_type: TextureSampleType::Depth,
        view_dimension: TextureViewDimension::D2,
        multisampled: false,
    });
}

#[test]
fn texture_view_entries_by_kind() {
    assert_eq!(
        texture_view_layout_entries(TextureScalar::Uint, 3, false),
        vec![tex(0, ShaderStages::Fragment, TextureSampleType::Uint, TextureViewDimension::D3)]
    );
    assert_eq!(
        depth_texture_view_layout_entries(1),
        vec![tex(0, ShaderStages::Fragment, TextureSampleType::Depth, TextureViewDimension::D1)]
    );
    assert_eq!(
        depth_texture_array_view_layout_entries(),
        vec![tex(0, ShaderStages::Fragment, TextureSampleType::Depth, TextureViewDimension::D2Array)]
    );
    assert_eq!(comparison_sampler_layout_entries(), vec![samp(0, ShaderStages::Fragment, SamplerBindingType::Comparison)]);
    assert_eq!(texture_sampler_layout_entries(false), vec![samp(0, ShaderStages::Fragment, SamplerBindingType::NonFiltering)]);
    assert_eq!(uniform_bgl_entry(), uni(0, ShaderStages::All));
}

#[test]
fn texture_entries_follow_the_format() {
    let color = texture_bgl_entries(wgpu::TextureFormat::Rgba8UnormSrgb);
    assert_eq!(color[0], tex(0, ShaderStages::Fragment, TextureSampleType::Float { filterable: true }, TextureViewDimension::D2));
    assert_eq!(color[1], samp(1, ShaderStages::Fragment, SamplerBindingType::Filtering));
    let depth = texture_bgl_entries(wgpu::TextureFormat::Depth32Float);
    assert_eq!(depth[0].ty, BindingType::Texture {
        sample_type: TextureSampleType::Depth,
        view_dimension: TextureViewDimension::D2,
        multisampled: false,
    });
    assert_eq!(depth[1], samp(1, ShaderStages::Fragment, SamplerBindingType::Comparison));
    let unfilterable = texture_bgl_entries(wgpu::TextureFormat::R32Float);
    assert_eq!(unfilterable[1], samp(1, ShaderStages::Fragment, SamplerBindingType::NonFiltering));
    let uint = sampled_texture_bgl_entries(wgpu::TextureFormat::R32Uint).unwrap();
    assert_eq!(uint[1], samp(1, ShaderStages::Fragment, SamplerBindingType::Filtering));
    assert!(sampled_texture_bgl_entries(wgpu::TextureFormat::Depth24PlusStencil8).is_none());
}

#[test]
fn uniform_buffers_round_up_to_16() {
    assert_eq!(uniform_buffer_size(0), 0);
    assert_eq!(uniform_buffer_size(1), 16);
    assert_eq!(uniform_buffer_size(16), 16);
    assert_eq!(uniform_buffer_size(100), 112);
}

#[test]
fn shader_globals_name_their_bindings() {
    assert_eq!(shaders::ssao_from_depth::globals::t_diffuse::NAME, "t_diffuse");
    assert_eq!(shaders::ssao_from_depth::globals::t_diffuse::GROUP, 0);
    assert_eq!(shaders::ssao_from_depth::globals::s_diffuse::BINDING, 1);
    assert_eq!(shaders::ssao_from_depth::globals::global_uniforms::NAME, "global_uniforms");
    assert_eq!(shaders::ssao_from_depth::constants::KERNEL_SIZE::VALUE, 64);
    assert_eq!(shaders::deferred_lighting::constants::AMBIENT_LIGHT_FACTOR::NAME, "AMBIENT_LIGHT_FACTOR");
    assert!(shaders::flat::SOURCE.contains("fn vs_main"));
}
