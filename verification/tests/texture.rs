use quadrender::renderer::texture::{
    choose_surface_format, readback_layout, rgba_bytes_per_row, srgb_counterpart, view_formats, view_formats_with, AddressMode, CompareFunction, FilterMode, ImageFormat,
    SamplerSettings, TextureBuilder, USAGE_COPY_DST, USAGE_COPY_SRC, USAGE_RENDER_ATTACHMENT,
    USAGE_TEXTURE_BINDING,
};

#[test]
fn unset_options_take_defaults() {
    let b = TextureBuilder::labeled("t");
    assert_eq!(b.label, Some("t"));
    assert_eq!(b.resolved_format(), ImageFormat::Rgba8UnormSrgb);
    assert_eq!(b.resolved_usage(), USAGE_RENDER_ATTACHMENT | USAGE_TEXTURE_BINDING);
    assert_eq!(
        b.sampler_settings(false),
        SamplerSettings {
            address_mode: AddressMode::ClampToEdge,
            mag_filter: FilterMode::Nearest,
            min_filter: FilterMode::Nearest,
            mipmap_filter: FilterMode::Nearest,
            compare: None,
        }
    );
}

#[test]
fn depth_textures_filter_linearly_and_compare() {
    let b = TextureBuilder::depth();
    assert_eq!(b.resolved_format(), ImageFormat::Depth32Float);
    assert_eq!(
        b.sampler_settings(true),
        SamplerSettings {
            address_mode: AddressMode::ClampToEdge,
            mag_filter: FilterMode::Linear,
            min_filter: FilterMode::Linear,
            mipmap_filter: FilterMode::Nearest,
            compare: Some(CompareFunction::LessEqual),
        }
    );
    assert!(b.builds());
    let no_target = TextureBuilder::depth().with_usage(USAGE_TEXTURE_BINDING);
    assert!(!no_target.builds());
}

#[test]
fn filter_mode_sets_all_filters() {
    let b = TextureBuilder::render_target().with_filter_mode(FilterMode::Linear).with_address_mode(AddressMode::Repeat);
    assert_eq!(b.resolved_format(), ImageFormat::Bgra8UnormSrgb);
    let s = b.sampler_settings(false);
    assert_eq!(s.mag_filter, FilterMode::Linear);
    assert_eq!(s.min_filter, FilterMode::Linear);
    assert_eq!(s.mipmap_filter, FilterMode::Linear);
    assert_eq!(s.address_mode, AddressMode::Repeat);
}

#[test]
fn initial_data_needs_copy_destination() {
    assert!(TextureBuilder::labeled("x").takes_initial_data());
    let b = TextureBuilder::labeled("x").for_initial_data();
    assert_eq!(b.usage, Some(USAGE_TEXTURE_BINDING | USAGE_COPY_DST));
    assert!(!TextureBuilder::labeled("x").with_usage(USAGE_TEXTURE_BINDING).takes_initial_data());
    assert!(TextureBuilder::labeled("x").with_usage(USAGE_COPY_DST | USAGE_COPY_SRC).takes_initial_data());
    let kept = TextureBuilder::labeled("x").with_usage(USAGE_COPY_DST | USAGE_COPY_SRC).for_initial_data();
    assert_eq!(kept.usage, Some(USAGE_COPY_DST | USAGE_COPY_SRC));
}

#[test]
fn srgb_counterpart_view_formats() {
    assert_eq!(
        view_formats(wgpu::TextureFormat::Rgba8UnormSrgb, false),
        vec![wgpu::TextureFormat::Rgba8UnormSrgb, wgpu::TextureFormat::Rgba8Unorm]
    );
    assert_eq!(
        view_formats(wgpu::TextureFormat::Bgra8Unorm, false),
        vec![wgpu::TextureFormat::Bgra8Unorm, wgpu::TextureFormat::Bgra8UnormSrgb]
    );
    assert_eq!(view_formats(wgpu::TextureFormat::R32Float, false), vec![wgpu::TextureFormat::R32Float]);
    assert_eq!(view_formats(wgpu::TextureFormat::Depth32Float, true), vec![wgpu::TextureFormat::Depth32Float]);
}

#[test]
fn readback_sizes() {
    assert_eq!(readback_layout(960, 720, 4), (3840, 2_764_800));
    assert_eq!(rgba_bytes_per_row(2), 8);
}

#[test]
fn srgb_counterparts() {
    assert_eq!(srgb_counterpart(wgpu::TextureFormat::Rgba8UnormSrgb), wgpu::TextureFormat::Rgba8Unorm);
    assert_eq!(srgb_counterpart(wgpu::TextureFormat::Bgra8Unorm), wgpu::TextureFormat::Bgra8UnormSrgb);
    assert_eq!(srgb_counterpart(wgpu::TextureFormat::R32Float), wgpu::TextureFormat::R32Float);
    assert_eq!(
        view_formats_with(wgpu::TextureFormat::Rgba8Unorm, false, wgpu::TextureFormat::Rgba8UnormSrgb),
        vec![wgpu::TextureFormat::Rgba8Unorm, wgpu::TextureFormat::Rgba8UnormSrgb]
    );
    assert_eq!(
        view_formats_with(wgpu::TextureFormat::Rgba8Unorm, true, wgpu::TextureFormat::Rgba8UnormSrgb),
        vec![wgpu::TextureFormat::Rgba8Unorm]
    );
    assert_eq!(
        view_formats_with(wgpu::TextureFormat::R32Float, false, wgpu::TextureFormat::R32Float),
        vec![wgpu::TextureFormat::R32Float]
    );
}

#[test]
fn default_builder_settings() {
    let s = TextureBuilder::new().settings();
    assert_eq!(s.format, wgpu::TextureFormat::Rgba8UnormSrgb);
    assert_eq!(s.usage, USAGE_RENDER_ATTACHMENT | USAGE_TEXTURE_BINDING);
    assert_eq!(s.view_formats, vec![wgpu::TextureFormat::Rgba8UnormSrgb, wgpu::TextureFormat::Rgba8Unorm]);
    assert_eq!(
        s.sampler,
        SamplerSettings {
            address_mode: AddressMode::ClampToEdge,
            mag_filter: FilterMode::Nearest,
            min_filter: FilterMode::Nearest,
            mipmap_filter: FilterMode::Nearest,
            compare: None,
        }
    );
    let rt = TextureBuilder::render_target().settings();
    assert_eq!(rt.format, wgpu::TextureFormat::Bgra8UnormSrgb);
    assert_eq!(rt.view_formats, vec![wgpu::TextureFormat::Bgra8UnormSrgb, wgpu::TextureFormat::Bgra8Unorm]);
}

#[test]
fn depth_builder_settings() {
    let s = TextureBuilder::depth().settings();
    assert_eq!(s.format, wgpu::TextureFormat::Depth32Float);
    assert_eq!(s.view_formats, vec![wgpu::TextureFormat::Depth32Float]);
    assert_eq!(s.sampler.compare, Some(CompareFunction::LessEqual));
    assert_eq!(s.sampler.mag_filter, FilterMode::Linear);
    assert!(!TextureBuilder::depth().with_usage(USAGE_TEXTURE_BINDING).builds());
    assert!(TextureBuilder::new().with_usage(USAGE_TEXTURE_BINDING).builds());
    assert_eq!(TextureBuilder::new().with_usage(USAGE_TEXTURE_BINDING).settings().usage, USAGE_TEXTURE_BINDING);
}

#[test]
fn surface_format_prefers_srgb() {
    assert_eq!(
        choose_surface_format(&vec![wgpu::TextureFormat::Bgra8Unorm, wgpu::TextureFormat::Bgra8UnormSrgb]),
        wgpu::TextureFormat::Bgra8UnormSrgb
    );
    assert_eq!(
        choose_surface_format(&vec![wgpu::TextureFormat::Rgba16Float, wgpu::TextureFormat::Bgra8Unorm]),
        wgpu::TextureFormat::Rgba16Float
    );
}

#[test]
fn image_formats_stand_for_wgpu_formats() {
    assert_eq!(ImageFormat::Rgba8UnormSrgb.to_wgpu(), wgpu::TextureFormat::Rgba8UnormSrgb);
    assert_eq!(ImageFormat::Bgra8UnormSrgb.to_wgpu(), wgpu::TextureFormat::Bgra8UnormSrgb);
    assert_eq!(ImageFormat::Depth32Float.to_wgpu(), wgpu::TextureFormat::Depth32Float);
    assert_eq!(ImageFormat::Other(wgpu::TextureFormat::R16Float).to_wgpu(), wgpu::TextureFormat::R16Float);
    let s = TextureBuilder::new().with_format(ImageFormat::Other(wgpu::TextureFormat::R16Float)).settings();
    assert_eq!(s.format, wgpu::TextureFormat::R16Float);
    assert_eq!(s.view_formats, vec![wgpu::TextureFormat::R16Float]);
}
