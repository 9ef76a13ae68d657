//! Texture handles, and how a texture builder's options resolve into the
//! settings of a texture and its sampler.
use crate::renderer::bindings::{
    format_depth_aspect, format_has_depth_aspect, format_sample_kind, TextureSampleType,
};
use crate::renderer::slot_key::SlotKey;
use vstd::prelude::*;

verus! {

/// Tag of the texture slot map's keys.
#[derive(Debug, Hash)]
pub struct TextureSlot;

/// A key of the render state's texture slot map.
pub type TextureRef = SlotKey<TextureSlot>;

#[derive(Clone, Copy, Debug, PartialEq, Eq, Hash, Structural)]
pub enum FilterMode {
    Nearest,
    Linear,
}

#[derive(Clone, Copy, Debug, PartialEq, Eq, Hash, Structural)]
pub enum AddressMode {
    ClampToEdge,
    Repeat,
    MirrorRepeat,
    ClampToBorder,
}

#[derive(Clone, Copy, Debug, PartialEq, Eq, Hash, Structural)]
pub enum CompareFunction {
    Never,
    Less,
    Equal,
    LessEqual,
    Greater,
    NotEqual,
    GreaterEqual,
    Always,
}

/// Texture usage bits, numbered as wgpu numbers them.
pub const USAGE_COPY_SRC: u32 = 1;

pub const USAGE_COPY_DST: u32 = 2;

pub const USAGE_TEXTURE_BINDING: u32 = 4;

pub const USAGE_STORAGE_BINDING: u32 = 8;

pub const USAGE_RENDER_ATTACHMENT: u32 = 16;

/// A colour format as wgpu's table describes `Rgba8UnormSrgb` and
/// `Bgra8UnormSrgb`: no depth aspect, sampled as filterable floats, an sRGB
/// format whose suffix can be removed and added back.
pub open spec fn spec_srgb_colour_format(f: wgpu::TextureFormat) -> bool {
    &&& !format_depth_aspect(f)
    &&& format_sample_kind(f) == Some(TextureSampleType::Float { filterable: true })
    &&& srgb_format(f)
    &&& format_with_srgb(format_without_srgb(f)) == f
}

/// A depth format as wgpu's table describes `Depth32Float`: a depth aspect,
/// sampled as depth, with no sRGB counterpart.
pub open spec fn spec_depth_format(f: wgpu::TextureFormat) -> bool {
    &&& format_depth_aspect(f)
    &&& format_sample_kind(f) == Some(TextureSampleType::Depth)
    &&& format_without_srgb(f) == f
    &&& format_with_srgb(f) == f
}

/// A texture format: one of those the renderer picks for itself, by name,
/// or any other of wgpu's formats.
#[derive(Clone, Copy, Debug, PartialEq, Eq)]
pub enum ImageFormat {
    /// 8-bit RGBA, sRGB-encoded: the format of textures built without one.
    Rgba8UnormSrgb,
    /// 8-bit BGRA, sRGB-encoded: the format of render targets.
    Bgra8UnormSrgb,
    /// 32-bit float depth: the format of depth textures.
    Depth32Float,
    /// Any other of wgpu's formats.
    Other(wgpu::TextureFormat),
}

/// The wgpu format that `format` stands for.
pub uninterp spec fn wgpu_format(format: ImageFormat) -> wgpu::TextureFormat;

/// The wgpu format that `format` stands for: the wgpu variant of the same
/// name, or the wrapped format. By wgpu's tables the two sRGB formats are
/// sRGB colour formats and `Depth32Float` is a depth format.
#[verifier::external_body]
fn to_wgpu_format(format: ImageFormat) -> (r: wgpu::TextureFormat)
    ensures
        r == wgpu_format(format),
        format matches ImageFormat::Other(f) ==> r == f,
        format is Rgba8UnormSrgb ==> spec_srgb_colour_format(r),
        format is Bgra8UnormSrgb ==> spec_srgb_colour_format(r),
        format is Depth32Float ==> spec_depth_format(r),
{
    match format {
        ImageFormat::Rgba8UnormSrgb => wgpu::TextureFormat::Rgba8UnormSrgb,
        ImageFormat::Bgra8UnormSrgb => wgpu::TextureFormat::Bgra8UnormSrgb,
        ImageFormat::Depth32Float => wgpu::TextureFormat::Depth32Float,
        ImageFormat::Other(f) => f,
    }
}

impl ImageFormat {
    /// The wgpu format this stands for.
    pub fn to_wgpu(self) -> (r: wgpu::TextureFormat)
        ensures
            r == wgpu_format(self),
            self matches ImageFormat::Other(f) ==> r == f,
    {
        to_wgpu_format(self)
    }
}

/// The options of a texture to build; what is left unset takes a default
/// when the texture is built.
#[derive(Clone)]
pub struct TextureBuilder<'a> {
    pub label: Option<&'a str>,
    pub format: Option<ImageFormat>,
    pub address_mode: Option<AddressMode>,
    pub min_filter: Option<FilterMode>,
    pub mag_filter: Option<FilterMode>,
    pub mipmap_filter: Option<FilterMode>,
    pub compare_func: Option<CompareFunction>,
    pub usage: Option<u32>,
}

/// The sampler settings a texture is built with.
#[derive(Clone, Copy, Debug, PartialEq, Eq, Structural)]
pub struct SamplerSettings {
    pub address_mode: AddressMode,
    pub mag_filter: FilterMode,
    pub min_filter: FilterMode,
    pub mipmap_filter: FilterMode,
    pub compare: Option<CompareFunction>,
}

pub open spec fn spec_or<T>(o: Option<T>, default: T) -> T {
    match o {
        Some(v) => v,
        None => default,
    }
}

/// Whether `usage` holds every bit of `bits`.
pub open spec fn spec_has_usage(usage: u32, bits: u32) -> bool {
    usage & bits == bits
}

/// The usage a texture is built with: its own, or else render attachment
/// and texture binding.
pub open spec fn spec_resolved_usage(usage: Option<u32>) -> u32 {
    spec_or(usage, (USAGE_RENDER_ATTACHMENT | USAGE_TEXTURE_BINDING) as u32)
}

/// The format a texture is built with: its own, or else `Rgba8UnormSrgb`.
pub open spec fn spec_resolved_format(b: TextureBuilder) -> ImageFormat {
    spec_or(b.format, ImageFormat::Rgba8UnormSrgb)
}

/// The sampler of a texture with the given options. Depth textures filter
/// linearly when magnified and minified, take the nearest mip level, and
/// compare less-or-equal, unless told otherwise; any other option left unset
/// takes the default: clamp to edge, nearest filtering, no comparison.
pub open spec fn spec_sampler_settings(
    address_mode: Option<AddressMode>,
    mag_filter: Option<FilterMode>,
    min_filter: Option<FilterMode>,
    mipmap_filter: Option<FilterMode>,
    compare_func: Option<CompareFunction>,
    has_depth_aspect: bool,
) -> SamplerSettings {
    if has_depth_aspect {
        SamplerSettings {
            address_mode: spec_or(address_mode, AddressMode::ClampToEdge),
            mag_filter: spec_or(mag_filter, FilterMode::Linear),
            min_filter: spec_or(min_filter, FilterMode::Linear),
            mipmap_filter: spec_or(mipmap_filter, FilterMode::Nearest),
            compare: Some(spec_or(compare_func, CompareFunction::LessEqual)),
        }
    } else {
        SamplerSettings {
            address_mode: spec_or(address_mode, AddressMode::ClampToEdge),
            mag_filter: spec_or(mag_filter, FilterMode::Nearest),
            min_filter: spec_or(min_filter, FilterMode::Nearest),
            mipmap_filter: spec_or(mipmap_filter, FilterMode::Nearest),
            compare: compare_func,
        }
    }
}

/// Every option set on a builder is the one its sampler uses, whether or
/// not the format has a depth aspect; only unset options take a default.
/// Depth textures default to linear magnifying and minifying, the nearest
/// mip level and a less-or-equal comparison, other textures to nearest
/// filtering and no comparison, and both to clamping at the edge.
pub proof fn lemma_set_sampler_options_are_used(b: TextureBuilder, has_depth_aspect: bool)
    ensures
        ({
            let s = spec_sampler_settings(
                b.address_mode,
                b.mag_filter,
                b.min_filter,
                b.mipmap_filter,
                b.compare_func,
                has_depth_aspect,
            );
            &&& b.address_mode matches Some(a) ==> s.address_mode == a
            &&& b.mag_filter matches Some(m) ==> s.mag_filter == m
            &&& b.min_filter matches Some(m) ==> s.min_filter == m
            &&& b.mipmap_filter matches Some(m) ==> s.mipmap_filter == m
            &&& b.compare_func matches Some(c) ==> s.compare == Some(c)
            &&& b.address_mode is None ==> s.address_mode == AddressMode::ClampToEdge
            &&& b.mag_filter is None ==> s.mag_filter == (if has_depth_aspect {
                FilterMode::Linear
            } else {
                FilterMode::Nearest
            })
            &&& b.min_filter is None ==> s.min_filter == (if has_depth_aspect {
                FilterMode::Linear
            } else {
                FilterMode::Nearest
            })
            &&& b.mipmap_filter is None ==> s.mipmap_filter == FilterMode::Nearest
            &&& b.compare_func is None ==> s.compare == (if has_depth_aspect {
                Some(CompareFunction::LessEqual)
            } else {
                None
            })
        }),
{
}

fn or_filter(o: Option<FilterMode>, default: FilterMode) -> (r: FilterMode)
    ensures
        r == spec_or(o, default),
{
    match o {
        Some(v) => v,
        None => default,
    }
}

impl<'a> TextureBuilder<'a> {
    /// A builder with no option set.
    pub fn new() -> (r: Self)
        ensures
            r.label is None,
            r.format is None,
            r.address_mode is None,
            r.min_filter is None,
            r.mag_filter is None,
            r.mipmap_filter is None,
            r.compare_func is None,
            r.usage is None,
    {
        TextureBuilder {
            label: None,
            format: None,
            address_mode: None,
            min_filter: None,
            mag_filter: None,
            mipmap_filter: None,
            compare_func: None,
            usage: None,
        }
    }

    pub fn labeled(label: &'a str) -> (r: Self)
        ensures
            r.label == Some(label),
            r.format is None,
            r.address_mode is None,
            r.min_filter is None,
            r.mag_filter is None,
            r.mipmap_filter is None,
            r.compare_func is None,
            r.usage is None,
    {
        TextureBuilder { label: Some(label), ..Self::new() }
    }

    /// A builder for a depth texture.
    pub fn depth() -> (r: Self)
        ensures
            r.format == Some(ImageFormat::Depth32Float),
            r.label is None,
            r.address_mode is None,
            r.min_filter is None,
            r.mag_filter is None,
            r.mipmap_filter is None,
            r.compare_func is None,
            r.usage is None,
    {
        Self::new().with_format(ImageFormat::Depth32Float)
    }

    /// A builder for a render target.
    pub fn render_target() -> (r: Self)
        ensures
            r.format == Some(ImageFormat::Bgra8UnormSrgb),
            r.label is None,
            r.address_mode is None,
            r.min_filter is None,
            r.mag_filter is None,
            r.mipmap_filter is None,
            r.compare_func is None,
            r.usage is None,
    {
        Self::new().with_format(ImageFormat::Bgra8UnormSrgb)
    }

    pub fn with_label(self, label: &'a str) -> (r: Self)
        ensures
            r == (TextureBuilder { label: Some(label), ..self }),
    {
        TextureBuilder { label: Some(label), ..self }
    }

    pub fn with_format(self, format: ImageFormat) -> (r: Self)
        ensures
            r == (TextureBuilder { format: Some(format), ..self }),
    {
        TextureBuilder { format: Some(format), ..self }
    }

    pub fn with_usage(self, usage: u32) -> (r: Self)
        ensures
            r == (TextureBuilder { usage: Some(usage), ..self }),
    {
        TextureBuilder { usage: Some(usage), ..self }
    }

    pub fn with_address_mode(self, address_mode: AddressMode) -> (r: Self)
        ensures
            r == (TextureBuilder { address_mode: Some(address_mode), ..self }),
    {
        TextureBuilder { address_mode: Some(address_mode), ..self }
    }

    /// Sets the magnifying, minifying and mip-level filters alike.
    pub fn with_filter_mode(self, filter_mode: FilterMode) -> (r: Self)
        ensures
            r == (TextureBuilder {
                min_filter: Some(filter_mode),
                mag_filter: Some(filter_mode),
                mipmap_filter: Some(filter_mode),
                ..self
            }),
    {
        TextureBuilder {
            min_filter: Some(filter_mode),
            mag_filter: Some(filter_mode),
            mipmap_filter: Some(filter_mode),
            ..self
        }
    }

    /// The format the texture is built with: its own, or else
    /// `Rgba8UnormSrgb`.
    pub fn resolved_format(&self) -> (r: ImageFormat)
        ensures
            r == spec_resolved_format(*self),
    {
        match self.format {
            Some(f) => f,
            None => ImageFormat::Rgba8UnormSrgb,
        }
    }

    /// The usage the texture is built with.
    pub fn resolved_usage(&self) -> (r: u32)
        ensures
            r == spec_resolved_usage(self.usage),
    {
        match self.usage {
            Some(u) => u,
            None => USAGE_RENDER_ATTACHMENT | USAGE_TEXTURE_BINDING,
        }
    }

    /// The sampler settings for the texture, given whether its format has a
    /// depth aspect.
    pub fn sampler_settings(&self, has_depth_aspect: bool) -> (r: SamplerSettings)
        ensures
            r == spec_sampler_settings(
                self.address_mode,
                self.mag_filter,
                self.min_filter,
                self.mipmap_filter,
                self.compare_func,
                has_depth_aspect,
            ),
    {
        let address_mode = match self.address_mode {
            Some(a) => a,
            None => AddressMode::ClampToEdge,
        };
        if has_depth_aspect {
            let compare = match self.compare_func {
                Some(c) => c,
                None => CompareFunction::LessEqual,
            };
            SamplerSettings {
                address_mode,
                mag_filter: or_filter(self.mag_filter, FilterMode::Linear),
                min_filter: or_filter(self.min_filter, FilterMode::Linear),
                mipmap_filter: or_filter(self.mipmap_filter, FilterMode::Nearest),
                compare: Some(compare),
            }
        } else {
            SamplerSettings {
                address_mode,
                mag_filter: or_filter(self.mag_filter, FilterMode::Nearest),
                min_filter: or_filter(self.min_filter, FilterMode::Nearest),
                mipmap_filter: or_filter(self.mipmap_filter, FilterMode::Nearest),
                compare: self.compare_func,
            }
        }
    }

    /// Whether the builder can fill a texture from bytes: its usage is
    /// unset, or lets bytes be copied in.
    pub open spec fn spec_takes_initial_data(&self) -> bool {
        self.usage matches Some(u) ==> spec_has_usage(u, USAGE_COPY_DST)
    }

    /// Whether the builder can fill a texture from bytes.
    pub fn takes_initial_data(&self) -> (r: bool)
        ensures
            r == self.spec_takes_initial_data(),
    {
        match self.usage {
            Some(u) => u & USAGE_COPY_DST == USAGE_COPY_DST,
            None => true,
        }
    }

    /// The builder to fill a texture from bytes: an unset usage becomes
    /// texture binding and copy destination; a set usage, which must let
    /// bytes be copied in, stays.
    pub fn for_initial_data(self) -> (r: Self)
        requires
            self.spec_takes_initial_data(),
        ensures
            self.usage is Some ==> r == self,
            self.usage is None ==> r == (TextureBuilder {
                usage: Some((USAGE_TEXTURE_BINDING | USAGE_COPY_DST) as u32),
                ..self
            }),
    {
        match self.usage {
            Some(_) => self,
            None => TextureBuilder { usage: Some(USAGE_TEXTURE_BINDING | USAGE_COPY_DST), ..self },
        }
    }
}

/// Whether wgpu's `TextureFormat::is_srgb` holds of `format`: it is
/// defined as the format differing from itself with its sRGB suffix
/// removed.
pub open spec fn srgb_format(format: wgpu::TextureFormat) -> bool {
    format != format_without_srgb(format)
}

/// What wgpu's `TextureFormat::remove_srgb_suffix` gives for `format`.
pub uninterp spec fn format_without_srgb(format: wgpu::TextureFormat) -> wgpu::TextureFormat;

/// What wgpu's `TextureFormat::add_srgb_suffix` gives for `format`.
pub uninterp spec fn format_with_srgb(format: wgpu::TextureFormat) -> wgpu::TextureFormat;

/// wgpu's `TextureFormat::is_srgb`, which by wgpu's source compares the
/// format with itself with its sRGB suffix removed.
#[verifier::external_body]
fn format_is_srgb(format: wgpu::TextureFormat) -> (r: bool)
    ensures
        r == srgb_format(format),
{
    format.is_srgb()
}

/// wgpu's `TextureFormat::remove_srgb_suffix`; its result is named, not
/// written out.
#[verifier::external_body]
fn format_remove_srgb_suffix(format: wgpu::TextureFormat) -> (r: wgpu::TextureFormat)
    ensures
        r == format_without_srgb(format),
{
    format.remove_srgb_suffix()
}

/// wgpu's `TextureFormat::add_srgb_suffix`; its result is named, not written
/// out.
#[verifier::external_body]
fn format_add_srgb_suffix(format: wgpu::TextureFormat) -> (r: wgpu::TextureFormat)
    ensures
        r == format_with_srgb(format),
{
    format.add_srgb_suffix()
}

/// The `PartialEq` that wgpu derives for `TextureFormat`: two formats are
/// equal when they are the same variant with equal fields.
pub assume_specification[ <wgpu::TextureFormat as PartialEq>::eq ](
    a: &wgpu::TextureFormat,
    b: &wgpu::TextureFormat,
) -> (r: bool)
    ensures
        r == (*a == *b),
;

/// The sRGB counterpart of a format: the format with its sRGB suffix
/// removed if it has one, else with one added.
pub open spec fn spec_srgb_counterpart(format: wgpu::TextureFormat) -> wgpu::TextureFormat {
    if srgb_format(format) {
        format_without_srgb(format)
    } else {
        format_with_srgb(format)
    }
}

/// The formats a texture of `format` can be viewed as, given its sRGB
/// counterpart: its own, and for a colour format also the counterpart where
/// that differs from it.
pub open spec fn spec_view_formats(
    format: wgpu::TextureFormat,
    has_depth_aspect: bool,
    counterpart: wgpu::TextureFormat,
) -> Seq<wgpu::TextureFormat> {
    if !has_depth_aspect && counterpart != format {
        seq![format, counterpart]
    } else {
        seq![format]
    }
}

/// The sRGB counterpart of `format`.
pub fn srgb_counterpart(format: wgpu::TextureFormat) -> (r: wgpu::TextureFormat)
    ensures
        r == spec_srgb_counterpart(format),
{
    if format_is_srgb(format) {
        format_remove_srgb_suffix(format)
    } else {
        format_add_srgb_suffix(format)
    }
}

/// The view formats of a texture of `format`, given its sRGB counterpart.
pub fn view_formats_with(
    format: wgpu::TextureFormat,
    has_depth_aspect: bool,
    counterpart: wgpu::TextureFormat,
) -> (r: Vec<wgpu::TextureFormat>)
    ensures
        r@ == spec_view_formats(format, has_depth_aspect, counterpart),
{
    let mut formats = vec![format];
    if !has_depth_aspect && format != counterpart {
        formats.push(counterpart);
    }
    formats
}

/// The formats a texture of `format` can be viewed as: its own, and for a
/// colour format also its sRGB counterpart where that differs from it.
pub fn view_formats(format: wgpu::TextureFormat, has_depth_aspect: bool) -> (r: Vec<wgpu::TextureFormat>)
    ensures
        r@ == spec_view_formats(format, has_depth_aspect, spec_srgb_counterpart(format)),
{
    if has_depth_aspect {
        view_formats_with(format, true, format)
    } else {
        let other = srgb_counterpart(format);
        view_formats_with(format, false, other)
    }
}

/// A texture's view formats start with its own format and never list a
/// format twice; a depth texture has no other.
pub proof fn lemma_view_formats_distinct(
    format: wgpu::TextureFormat,
    has_depth_aspect: bool,
    counterpart: wgpu::TextureFormat,
    i: int,
    j: int,
)
    requires
        0 <= i < j < spec_view_formats(format, has_depth_aspect, counterpart).len(),
    ensures
        spec_view_formats(format, has_depth_aspect, counterpart)[0] == format,
        spec_view_formats(format, has_depth_aspect, counterpart)[i] != spec_view_formats(
            format,
            has_depth_aspect,
            counterpart,
        )[j],
        !has_depth_aspect,
{
}

/// Everything a texture is built with besides its label and size.
pub struct TextureSettings {
    pub format: wgpu::TextureFormat,
    pub usage: u32,
    pub view_formats: Vec<wgpu::TextureFormat>,
    pub sampler: SamplerSettings,
}

/// Whether a builder with the options of `b` builds a texture: the original
/// refuses a depth format whose usage leaves out render attachment.
pub open spec fn spec_builds(b: TextureBuilder) -> bool {
    !(format_depth_aspect(wgpu_format(spec_resolved_format(b))) && !spec_has_usage(
        spec_resolved_usage(b.usage),
        USAGE_RENDER_ATTACHMENT,
    ))
}

/// Whether `t` is what a builder with the options of `b` resolves to when
/// its format resolves to `format`: that format, the resolved usage, the
/// format's view formats and the sampler settings for the format.
pub open spec fn spec_settings_of(b: TextureBuilder, format: wgpu::TextureFormat, t: TextureSettings) -> bool {
    let depth = format_depth_aspect(format);
    &&& t.format == format
    &&& t.usage == spec_resolved_usage(b.usage)
    &&& t.view_formats@ == spec_view_formats(format, depth, spec_srgb_counterpart(format))
    &&& t.sampler == spec_sampler_settings(
        b.address_mode,
        b.mag_filter,
        b.min_filter,
        b.mipmap_filter,
        b.compare_func,
        depth,
    )
}

impl<'a> TextureBuilder<'a> {
    /// Whether the builder builds a texture.
    pub fn builds(&self) -> (r: bool)
        ensures
            r == spec_builds(*self),
    {
        let format = to_wgpu_format(self.resolved_format());
        !(format_has_depth_aspect(format) && self.resolved_usage() & USAGE_RENDER_ATTACHMENT
            != USAGE_RENDER_ATTACHMENT)
    }

    /// The settings the texture is built with: the wgpu format its format
    /// resolves to, and what follows from the format.
    pub fn settings(&self) -> (r: TextureSettings)
        requires
            spec_builds(*self),
        ensures
            spec_settings_of(*self, wgpu_format(spec_resolved_format(*self)), r),
    {
        let format = to_wgpu_format(self.resolved_format());
        let depth = format_has_depth_aspect(format);
        let sampler = self.sampler_settings(depth);
        let view_formats = view_formats(format, depth);
        TextureSettings { format, usage: self.resolved_usage(), view_formats, sampler }
    }
}

/// The format a display's surface is configured with, out of those the
/// surface supports: the first sRGB one, or else the first of all.
pub fn choose_surface_format(formats: &Vec<wgpu::TextureFormat>) -> (r: wgpu::TextureFormat)
    requires
        formats@.len() > 0,
    ensures
        (exists|i: int| 0 <= i < formats@.len() && srgb_format(#[trigger] formats@[i])) ==> exists|i: int|
            0 <= i < formats@.len() && srgb_format(formats@[i]) && r == #[trigger] formats@[i] && forall|
                j: int,
            | 0 <= j < i ==> !srgb_format(#[trigger] formats@[j]),
        (forall|j: int| 0 <= j < formats@.len() ==> !srgb_format(#[trigger] formats@[j])) ==> r
            == formats@[0],
{
    let mut i: usize = 0;
    while i < formats.len()
        invariant
            0 <= i <= formats@.len(),
            forall|j: int| 0 <= j < i ==> !srgb_format(#[trigger] formats@[j]),
        decreases formats@.len() - i,
    {
        if format_is_srgb(formats[i]) {
            return formats[i];
        }
        i = i + 1;
    }
    formats[0]
}

/// The bytes in one row of an image of `width` 32-bit pixels.
pub fn rgba_bytes_per_row(width: u32) -> (r: u32)
    requires
        4 * width <= u32::MAX,
    ensures
        r == 4 * width,
{
    4 * width
}

/// How a texture of `width` by `height` texels of `block_size` bytes is laid
/// out when read back: the bytes per row, and the bytes in all.
pub fn readback_layout(width: u32, height: u32, block_size: u32) -> (r: (u32, u64))
    requires
        width * block_size <= u32::MAX,
        height * (width * block_size) <= u32::MAX,
    ensures
        r.0 == width * block_size,
        r.1 == height * (width * block_size),
{
    let bytes_per_row = width * block_size;
    let total_size = (height * bytes_per_row) as u64;
    (bytes_per_row, total_size)
}

} // verus!
