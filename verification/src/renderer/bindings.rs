//! Bind group layouts: the renderer's own description of them (turned into
//! `wgpu` descriptors at the device), the entries of each bindable resource
//! kind, and how the entries of several resources are combined into one
//! bind group.
use vstd::prelude::*;

verus! {

/// The shader stages that see a binding.
#[derive(Clone, Copy, Debug, PartialEq, Eq, Structural)]
pub enum ShaderStages {
    Vertex,
    Fragment,
    Compute,
    VertexFragment,
    All,
}

#[derive(Clone, Copy, Debug, PartialEq, Eq, Structural)]
pub enum BufferBindingType {
    Uniform,
    Storage { read_only: bool },
}

#[derive(Clone, Copy, Debug, PartialEq, Eq, Structural)]
pub enum TextureSampleType {
    Float { filterable: bool },
    Depth,
    Sint,
    Uint,
}

#[derive(Clone, Copy, Debug, PartialEq, Eq, Structural)]
pub enum TextureViewDimension {
    D1,
    D2,
    D2Array,
    Cube,
    CubeArray,
    D3,
}

#[derive(Clone, Copy, Debug, PartialEq, Eq, Structural)]
pub enum SamplerBindingType {
    Filtering,
    NonFiltering,
    Comparison,
}

#[derive(Clone, Copy, Debug, PartialEq, Eq, Structural)]
pub enum BindingType {
    Buffer { ty: BufferBindingType, has_dynamic_offset: bool, min_binding_size: Option<u64> },
    Sampler(SamplerBindingType),
    Texture {
        sample_type: TextureSampleType,
        view_dimension: TextureViewDimension,
        multisampled: bool,
    },
}

#[derive(Clone, Copy, Debug, PartialEq, Eq, Structural)]
pub struct BindGroupLayoutEntry {
    pub binding: u32,
    pub visibility: ShaderStages,
    pub ty: BindingType,
    pub count: Option<u32>,
}

#[derive(Clone, Debug)]
pub struct BindGroupLayoutDescriptor {
    pub label: Option<&'static str>,
    pub entries: Vec<BindGroupLayoutEntry>,
}

/// A uniform buffer bound without dynamic offset or minimum size.
pub open spec fn spec_uniform_entry(binding: u32, visibility: ShaderStages) -> BindGroupLayoutEntry {
    BindGroupLayoutEntry {
        binding,
        visibility,
        ty: BindingType::Buffer {
            ty: BufferBindingType::Uniform,
            has_dynamic_offset: false,
            min_binding_size: None,
        },
        count: None,
    }
}

/// A single-sampled texture.
pub open spec fn spec_texture_entry(
    binding: u32,
    visibility: ShaderStages,
    sample_type: TextureSampleType,
    view_dimension: TextureViewDimension,
) -> BindGroupLayoutEntry {
    BindGroupLayoutEntry {
        binding,
        visibility,
        ty: BindingType::Texture { sample_type, view_dimension, multisampled: false },
        count: None,
    }
}

pub open spec fn spec_sampler_entry(
    binding: u32,
    visibility: ShaderStages,
    sampler: SamplerBindingType,
) -> BindGroupLayoutEntry {
    BindGroupLayoutEntry { binding, visibility, ty: BindingType::Sampler(sampler), count: None }
}

pub fn uniform_entry(binding: u32, visibility: ShaderStages) -> (r: BindGroupLayoutEntry)
    ensures
        r == spec_uniform_entry(binding, visibility),
{
    BindGroupLayoutEntry {
        binding,
        visibility,
        ty: BindingType::Buffer {
            ty: BufferBindingType::Uniform,
            has_dynamic_offset: false,
            min_binding_size: None,
        },
        count: None,
    }
}

pub fn texture_entry(
    binding: u32,
    visibility: ShaderStages,
    sample_type: TextureSampleType,
    view_dimension: TextureViewDimension,
) -> (r: BindGroupLayoutEntry)
    ensures
        r == spec_texture_entry(binding, visibility, sample_type, view_dimension),
{
    BindGroupLayoutEntry {
        binding,
        visibility,
        ty: BindingType::Texture { sample_type, view_dimension, multisampled: false },
        count: None,
    }
}

pub fn sampler_entry(binding: u32, visibility: ShaderStages, sampler: SamplerBindingType) -> (r:
    BindGroupLayoutEntry)
    ensures
        r == spec_sampler_entry(binding, visibility, sampler),
{
    BindGroupLayoutEntry { binding, visibility, ty: BindingType::Sampler(sampler), count: None }
}

/// The entry of a uniform buffer bound alone: binding 0, seen by every stage.
pub fn uniform_bgl_entry() -> (r: BindGroupLayoutEntry)
    ensures
        r == spec_uniform_entry(0, ShaderStages::All),
{
    uniform_entry(0, ShaderStages::All)
}

/// The scalar type that a sampled texture view yields.
#[derive(Clone, Copy, Debug, PartialEq, Eq, Structural)]
pub enum TextureScalar {
    Float,
    Uint,
    Sint,
}

pub open spec fn spec_view_dimension(dimension: u8) -> TextureViewDimension {
    if dimension == 1 {
        TextureViewDimension::D1
    } else if dimension == 2 {
        TextureViewDimension::D2
    } else {
        TextureViewDimension::D3
    }
}

fn view_dimension(dimension: u8) -> (r: TextureViewDimension)
    requires
        1 <= dimension <= 3,
    ensures
        r == spec_view_dimension(dimension),
{
    if dimension == 1 {
        TextureViewDimension::D1
    } else if dimension == 2 {
        TextureViewDimension::D2
    } else {
        TextureViewDimension::D3
    }
}

pub open spec fn spec_scalar_sample_type(scalar: TextureScalar, filterable: bool) -> TextureSampleType {
    match scalar {
        TextureScalar::Float => TextureSampleType::Float { filterable },
        TextureScalar::Uint => TextureSampleType::Uint,
        TextureScalar::Sint => TextureSampleType::Sint,
    }
}

/// A texture view's sample type follows its texel scalar: float views
/// sample as floats with the view's filterability, unsigned views as
/// unsigned and signed views as signed integers, so views of different
/// scalars never share a sample type.
pub proof fn lemma_sample_type_follows_scalar(
    scalar: TextureScalar,
    filterable: bool,
    other: TextureScalar,
    other_filterable: bool,
)
    ensures
        (spec_scalar_sample_type(scalar, filterable) is Float) <==> scalar == TextureScalar::Float,
        (spec_scalar_sample_type(scalar, filterable) is Uint) <==> scalar == TextureScalar::Uint,
        (spec_scalar_sample_type(scalar, filterable) is Sint) <==> scalar == TextureScalar::Sint,
        scalar == TextureScalar::Float ==> spec_scalar_sample_type(scalar, filterable)
            == (TextureSampleType::Float { filterable }),
        scalar != other ==> spec_scalar_sample_type(scalar, filterable) != spec_scalar_sample_type(
            other,
            other_filterable,
        ),
{
}

/// Layout entries of a texture view of `dimension` dimensions whose texels
/// are `scalar`s, seen by the fragment stage. Only float textures can be
/// filterable, and only views of 1, 2 or 3 dimensions exist.
pub fn texture_view_layout_entries(scalar: TextureScalar, dimension: u8, filterable: bool) -> (r:
    Vec<BindGroupLayoutEntry>)
    requires
        1 <= dimension <= 3,
        scalar != TextureScalar::Float ==> !filterable,
    ensures
        r@ == seq![
            spec_texture_entry(
                0,
                ShaderStages::Fragment,
                spec_scalar_sample_type(scalar, filterable),
                spec_view_dimension(dimension),
            ),
        ],
{
    let sample_type = match scalar {
        TextureScalar::Float => TextureSampleType::Float { filterable },
        TextureScalar::Uint => TextureSampleType::Uint,
        TextureScalar::Sint => TextureSampleType::Sint,
    };
    vec![texture_entry(0, ShaderStages::Fragment, sample_type, view_dimension(dimension))]
}

/// Layout entries of a depth texture view of `dimension` dimensions.
pub fn depth_texture_view_layout_entries(dimension: u8) -> (r: Vec<BindGroupLayoutEntry>)
    requires
        1 <= dimension <= 3,
    ensures
        r@ == seq![
            spec_texture_entry(
                0,
                ShaderStages::Fragment,
                TextureSampleType::Depth,
                spec_view_dimension(dimension),
            ),
        ],
{
    vec![
        texture_entry(
            0,
            ShaderStages::Fragment,
            TextureSampleType::Depth,
            view_dimension(dimension),
        ),
    ]
}

/// Layout entries of a view of an array of 2D depth textures.
pub fn depth_texture_array_view_layout_entries() -> (r: Vec<BindGroupLayoutEntry>)
    ensures
        r@ == seq![
            spec_texture_entry(
                0,
                ShaderStages::Fragment,
                TextureSampleType::Depth,
                TextureViewDimension::D2Array,
            ),
        ],
{
    vec![
        texture_entry(
            0,
            ShaderStages::Fragment,
            TextureSampleType::Depth,
            TextureViewDimension::D2Array,
        ),
    ]
}

/// Layout entries of a (non-)filtering sampler.
pub fn texture_sampler_layout_entries(filterable: bool) -> (r: Vec<BindGroupLayoutEntry>)
    ensures
        r@ == seq![
            spec_sampler_entry(
                0,
                ShaderStages::Fragment,
                if filterable {
                    SamplerBindingType::Filtering
                } else {
                    SamplerBindingType::NonFiltering
                },
            ),
        ],
{
    let sampler = if filterable {
        SamplerBindingType::Filtering
    } else {
        SamplerBindingType::NonFiltering
    };
    vec![sampler_entry(0, ShaderStages::Fragment, sampler)]
}

/// Layout entries of a comparison sampler.
pub fn comparison_sampler_layout_entries() -> (r: Vec<BindGroupLayoutEntry>)
    ensures
        r@ == seq![spec_sampler_entry(0, ShaderStages::Fragment, SamplerBindingType::Comparison)],
{
    vec![sampler_entry(0, ShaderStages::Fragment, SamplerBindingType::Comparison)]
}

/// Layout entries of a uniform buffer.
pub fn uniform_buffer_layout_entries() -> (r: Vec<BindGroupLayoutEntry>)
    ensures
        r@ == seq![spec_uniform_entry(0, ShaderStages::All)],
{
    vec![uniform_bgl_entry()]
}


/// `e` rebound to `binding`.
pub open spec fn spec_rebind(e: BindGroupLayoutEntry, binding: int) -> BindGroupLayoutEntry {
    BindGroupLayoutEntry { binding: binding as u32, visibility: e.visibility, ty: e.ty, count: e.count }
}

/// `entries` with every binding moved up by `offset`.
pub open spec fn spec_shifted(entries: Seq<BindGroupLayoutEntry>, offset: int) -> Seq<
    BindGroupLayoutEntry,
> {
    entries.map_values(|e: BindGroupLayoutEntry| spec_rebind(e, e.binding + offset))
}

/// The entries of a bind group made of several resources: the resources'
/// entries one after another, each resource's bindings moved up by the
/// number of entries before it.
pub open spec fn spec_combined(groups: Seq<Seq<BindGroupLayoutEntry>>) -> Seq<BindGroupLayoutEntry>
    decreases groups.len(),
{
    if groups.len() == 0 {
        Seq::empty()
    } else {
        let before = spec_combined(groups.drop_last());
        before + spec_shifted(groups.last(), before.len() as int)
    }
}

/// The total number of entries of `groups`.
pub open spec fn spec_entry_count(groups: Seq<Seq<BindGroupLayoutEntry>>) -> nat
    decreases groups.len(),
{
    if groups.len() == 0 {
        0
    } else {
        spec_entry_count(groups.drop_last()) + groups.last().len()
    }
}

/// Every moved binding, and the number of entries, fit in a `u32`.
pub open spec fn spec_combine_fits(groups: Seq<Seq<BindGroupLayoutEntry>>) -> bool {
    &&& spec_entry_count(groups) <= u32::MAX
    &&& forall|g: int, k: int|
        0 <= g < groups.len() && 0 <= k < groups[g].len() ==> #[trigger] groups[g][k].binding
            + spec_entry_count(groups.take(g)) <= u32::MAX
}

pub open spec fn spec_views(groups: Seq<Vec<BindGroupLayoutEntry>>) -> Seq<Seq<BindGroupLayoutEntry>> {
    groups.map_values(|v: Vec<BindGroupLayoutEntry>| v@)
}

proof fn lemma_combined_len(groups: Seq<Seq<BindGroupLayoutEntry>>)
    ensures
        spec_combined(groups).len() == spec_entry_count(groups),
    decreases groups.len(),
{
    if groups.len() > 0 {
        lemma_combined_len(groups.drop_last());
    }
}

proof fn lemma_entry_count_take_mono(groups: Seq<Seq<BindGroupLayoutEntry>>, a: int, b: int)
    requires
        0 <= a <= b <= groups.len(),
    ensures
        spec_entry_count(groups.take(a)) <= spec_entry_count(groups.take(b)),
    decreases b - a,
{
    if a < b {
        lemma_entry_count_take_mono(groups, a, b - 1);
        assert(groups.take(b).drop_last() =~= groups.take(b - 1));
    }
}

/// Combines the layout entries of several resources into those of one bind
/// group, as a bind group defined over those resources lays them out.
pub fn combine_layout_entries(groups: &Vec<Vec<BindGroupLayoutEntry>>) -> (r: Vec<
    BindGroupLayoutEntry,
>)
    requires
        spec_combine_fits(spec_views(groups@)),
    ensures
        r@ == spec_combined(spec_views(groups@)),
{
    let ghost all = spec_views(groups@);
    let mut x: Vec<BindGroupLayoutEntry> = Vec::new();
    let mut g: usize = 0;
    proof {
        assert(all.take(0) =~= Seq::<Seq<BindGroupLayoutEntry>>::empty());
    }
    while g < groups.len()
        invariant
            0 <= g <= groups.len(),
            all == spec_views(groups@),
            all.len() == groups@.len(),
            spec_combine_fits(all),
            x@ == spec_combined(all.take(g as int)),
        decreases groups.len() - g,
    {
        proof {
            lemma_combined_len(all.take(g as int));
            lemma_entry_count_take_mono(all, g as int, all.len() as int);
            assert(all.take(all.len() as int) =~= all);
        }
        let offset = x.len() as u32;
        let ghost prefix = x@;
        let group = &groups[g];
        let mut k: usize = 0;
        while k < group.len()
            invariant
                0 <= k <= group.len(),
                group@ == all[g as int],
                g < all.len(),
                all == spec_views(groups@),
                spec_combine_fits(all),
                prefix == spec_combined(all.take(g as int)),
                offset == prefix.len(),
                prefix.len() == spec_entry_count(all.take(g as int)),
                x@ == prefix + spec_shifted(group@.take(k as int), offset as int),
            decreases group.len() - k,
        {
            let e = group[k];
            assert(all[g as int][k as int].binding + spec_entry_count(all.take(g as int)) <= u32::MAX);
            x.push(
                BindGroupLayoutEntry {
                    binding: e.binding + offset,
                    visibility: e.visibility,
                    ty: e.ty,
                    count: e.count,
                },
            );
            proof {
                assert(group@.take(k + 1) =~= group@.take(k as int).push(e));
                assert(spec_shifted(group@.take(k + 1), offset as int) =~= spec_shifted(
                    group@.take(k as int),
                    offset as int,
                ).push(spec_rebind(e, e.binding + offset)));
            }
            k = k + 1;
        }
        proof {
            assert(group@.take(group@.len() as int) =~= group@);
            assert(all.take(g + 1).drop_last() =~= all.take(g as int));
            assert(all.take(g + 1).last() == all[g as int]);
        }
        g = g + 1;
    }
    proof {
        assert(all.take(all.len() as int) =~= all);
    }
    x
}

/// Where every resource numbers its own entries 0, 1, 2, ..., the combined
/// bind group numbers its entries 0, 1, 2, ... in order: no two entries share
/// a binding.
pub proof fn lemma_combined_consecutive(groups: Seq<Seq<BindGroupLayoutEntry>>)
    requires
        spec_combine_fits(groups),
        forall|g: int, k: int|
            0 <= g < groups.len() && 0 <= k < groups[g].len() ==> #[trigger] groups[g][k].binding
                == k,
    ensures
        forall|i: int|
            0 <= i < spec_combined(groups).len() ==> #[trigger] spec_combined(groups)[i].binding == i,
    decreases groups.len(),
{
    if groups.len() > 0 {
        let init = groups.drop_last();
        lemma_combined_len(init);
        lemma_combined_len(groups);
        assert(spec_combine_fits(init)) by {
            assert forall|g: int, k: int|
                0 <= g < init.len() && 0 <= k < init[g].len() implies #[trigger] init[g][k].binding
                + spec_entry_count(init.take(g)) <= u32::MAX by {
                assert(init.take(g) =~= groups.take(g));
                assert(init[g] == groups[g]);
            }
            lemma_entry_count_take_mono(groups, groups.len() - 1, groups.len() as int);
            assert(groups.take(groups.len() - 1) =~= init);
            assert(groups.take(groups.len() as int) =~= groups);
        }
        lemma_combined_consecutive(init);
        let before = spec_combined(init);
        assert forall|i: int| 0 <= i < spec_combined(groups).len() implies #[trigger] spec_combined(
            groups,
        )[i].binding == i by {
            if i >= before.len() {
                let k = i - before.len();
                let g = groups.len() - 1;
                assert(groups.take(g) =~= init);
                assert(groups[g][k].binding == k);
                assert(groups[g][k].binding + spec_entry_count(groups.take(g)) <= u32::MAX);
            }
        }
    }
}

/// Combines the entries of a texture view and of a sampler: the view at
/// binding 0, the sampler at binding 1.
fn combine_view_and_sampler(view: Vec<BindGroupLayoutEntry>, sampler: Vec<BindGroupLayoutEntry>) -> (r:
    Vec<BindGroupLayoutEntry>)
    requires
        view@.len() == 1,
        sampler@.len() == 1,
        view@[0].binding == 0,
        sampler@[0].binding == 0,
    ensures
        r@ == seq![view@[0], spec_rebind(sampler@[0], 1)],
{
    let ghost v = view@;
    let ghost s = sampler@;
    let groups = vec![view, sampler];
    proof {
        let all = spec_views(groups@);
        reveal_with_fuel(spec_entry_count, 3);
        reveal_with_fuel(spec_combined, 3);
        assert(all =~= seq![v, s]);
        assert(all.take(0) =~= Seq::<Seq<BindGroupLayoutEntry>>::empty());
        assert(all.take(1) =~= seq![v]);
        assert(seq![v].drop_last() =~= Seq::<Seq<BindGroupLayoutEntry>>::empty());
        assert(all.drop_last() =~= seq![v]);
        assert(spec_entry_count(seq![v]) == 1);
        assert(spec_entry_count(all) == 2);
        assert(spec_combined(seq![v]) =~= seq![v[0]]) by {
            assert(spec_shifted(v, 0) =~= seq![v[0]]);
        }
        assert(spec_shifted(s, 1) =~= seq![spec_rebind(s[0], 1)]);
        assert(spec_combined(all) =~= seq![v[0], spec_rebind(s[0], 1)]);
    }
    combine_layout_entries(&groups)
}

/// Layout entries of a material: a filterable 2D float texture and a
/// filtering sampler.
pub fn material_group_layout_entries() -> (r: Vec<BindGroupLayoutEntry>)
    ensures
        r@ == seq![
            spec_texture_entry(
                0,
                ShaderStages::Fragment,
                TextureSampleType::Float { filterable: true },
                TextureViewDimension::D2,
            ),
            spec_sampler_entry(1, ShaderStages::Fragment, SamplerBindingType::Filtering),
        ],
{
    combine_view_and_sampler(
        texture_view_layout_entries(TextureScalar::Float, 2, true),
        texture_sampler_layout_entries(true),
    )
}

/// Layout entries of an unfiltered material: a non-filterable 2D float
/// texture and a non-filtering sampler.
pub fn unfiltered_material_group_layout_entries() -> (r: Vec<BindGroupLayoutEntry>)
    ensures
        r@ == seq![
            spec_texture_entry(
                0,
                ShaderStages::Fragment,
                TextureSampleType::Float { filterable: false },
                TextureViewDimension::D2,
            ),
            spec_sampler_entry(1, ShaderStages::Fragment, SamplerBindingType::NonFiltering),
        ],
{
    combine_view_and_sampler(
        texture_view_layout_entries(TextureScalar::Float, 2, false),
        texture_sampler_layout_entries(false),
    )
}

/// Layout entries of a depth buffer: a 2D depth texture and a filtering
/// sampler.
pub fn depth_buffer_layout_entries() -> (r: Vec<BindGroupLayoutEntry>)
    ensures
        r@ == seq![
            spec_texture_entry(
                0,
                ShaderStages::Fragment,
                TextureSampleType::Depth,
                TextureViewDimension::D2,
            ),
            spec_sampler_entry(1, ShaderStages::Fragment, SamplerBindingType::Filtering),
        ],
{
    combine_view_and_sampler(depth_texture_view_layout_entries(2), texture_sampler_layout_entries(true))
}

#[verifier::external_type_specification]
#[verifier::external_body]
pub struct ExTextureFormat(wgpu::TextureFormat);

/// What wgpu's `TextureFormat::sample_type` gives for `format` over all of
/// its aspects and with no device features, each sample type written as the
/// renderer's. It depends on the format alone, by a table of wgpu's.
pub uninterp spec fn format_sample_kind(format: wgpu::TextureFormat) -> Option<TextureSampleType>;

/// Whether `format` has a depth aspect, as wgpu's
/// `TextureFormat::has_depth_aspect` says by a table of its own.
pub uninterp spec fn format_depth_aspect(format: wgpu::TextureFormat) -> bool;

/// wgpu's `TextureFormat::sample_type` over all aspects of the format and
/// with no device features, each of wgpu's sample types given as the
/// renderer's. Its result is named, not written out: it is wgpu's table.
#[verifier::external_body]
fn format_sample_type(format: wgpu::TextureFormat) -> (r: Option<TextureSampleType>)
    ensures
        r == format_sample_kind(format),
{
    match format.sample_type(Some(wgpu::TextureAspect::All), None) {
        Some(wgpu::TextureSampleType::Float { filterable }) => Some(
            TextureSampleType::Float { filterable },
        ),
        Some(wgpu::TextureSampleType::Depth) => Some(TextureSampleType::Depth),
        Some(wgpu::TextureSampleType::Sint) => Some(TextureSampleType::Sint),
        Some(wgpu::TextureSampleType::Uint) => Some(TextureSampleType::Uint),
        None => None,
    }
}

/// wgpu's `TextureFormat::has_depth_aspect`; its result is named, not
/// written out: it is wgpu's table.
#[verifier::external_body]
pub(crate) fn format_has_depth_aspect(format: wgpu::TextureFormat) -> (r: bool)
    ensures
        r == format_depth_aspect(format),
{
    format.has_depth_aspect()
}

/// The sampler that goes with a texture: comparison for depth formats,
/// non-filtering for non-filterable float textures, filtering otherwise.
pub open spec fn spec_sampler_for(sample_type: TextureSampleType, has_depth_aspect: bool) -> SamplerBindingType {
    if has_depth_aspect {
        SamplerBindingType::Comparison
    } else {
        match sample_type {
            TextureSampleType::Float { filterable: false } => SamplerBindingType::NonFiltering,
            _ => SamplerBindingType::Filtering,
        }
    }
}

pub open spec fn spec_texture_bgl_entries(sample_type: TextureSampleType, has_depth_aspect: bool) -> Seq<
    BindGroupLayoutEntry,
> {
    seq![
        spec_texture_entry(0, ShaderStages::Fragment, sample_type, TextureViewDimension::D2),
        spec_sampler_entry(1, ShaderStages::Fragment, spec_sampler_for(sample_type, has_depth_aspect)),
    ]
}

/// A texture bound with its sampler takes binding 0 and its sampler binding
/// 1, both seen by the fragment stage. The sampler compares exactly when the
/// format has a depth aspect; otherwise it filters unless the texture's
/// floats cannot be filtered, so a filtering sampler is never paired with a
/// non-filterable float texture.
pub proof fn lemma_texture_sampler_pairing(sample_type: TextureSampleType, has_depth_aspect: bool)
    ensures
        ({
            let e = spec_texture_bgl_entries(sample_type, has_depth_aspect);
            &&& e.len() == 2
            &&& e[0].binding == 0 && e[1].binding == 1
            &&& e[0].visibility == ShaderStages::Fragment && e[1].visibility == ShaderStages::Fragment
            &&& e[0].ty matches BindingType::Texture { sample_type: t, .. } && t == sample_type
            &&& e[1].ty matches BindingType::Sampler(kind) && {
                &&& (kind == SamplerBindingType::Comparison) <==> has_depth_aspect
                &&& (kind == SamplerBindingType::NonFiltering) <==> (!has_depth_aspect
                    && sample_type == (TextureSampleType::Float { filterable: false }))
                &&& (kind == SamplerBindingType::Filtering) <==> (!has_depth_aspect
                    && sample_type != (TextureSampleType::Float { filterable: false }))
            }
        }),
{
}

/// Layout entries for binding a 2D texture whose texels sample as
/// `sample_type`, together with the sampler that suits it.
pub fn texture_bgl_entries_for(sample_type: TextureSampleType, has_depth_aspect: bool) -> (r: Vec<
    BindGroupLayoutEntry,
>)
    ensures
        r@ == spec_texture_bgl_entries(sample_type, has_depth_aspect),
{
    let sampler = if has_depth_aspect {
        SamplerBindingType::Comparison
    } else {
        match sample_type {
            TextureSampleType::Float { filterable: false } => SamplerBindingType::NonFiltering,
            _ => SamplerBindingType::Filtering,
        }
    };
    vec![
        texture_entry(0, ShaderStages::Fragment, sample_type, TextureViewDimension::D2),
        sampler_entry(1, ShaderStages::Fragment, sampler),
    ]
}

/// Layout entries for binding a 2D texture of `format` with its sampler. A
/// format without a sample type cannot be bound this way.
pub fn texture_bgl_entries(format: wgpu::TextureFormat) -> (r: Vec<BindGroupLayoutEntry>)
    requires
        format_sample_kind(format) is Some,
    ensures
        format_sample_kind(format) matches Some(sample_type) && r@ == spec_texture_bgl_entries(
            sample_type,
            format_depth_aspect(format),
        ),
{
    match format_sample_type(format) {
        Some(sample_type) => texture_bgl_entries_for(sample_type, format_has_depth_aspect(format)),
        None => vstd::pervasive::unreached(),
    }
}

/// The layout entries of `texture_bgl_entries` for a format that can be
/// sampled; `None`, and nothing built, for one that cannot.
pub fn sampled_texture_bgl_entries(format: wgpu::TextureFormat) -> (r: Option<Vec<BindGroupLayoutEntry>>)
    ensures
        format_sample_kind(format) is None <==> r is None,
        r matches Some(v) ==> format_sample_kind(format) matches Some(sample_type) && v@
            == spec_texture_bgl_entries(sample_type, format_depth_aspect(format)),
{
    match format_sample_type(format) {
        Some(_) => Some(texture_bgl_entries(format)),
        None => None,
    }
}

/// The size of the buffer that holds a uniform of `n` bytes: `n` rounded up
/// to a multiple of 16 bytes, as shaders read uniforms in 16-byte rows.
pub fn uniform_buffer_size(n: usize) -> (r: u64)
    requires
        n + 15 <= usize::MAX,
    ensures
        r % 16 == 0,
        n <= r < n + 16,
{
    let rounded = (n + 15) / 16 * 16;
    proof {
        assert((n + 15) / 16 * 16 <= n + 15) by (nonlinear_arith);
        assert((n + 15) / 16 * 16 > n - 1) by (nonlinear_arith);
        assert(((n + 15) / 16 * 16) % 16 == 0) by (nonlinear_arith);
    }
    rounded as u64
}

} // verus!
