//! Vertex formats and attributes, and the WGSL text that declares shader
//! inputs and uniforms.
use vstd::prelude::*;
use vstd::string::StringExecFns;

verus! {

/// The format of one vertex attribute, as wgpu names them.
#[derive(Clone, Copy, Debug, PartialEq, Eq, Hash, Structural)]
pub enum VertexFormat {
    Uint8,
    Uint8x2,
    Uint8x4,
    Sint8,
    Sint8x2,
    Sint8x4,
    Unorm8,
    Unorm8x2,
    Unorm8x4,
    Snorm8,
    Snorm8x2,
    Snorm8x4,
    Uint16,
    Uint16x2,
    Uint16x4,
    Sint16,
    Sint16x2,
    Sint16x4,
    Unorm16,
    Unorm16x2,
    Unorm16x4,
    Snorm16,
    Snorm16x2,
    Snorm16x4,
    Float16,
    Float16x2,
    Float16x4,
    Float32,
    Float32x2,
    Float32x3,
    Float32x4,
    Uint32,
    Uint32x2,
    Uint32x3,
    Uint32x4,
    Sint32,
    Sint32x2,
    Sint32x3,
    Sint32x4,
    Float64,
    Float64x2,
    Float64x3,
    Float64x4,
    Unorm10_10_10_2,
    Unorm8x4Bgra,
}

/// The byte size of a vertex attribute of `format`, grouped by size as
/// wgpu's `VertexFormat::size` groups them.
pub open spec fn spec_format_size(format: VertexFormat) -> u64 {
    match format {
        VertexFormat::Uint8 | VertexFormat::Sint8 | VertexFormat::Unorm8 | VertexFormat::Snorm8 => 1,
        VertexFormat::Uint8x2 | VertexFormat::Sint8x2 | VertexFormat::Unorm8x2 | VertexFormat::Snorm8x2 | VertexFormat::Uint16 | VertexFormat::Sint16 | VertexFormat::Unorm16 | VertexFormat::Snorm16 | VertexFormat::Float16 => 2,
        VertexFormat::Uint8x4 | VertexFormat::Sint8x4 | VertexFormat::Unorm8x4 | VertexFormat::Snorm8x4 | VertexFormat::Uint16x2 | VertexFormat::Sint16x2 | VertexFormat::Unorm16x2 | VertexFormat::Snorm16x2 | VertexFormat::Float16x2 | VertexFormat::Float32 | VertexFormat::Uint32 | VertexFormat::Sint32 | VertexFormat::Unorm10_10_10_2 | VertexFormat::Unorm8x4Bgra => 4,
        VertexFormat::Uint16x4 | VertexFormat::Sint16x4 | VertexFormat::Unorm16x4 | VertexFormat::Snorm16x4 | VertexFormat::Float16x4 | VertexFormat::Float32x2 | VertexFormat::Uint32x2 | VertexFormat::Sint32x2 | VertexFormat::Float64 => 8,
        VertexFormat::Float32x3 | VertexFormat::Uint32x3 | VertexFormat::Sint32x3 => 12,
        VertexFormat::Float32x4 | VertexFormat::Uint32x4 | VertexFormat::Sint32x4 | VertexFormat::Float64x2 => 16,
        VertexFormat::Float64x3 => 24,
        VertexFormat::Float64x4 => 32,
    }
}

impl VertexFormat {
    /// The byte size of an attribute of this format.
    pub fn size(&self) -> (r: u64)
        ensures
            r == spec_format_size(*self),
    {
        match self {
            VertexFormat::Uint8 | VertexFormat::Sint8 | VertexFormat::Unorm8 | VertexFormat::Snorm8 => 1,
            VertexFormat::Uint8x2 | VertexFormat::Sint8x2 | VertexFormat::Unorm8x2 | VertexFormat::Snorm8x2 | VertexFormat::Uint16 | VertexFormat::Sint16 | VertexFormat::Unorm16 | VertexFormat::Snorm16 | VertexFormat::Float16 => 2,
            VertexFormat::Uint8x4 | VertexFormat::Sint8x4 | VertexFormat::Unorm8x4 | VertexFormat::Snorm8x4 | VertexFormat::Uint16x2 | VertexFormat::Sint16x2 | VertexFormat::Unorm16x2 | VertexFormat::Snorm16x2 | VertexFormat::Float16x2 | VertexFormat::Float32 | VertexFormat::Uint32 | VertexFormat::Sint32 | VertexFormat::Unorm10_10_10_2 | VertexFormat::Unorm8x4Bgra => 4,
            VertexFormat::Uint16x4 | VertexFormat::Sint16x4 | VertexFormat::Unorm16x4 | VertexFormat::Snorm16x4 | VertexFormat::Float16x4 | VertexFormat::Float32x2 | VertexFormat::Uint32x2 | VertexFormat::Sint32x2 | VertexFormat::Float64 => 8,
            VertexFormat::Float32x3 | VertexFormat::Uint32x3 | VertexFormat::Sint32x3 => 12,
            VertexFormat::Float32x4 | VertexFormat::Uint32x4 | VertexFormat::Sint32x4 | VertexFormat::Float64x2 => 16,
            VertexFormat::Float64x3 => 24,
            VertexFormat::Float64x4 => 32,
        }
    }
}

/// The WGSL type a shader reads an attribute of `format` as.
pub open spec fn spec_wgsl_type_name(format: VertexFormat) -> Seq<char> {
    match format {
        VertexFormat::Uint8 => "u32"@,
        VertexFormat::Uint8x2 => "vec2<u32>"@,
        VertexFormat::Uint8x4 => "vec4<u32>"@,
        VertexFormat::Sint8 => "i32"@,
        VertexFormat::Sint8x2 => "vec2<i32>"@,
        VertexFormat::Sint8x4 => "vec4<i32>"@,
        VertexFormat::Unorm8 => "f32"@,
        VertexFormat::Unorm8x2 => "vec2<f32>"@,
        VertexFormat::Unorm8x4 => "vec4<f32>"@,
        VertexFormat::Snorm8 => "f32"@,
        VertexFormat::Snorm8x2 => "vec2<f32>"@,
        VertexFormat::Snorm8x4 => "vec4<f32>"@,
        VertexFormat::Uint16 => "u32"@,
        VertexFormat::Uint16x2 => "vec2<u32>"@,
        VertexFormat::Uint16x4 => "vec4<u32>"@,
        VertexFormat::Sint16 => "i32"@,
        VertexFormat::Sint16x2 => "vec2<i32>"@,
        VertexFormat::Sint16x4 => "vec4<i32>"@,
        VertexFormat::Unorm16 => "f32"@,
        VertexFormat::Unorm16x2 => "vec2<f32>"@,
        VertexFormat::Unorm16x4 => "vec4<f32>"@,
        VertexFormat::Snorm16 => "f32"@,
        VertexFormat::Snorm16x2 => "vec2<f32>"@,
        VertexFormat::Snorm16x4 => "vec4<f32>"@,
        VertexFormat::Float16 => "f32"@,
        VertexFormat::Float16x2 => "vec2<f32>"@,
        VertexFormat::Float16x4 => "vec4<f32>"@,
        VertexFormat::Float32 => "f32"@,
        VertexFormat::Float32x2 => "vec2<f32>"@,
        VertexFormat::Float32x3 => "vec3<f32>"@,
        VertexFormat::Float32x4 => "vec4<f32>"@,
        VertexFormat::Uint32 => "u32"@,
        VertexFormat::Uint32x2 => "vec2<u32>"@,
        VertexFormat::Uint32x3 => "vec3<u32>"@,
        VertexFormat::Uint32x4 => "vec4<u32>"@,
        VertexFormat::Sint32 => "i32"@,
        VertexFormat::Sint32x2 => "vec2<i32>"@,
        VertexFormat::Sint32x3 => "vec3<i32>"@,
        VertexFormat::Sint32x4 => "vec4<i32>"@,
        VertexFormat::Float64 => "f32"@,
        VertexFormat::Float64x2 => "vec2<f32>"@,
        VertexFormat::Float64x3 => "vec3<f32>"@,
        VertexFormat::Float64x4 => "vec4<f32>"@,
        VertexFormat::Unorm10_10_10_2 => "vec4<f32>"@,
        VertexFormat::Unorm8x4Bgra => "vec4<f32>"@,
    }
}

/// The scalar a shader reads a vertex attribute's components as.
pub enum WgslScalar {
    F32,
    U32,
    I32,
}

/// The scalar a shader reads each component of `format` as: unsigned and
/// signed integer formats as `u32` and `i32`, normalized and float formats
/// (64-bit floats too) as `f32`.
pub open spec fn spec_component_scalar(format: VertexFormat) -> WgslScalar {
    match format {
        VertexFormat::Uint8 | VertexFormat::Uint8x2 | VertexFormat::Uint8x4 | VertexFormat::Uint16
        | VertexFormat::Uint16x2 | VertexFormat::Uint16x4 | VertexFormat::Uint32 | VertexFormat::Uint32x2
        | VertexFormat::Uint32x3 | VertexFormat::Uint32x4 => WgslScalar::U32,
        VertexFormat::Sint8 | VertexFormat::Sint8x2 | VertexFormat::Sint8x4 | VertexFormat::Sint16
        | VertexFormat::Sint16x2 | VertexFormat::Sint16x4 | VertexFormat::Sint32 | VertexFormat::Sint32x2
        | VertexFormat::Sint32x3 | VertexFormat::Sint32x4 => WgslScalar::I32,
        _ => WgslScalar::F32,
    }
}

/// The bytes of one component of `format`: 1, 2, 4 or 8 by the width its
/// name gives; the two packed formats hold four components in 4 bytes.
pub open spec fn spec_component_bytes(format: VertexFormat) -> nat {
    match format {
        VertexFormat::Uint8 | VertexFormat::Uint8x2 | VertexFormat::Uint8x4 | VertexFormat::Sint8
        | VertexFormat::Sint8x2 | VertexFormat::Sint8x4 | VertexFormat::Unorm8 | VertexFormat::Unorm8x2
        | VertexFormat::Unorm8x4 | VertexFormat::Snorm8 | VertexFormat::Snorm8x2 | VertexFormat::Snorm8x4
        | VertexFormat::Unorm8x4Bgra | VertexFormat::Unorm10_10_10_2 => 1,
        VertexFormat::Uint16 | VertexFormat::Uint16x2 | VertexFormat::Uint16x4 | VertexFormat::Sint16
        | VertexFormat::Sint16x2 | VertexFormat::Sint16x4 | VertexFormat::Unorm16 | VertexFormat::Unorm16x2
        | VertexFormat::Unorm16x4 | VertexFormat::Snorm16 | VertexFormat::Snorm16x2 | VertexFormat::Snorm16x4
        | VertexFormat::Float16 | VertexFormat::Float16x2 | VertexFormat::Float16x4 => 2,
        VertexFormat::Float64 | VertexFormat::Float64x2 | VertexFormat::Float64x3 | VertexFormat::Float64x4 => 8,
        _ => 4,
    }
}

/// The WGSL name of a scalar.
pub open spec fn spec_scalar_text(scalar: WgslScalar) -> Seq<char> {
    match scalar {
        WgslScalar::F32 => "f32"@,
        WgslScalar::U32 => "u32"@,
        WgslScalar::I32 => "i32"@,
    }
}

/// The WGSL type of `count` components of `scalar`: the scalar itself for
/// one, else the vector `vec<count><scalar>`.
pub open spec fn spec_wgsl_vector(scalar: WgslScalar, count: nat) -> Seq<char> {
    if count == 1 {
        spec_scalar_text(scalar)
    } else {
        "vec"@ + spec_decimal(count) + "<"@ + spec_scalar_text(scalar) + ">"@
    }
}

/// A shader reads a vertex attribute as a scalar or vector with as many
/// components as the format holds, each of the format's scalar kind: the
/// number of components is the format's size over the bytes of one
/// component, so `Float32x3` (12 bytes) is read as `vec3<f32>`.
pub proof fn lemma_wgsl_type_matches_components(format: VertexFormat)
    ensures
        spec_wgsl_type_name(format) == spec_wgsl_vector(
            spec_component_scalar(format),
            spec_format_size(format) as nat / spec_component_bytes(format),
        ),
{
    reveal_strlit("vec");
    reveal_strlit("<");
    reveal_strlit(">");
    reveal_strlit("f32");
    reveal_strlit("u32");
    reveal_strlit("i32");
    match format {
        VertexFormat::Uint8 => {
            reveal_strlit("u32");
        },
        VertexFormat::Uint8x2 => {
            reveal_strlit("vec2<u32>");
        },
        VertexFormat::Uint8x4 => {
            reveal_strlit("vec4<u32>");
        },
        VertexFormat::Sint8 => {
            reveal_strlit("i32");
        },
        VertexFormat::Sint8x2 => {
            reveal_strlit("vec2<i32>");
        },
        VertexFormat::Sint8x4 => {
            reveal_strlit("vec4<i32>");
        },
        VertexFormat::Unorm8 => {
            reveal_strlit("f32");
        },
        VertexFormat::Unorm8x2 => {
            reveal_strlit("vec2<f32>");
        },
        VertexFormat::Unorm8x4 => {
            reveal_strlit("vec4<f32>");
        },
        VertexFormat::Snorm8 => {
            reveal_strlit("f32");
        },
        VertexFormat::Snorm8x2 => {
            reveal_strlit("vec2<f32>");
        },
        VertexFormat::Snorm8x4 => {
            reveal_strlit("vec4<f32>");
        },
        VertexFormat::Uint16 => {
            reveal_strlit("u32");
        },
        VertexFormat::Uint16x2 => {
            reveal_strlit("vec2<u32>");
        },
        VertexFormat::Uint16x4 => {
            reveal_strlit("vec4<u32>");
        },
        VertexFormat::Sint16 => {
            reveal_strlit("i32");
        },
        VertexFormat::Sint16x2 => {
            reveal_strlit("vec2<i32>");
        },
        VertexFormat::Sint16x4 => {
            reveal_strlit("vec4<i32>");
        },
        VertexFormat::Unorm16 => {
            reveal_strlit("f32");
        },
        VertexFormat::Unorm16x2 => {
            reveal_strlit("vec2<f32>");
        },
        VertexFormat::Unorm16x4 => {
            reveal_strlit("vec4<f32>");
        },
        VertexFormat::Snorm16 => {
            reveal_strlit("f32");
        },
        VertexFormat::Snorm16x2 => {
            reveal_strlit("vec2<f32>");
        },
        VertexFormat::Snorm16x4 => {
            reveal_strlit("vec4<f32>");
        },
        VertexFormat::Float16 => {
            reveal_strlit("f32");
        },
        VertexFormat::Float16x2 => {
            reveal_strlit("vec2<f32>");
        },
        VertexFormat::Float16x4 => {
            reveal_strlit("vec4<f32>");
        },
        VertexFormat::Float32 => {
            reveal_strlit("f32");
        },
        VertexFormat::Float32x2 => {
            reveal_strlit("vec2<f32>");
        },
        VertexFormat::Float32x3 => {
            reveal_strlit("vec3<f32>");
        },
        VertexFormat::Float32x4 => {
            reveal_strlit("vec4<f32>");
        },
        VertexFormat::Uint32 => {
            reveal_strlit("u32");
        },
        VertexFormat::Uint32x2 => {
            reveal_strlit("vec2<u32>");
        },
        VertexFormat::Uint32x3 => {
            reveal_strlit("vec3<u32>");
        },
        VertexFormat::Uint32x4 => {
            reveal_strlit("vec4<u32>");
        },
        VertexFormat::Sint32 => {
            reveal_strlit("i32");
        },
        VertexFormat::Sint32x2 => {
            reveal_strlit("vec2<i32>");
        },
        VertexFormat::Sint32x3 => {
            reveal_strlit("vec3<i32>");
        },
        VertexFormat::Sint32x4 => {
            reveal_strlit("vec4<i32>");
        },
        VertexFormat::Float64 => {
            reveal_strlit("f32");
        },
        VertexFormat::Float64x2 => {
            reveal_strlit("vec2<f32>");
        },
        VertexFormat::Float64x3 => {
            reveal_strlit("vec3<f32>");
        },
        VertexFormat::Float64x4 => {
            reveal_strlit("vec4<f32>");
        },
        VertexFormat::Unorm10_10_10_2 => {
            reveal_strlit("vec4<f32>");
        },
        VertexFormat::Unorm8x4Bgra => {
            reveal_strlit("vec4<f32>");
        },
    }
    assert(spec_wgsl_type_name(format) =~= spec_wgsl_vector(
        spec_component_scalar(format),
        spec_format_size(format) as nat / spec_component_bytes(format),
    ));
}

/// The WGSL type a shader reads an attribute of `format` as: 64-bit floats
/// and normalized formats are read as 32-bit floats.
pub fn vertex_format_wgsl_type_name(format: VertexFormat) -> (r: &'static str)
    ensures
        r@ == spec_wgsl_type_name(format),
{
    match format {
        VertexFormat::Uint8 => "u32",
        VertexFormat::Uint8x2 => "vec2<u32>",
        VertexFormat::Uint8x4 => "vec4<u32>",
        VertexFormat::Sint8 => "i32",
        VertexFormat::Sint8x2 => "vec2<i32>",
        VertexFormat::Sint8x4 => "vec4<i32>",
        VertexFormat::Unorm8 => "f32",
        VertexFormat::Unorm8x2 => "vec2<f32>",
        VertexFormat::Unorm8x4 => "vec4<f32>",
        VertexFormat::Snorm8 => "f32",
        VertexFormat::Snorm8x2 => "vec2<f32>",
        VertexFormat::Snorm8x4 => "vec4<f32>",
        VertexFormat::Uint16 => "u32",
        VertexFormat::Uint16x2 => "vec2<u32>",
        VertexFormat::Uint16x4 => "vec4<u32>",
        VertexFormat::Sint16 => "i32",
        VertexFormat::Sint16x2 => "vec2<i32>",
        VertexFormat::Sint16x4 => "vec4<i32>",
        VertexFormat::Unorm16 => "f32",
        VertexFormat::Unorm16x2 => "vec2<f32>",
        VertexFormat::Unorm16x4 => "vec4<f32>",
        VertexFormat::Snorm16 => "f32",
        VertexFormat::Snorm16x2 => "vec2<f32>",
        VertexFormat::Snorm16x4 => "vec4<f32>",
        VertexFormat::Float16 => "f32",
        VertexFormat::Float16x2 => "vec2<f32>",
        VertexFormat::Float16x4 => "vec4<f32>",
        VertexFormat::Float32 => "f32",
        VertexFormat::Float32x2 => "vec2<f32>",
        VertexFormat::Float32x3 => "vec3<f32>",
        VertexFormat::Float32x4 => "vec4<f32>",
        VertexFormat::Uint32 => "u32",
        VertexFormat::Uint32x2 => "vec2<u32>",
        VertexFormat::Uint32x3 => "vec3<u32>",
        VertexFormat::Uint32x4 => "vec4<u32>",
        VertexFormat::Sint32 => "i32",
        VertexFormat::Sint32x2 => "vec2<i32>",
        VertexFormat::Sint32x3 => "vec3<i32>",
        VertexFormat::Sint32x4 => "vec4<i32>",
        VertexFormat::Float64 => "f32",
        VertexFormat::Float64x2 => "vec2<f32>",
        VertexFormat::Float64x3 => "vec3<f32>",
        VertexFormat::Float64x4 => "vec4<f32>",
        VertexFormat::Unorm10_10_10_2 => "vec4<f32>",
        VertexFormat::Unorm8x4Bgra => "vec4<f32>",
    }
}

/// One attribute of a vertex buffer: its format, its byte offset within a
/// vertex, and the shader location it feeds.
#[derive(Clone, Copy, Debug, PartialEq, Eq, Hash, Structural)]
pub struct VertexAttribute {
    pub format: VertexFormat,
    pub offset: u64,
    pub shader_location: u32,
}

pub open spec fn spec_group_views(groups: Seq<(usize, Vec<VertexFormat>)>) -> Seq<(usize, Seq<VertexFormat>)> {
    groups.map_values(|g: (usize, Vec<VertexFormat>)| (g.0, g.1@))
}

/// The formats of all groups, one group after another.
pub open spec fn spec_flat_formats(groups: Seq<(usize, Seq<VertexFormat>)>) -> Seq<VertexFormat>
    decreases groups.len(),
{
    if groups.len() == 0 {
        Seq::empty()
    } else {
        spec_flat_formats(groups.drop_last()) + groups.last().1
    }
}

/// The shader location of every format of all groups: a group whose first
/// location is `loc` places its formats at `loc`, `loc + 1`, ...
pub open spec fn spec_flat_locations(groups: Seq<(usize, Seq<VertexFormat>)>) -> Seq<int>
    decreases groups.len(),
{
    if groups.len() == 0 {
        Seq::empty()
    } else {
        let g = groups.last();
        spec_flat_locations(groups.drop_last()) + Seq::new(g.1.len(), |i: int| g.0 + i)
    }
}

/// The summed byte size of the first `k` formats.
pub open spec fn spec_size_prefix(formats: Seq<VertexFormat>, k: int) -> int
    decreases k,
{
    if k <= 0 {
        0
    } else {
        spec_size_prefix(formats, k - 1) + spec_format_size(formats[k - 1])
    }
}

/// Every location fits in a `usize`, and the whole vertex's size in a `u64`.
pub open spec fn spec_attributes_fit(groups: Seq<(usize, Seq<VertexFormat>)>) -> bool {
    &&& forall|g: int| 0 <= g < groups.len() ==> #[trigger] groups[g].0 + groups[g].1.len() <= usize::MAX + 1
    &&& spec_size_prefix(spec_flat_formats(groups), spec_flat_formats(groups).len() as int) <= u64::MAX
}

/// The attributes that `groups` expand to: every format in order, at the
/// location its group gives it, packed one after another from offset 0.
pub open spec fn spec_expanded(groups: Seq<(usize, Seq<VertexFormat>)>, attrs: Seq<VertexAttribute>) -> bool {
    let formats = spec_flat_formats(groups);
    let locations = spec_flat_locations(groups);
    &&& attrs.len() == formats.len()
    &&& forall|k: int|
        0 <= k < attrs.len() ==> {
            &&& #[trigger] attrs[k].format == formats[k]
            &&& attrs[k].offset == spec_size_prefix(formats, k)
            &&& attrs[k].shader_location == locations[k] as u32
        }
}

proof fn lemma_flat_lens(groups: Seq<(usize, Seq<VertexFormat>)>)
    ensures
        spec_flat_formats(groups).len() == spec_flat_locations(groups).len(),
    decreases groups.len(),
{
    if groups.len() > 0 {
        lemma_flat_lens(groups.drop_last());
    }
}

proof fn lemma_size_prefix_mono(formats: Seq<VertexFormat>, a: int, b: int)
    requires
        0 <= a <= b,
    ensures
        spec_size_prefix(formats, a) <= spec_size_prefix(formats, b),
    decreases b - a,
{
    if a < b {
        lemma_size_prefix_mono(formats, a, b - 1);
    }
}

proof fn lemma_size_prefix_extend(formats: Seq<VertexFormat>, more: Seq<VertexFormat>, k: int)
    requires
        0 <= k <= formats.len(),
    ensures
        spec_size_prefix(formats + more, k) == spec_size_prefix(formats, k),
    decreases k,
{
    if k > 0 {
        lemma_size_prefix_extend(formats, more, k - 1);
        assert((formats + more)[k - 1] == formats[k - 1]);
    }
}

proof fn lemma_take_flat(groups: Seq<(usize, Seq<VertexFormat>)>, g: int)
    requires
        0 <= g < groups.len(),
    ensures
        spec_flat_formats(groups.take(g + 1)) == spec_flat_formats(groups.take(g)) + groups[g].1,
        spec_flat_locations(groups.take(g + 1)) == spec_flat_locations(groups.take(g)) + Seq::new(
            groups[g].1.len(),
            |i: int| groups[g].0 + i,
        ),
{
    assert(groups.take(g + 1).drop_last() =~= groups.take(g));
}

proof fn lemma_flat_prefix(groups: Seq<(usize, Seq<VertexFormat>)>, g: int)
    requires
        0 <= g <= groups.len(),
    ensures
        spec_flat_formats(groups.take(g)).len() <= spec_flat_formats(groups).len(),
        spec_flat_formats(groups) == spec_flat_formats(groups.take(g)) + spec_flat_formats(groups).subrange(
            spec_flat_formats(groups.take(g)).len() as int,
            spec_flat_formats(groups).len() as int,
        ),
    decreases groups.len() - g,
{
    if g == groups.len() {
        assert(groups.take(g) =~= groups);
    } else {
        lemma_flat_prefix(groups, g + 1);
        lemma_take_flat(groups, g);
        let a = spec_flat_formats(groups.take(g));
        let b = spec_flat_formats(groups.take(g + 1));
        let all = spec_flat_formats(groups);
        assert(all == b + all.subrange(b.len() as int, all.len() as int));
        assert(all =~= a + all.subrange(a.len() as int, all.len() as int));
    }
}

/// Expands groups of formats, each starting at a shader location, into the
/// attributes of one vertex: locations count up within a group, and each
/// attribute starts where the one before it ends.
pub fn expand_vertex_attributes(iter: Vec<(usize, Vec<VertexFormat>)>) -> (r: Vec<VertexAttribute>)
    requires
        spec_attributes_fit(spec_group_views(iter@)),
    ensures
        spec_expanded(spec_group_views(iter@), r@),
{
    let ghost groups = spec_group_views(iter@);
    let ghost all_formats = spec_flat_formats(groups);
    let mut out: Vec<VertexAttribute> = Vec::new();
    let mut offset: u64 = 0;
    let mut g: usize = 0;
    proof {
        assert(groups.take(0) =~= Seq::<(usize, Seq<VertexFormat>)>::empty());
    }
    while g < iter.len()
        invariant
            0 <= g <= iter.len(),
            groups == spec_group_views(iter@),
            groups.len() == iter@.len(),
            all_formats == spec_flat_formats(groups),
            spec_attributes_fit(groups),
            spec_expanded(groups.take(g as int), out@),
            offset == spec_size_prefix(all_formats, out@.len() as int),
            all_formats == spec_flat_formats(groups.take(g as int)) + all_formats.subrange(
                out@.len() as int,
                all_formats.len() as int,
            ),
            out@.len() <= all_formats.len(),
        decreases iter.len() - g,
    {
        let loc = iter[g].0;
        let formats = &iter[g].1;
        let ghost before = out@;
        let ghost prev_formats = spec_flat_formats(groups.take(g as int));
        let ghost prev_locations = spec_flat_locations(groups.take(g as int));
        proof {
            lemma_take_flat(groups, g as int);
            lemma_flat_lens(groups.take(g as int));
            lemma_flat_prefix(groups, g + 1);
            assert(groups[g as int] == (loc, formats@));
        }
        let mut i: usize = 0;
        while i < formats.len()
            invariant
                0 <= i <= formats.len(),
                g < iter.len(),
                groups == spec_group_views(iter@),
                groups[g as int] == (loc, formats@),
                loc + formats@.len() <= usize::MAX + 1,
                all_formats == spec_flat_formats(groups),
                spec_size_prefix(all_formats, all_formats.len() as int) <= u64::MAX,
                prev_formats == spec_flat_formats(groups.take(g as int)),
                prev_locations == spec_flat_locations(groups.take(g as int)),
                prev_formats.len() == prev_locations.len(),
                spec_expanded(groups.take(g as int), before),
                before.len() == prev_formats.len(),
                spec_flat_formats(groups.take(g + 1)) == prev_formats + formats@,
                all_formats == (prev_formats + formats@) + all_formats.subrange(
                    (prev_formats + formats@).len() as int,
                    all_formats.len() as int,
                ),
                out@.len() == before.len() + i,
                out@.subrange(0, before.len() as int) == before,
                forall|j: int|
                    0 <= j < i ==> {
                        &&& #[trigger] out@[before.len() + j].format == formats@[j]
                        &&& out@[before.len() + j].offset == spec_size_prefix(all_formats, before.len() + j)
                        &&& out@[before.len() + j].shader_location == (loc + j) as u32
                    },
                offset == spec_size_prefix(all_formats, out@.len() as int),
            decreases formats.len() - i,
        {
            let format = formats[i];
            let k = out.len();
            proof {
                assert(all_formats[k as int] == formats@[i as int]);
                lemma_size_prefix_mono(all_formats, k + 1, all_formats.len() as int);
            }
            out.push(VertexAttribute { format, shader_location: (loc + i) as u32, offset });
            offset = offset + format.size();
            i = i + 1;
        }
        proof {
            let now = groups.take(g + 1);
            let nf = spec_flat_formats(now);
            let nl = spec_flat_locations(now);
            lemma_flat_lens(now);
            assert forall|k: int| 0 <= k < out@.len() implies {
                &&& #[trigger] out@[k].format == nf[k]
                &&& out@[k].offset == spec_size_prefix(nf, k)
                &&& out@[k].shader_location == nl[k] as u32
            } by {
                lemma_size_prefix_extend(nf, all_formats.subrange(nf.len() as int, all_formats.len() as int), k);
                assert(nf + all_formats.subrange(nf.len() as int, all_formats.len() as int) == all_formats);
                if k < before.len() {
                    assert(out@[k] == before[k]);
                    lemma_size_prefix_extend(prev_formats, formats@, k);
                } else {
                    let j = k - before.len();
                    assert(out@[before.len() + j].format == formats@[j]);
                }
            }
        }
        g = g + 1;
    }
    proof {
        assert(groups.take(groups.len() as int) =~= groups);
    }
    out
}

/// Attributes expanded from groups are packed: each starts where the one
/// before it ends, and the first starts at 0.
pub proof fn lemma_expanded_packed(groups: Seq<(usize, Seq<VertexFormat>)>, attrs: Seq<VertexAttribute>, k: int)
    requires
        spec_expanded(groups, attrs),
        0 < k < attrs.len(),
    ensures
        attrs[0].offset == 0,
        attrs[k].offset == attrs[k - 1].offset + spec_format_size(attrs[k - 1].format),
{
    assert(attrs[0].format == spec_flat_formats(groups)[0]);
    assert(attrs[k].format == spec_flat_formats(groups)[k]);
    assert(attrs[k - 1].format == spec_flat_formats(groups)[k - 1]);
}

/// The decimal digit `d` as a character.
pub open spec fn spec_digit(d: nat) -> char {
    (48 + d) as char
}

/// The decimal numeral of `n`, most significant digit first, no leading zeros.
pub open spec fn spec_decimal(n: nat) -> Seq<char>
    decreases n,
{
    if n < 10 {
        seq![spec_digit(n)]
    } else {
        spec_decimal(n / 10).push(spec_digit(n % 10))
    }
}

/// The number that the decimal digits `digits` read as.
pub open spec fn spec_digits_value(digits: Seq<char>) -> int
    decreases digits.len(),
{
    if digits.len() == 0 {
        0
    } else {
        spec_digits_value(digits.drop_last()) * 10 + (digits.last() as int - '0' as int)
    }
}

/// The decimal numeral of `n` is made of the digits `0` to `9`, reads back
/// as `n`, and has no leading zero.
pub proof fn lemma_decimal_reads_back(n: nat)
    ensures
        spec_decimal(n).len() >= 1,
        forall|i: int| 0 <= i < spec_decimal(n).len() ==> '0' <= #[trigger] spec_decimal(n)[i] <= '9',
        spec_digits_value(spec_decimal(n)) == n,
        n >= 10 ==> spec_decimal(n)[0] != '0',
    decreases n,
{
    if n >= 10 {
        lemma_decimal_reads_back(n / 10);
        let s = spec_decimal(n / 10);
        assert(spec_decimal(n).drop_last() =~= s);
        assert(spec_decimal(n)[0] == s[0]);
        assert(spec_digit(n % 10) as int == 48 + n % 10);
        assert('0' as int == 48);
        assert(spec_decimal(n).last() == spec_digit(n % 10));
        assert(spec_digits_value(spec_decimal(n)) == spec_digits_value(s) * 10 + (spec_digit(n % 10) as int
            - '0' as int));
        assert((n / 10) * 10 + n % 10 == n) by (nonlinear_arith);
    } else {
        assert(spec_decimal(n).drop_last() =~= Seq::<char>::empty());
        assert(spec_digit(n) as int == 48 + n);
        assert('0' as int == 48);
        assert(spec_digits_value(spec_decimal(n)) == spec_digits_value(Seq::<char>::empty()) * 10 + (
        spec_digit(n) as int - '0' as int));
    }
}

/// The decimal digit `d` as a one-character string.
fn digit_str(d: usize) -> (r: &'static str)
    requires
        d < 10,
    ensures
        r@ == seq![spec_digit(d as nat)],
{
    match d {
        0 => {
            proof {
                reveal_strlit("0");
            }
            "0"
        },
        1 => {
            proof {
                reveal_strlit("1");
            }
            "1"
        },
        2 => {
            proof {
                reveal_strlit("2");
            }
            "2"
        },
        3 => {
            proof {
                reveal_strlit("3");
            }
            "3"
        },
        4 => {
            proof {
                reveal_strlit("4");
            }
            "4"
        },
        5 => {
            proof {
                reveal_strlit("5");
            }
            "5"
        },
        6 => {
            proof {
                reveal_strlit("6");
            }
            "6"
        },
        7 => {
            proof {
                reveal_strlit("7");
            }
            "7"
        },
        8 => {
            proof {
                reveal_strlit("8");
            }
            "8"
        },
        _ => {
            proof {
                reveal_strlit("9");
            }
            "9"
        },
    }
}

/// The decimal numeral of `n`.
fn usize_to_string(n: usize) -> (r: String)
    ensures
        r@ == spec_decimal(n as nat),
    decreases n,
{
    if n < 10 {
        let mut r = String::new();
        r.append(digit_str(n));
        r
    } else {
        let mut r = usize_to_string(n / 10);
        r.append(digit_str(n % 10));
        r
    }
}

/// One field line of a WGSL struct: the field bound to `location`.
pub open spec fn spec_field_line(location: nat, field: Seq<char>) -> Seq<char> {
    "  @location("@ + spec_decimal(location) + ") "@ + field + ",\n"@
}

/// The field lines of `fields`, the `i`-th bound to `first + i`.
pub open spec fn spec_field_lines(first: nat, fields: Seq<Seq<char>>) -> Seq<char>
    decreases fields.len(),
{
    if fields.len() == 0 {
        Seq::empty()
    } else {
        spec_field_lines(first, fields.drop_last()) + spec_field_line(
            (first + fields.len() - 1) as nat,
            fields.last(),
        )
    }
}

/// The field lines of all groups, one group after another; a group at
/// location `loc` binds its fields from `loc + location_offset` on.
pub open spec fn spec_struct_body(groups: Seq<(usize, Seq<Seq<char>>)>, location_offset: nat) -> Seq<char>
    decreases groups.len(),
{
    if groups.len() == 0 {
        Seq::empty()
    } else {
        spec_struct_body(groups.drop_last(), location_offset) + spec_field_lines(
            (groups.last().0 + location_offset) as nat,
            groups.last().1,
        )
    }
}

/// The WGSL declaration of struct `name` whose fields are `groups`.
pub open spec fn spec_wgsl_struct(name: Seq<char>, groups: Seq<(usize, Seq<Seq<char>>)>, location_offset: nat) -> Seq<char> {
    "struct "@ + name + " {\n"@ + spec_struct_body(groups, location_offset) + "}"@
}

pub open spec fn spec_string_views(v: Seq<String>) -> Seq<Seq<char>> {
    v.map_values(|s: String| s@)
}

pub open spec fn spec_field_group_views(groups: Seq<(usize, Vec<String>)>) -> Seq<(usize, Seq<Seq<char>>)> {
    groups.map_values(|g: (usize, Vec<String>)| (g.0, spec_string_views(g.1@)))
}

/// Every location a field is bound to fits in a `usize`.
pub open spec fn spec_locations_fit(groups: Seq<(usize, Seq<Seq<char>>)>, location_offset: nat) -> bool {
    forall|g: int|
        0 <= g < groups.len() ==> #[trigger] groups[g].0 + groups[g].1.len() + location_offset
            <= usize::MAX + 1
}

/// Declares the WGSL struct `name` with the fields of `fields_iter`: each
/// group's fields get consecutive locations from the group's location
/// moved up by `location_offset`.
pub fn define_wgsl_struct(name: &str, fields_iter: Vec<(usize, Vec<String>)>, location_offset: u32) -> (r:
    String)
    requires
        spec_locations_fit(spec_field_group_views(fields_iter@), location_offset as nat),
    ensures
        r@ == spec_wgsl_struct(name@, spec_field_group_views(fields_iter@), location_offset as nat),
{
    let ghost groups = spec_field_group_views(fields_iter@);
    let mut body = String::new();
    let mut g: usize = 0;
    proof {
        assert(groups.take(0) =~= Seq::<(usize, Seq<Seq<char>>)>::empty());
    }
    while g < fields_iter.len()
        invariant
            0 <= g <= fields_iter.len(),
            groups == spec_field_group_views(fields_iter@),
            groups.len() == fields_iter@.len(),
            spec_locations_fit(groups, location_offset as nat),
            body@ == spec_struct_body(groups.take(g as int), location_offset as nat),
        decreases fields_iter.len() - g,
    {
        let loc = fields_iter[g].0;
        let fields = &fields_iter[g].1;
        let ghost before = body@;
        let ghost views = spec_string_views(fields@);
        proof {
            assert(groups[g as int] == (loc, views));
            assert(groups[g as int].0 + groups[g as int].1.len() + location_offset <= usize::MAX + 1);
        }
        let mut i: usize = 0;
        proof {
            assert(views.take(0) =~= Seq::<Seq<char>>::empty());
        }
        while i < fields.len()
            invariant
                0 <= i <= fields.len(),
                g < fields_iter.len(),
                groups == spec_field_group_views(fields_iter@),
                groups[g as int] == (loc, views),
                views == spec_string_views(fields@),
                loc + views.len() + location_offset <= usize::MAX + 1,
                body@ == before + spec_field_lines((loc + location_offset) as nat, views.take(i as int)),
            decreases fields.len() - i,
        {
            let location = usize_to_string(loc + i + location_offset as usize);
            body.append("  @location(");
            body.append(location.as_str());
            body.append(") ");
            body.append(fields[i].as_str());
            body.append(",\n");
            proof {
                assert(views.take(i + 1).drop_last() =~= views.take(i as int));
                assert(views[i as int] == fields@[i as int]@);
            }
            i = i + 1;
        }
        proof {
            assert(views.take(views.len() as int) =~= views);
            assert(groups.take(g + 1).drop_last() =~= groups.take(g as int));
        }
        g = g + 1;
    }
    proof {
        assert(groups.take(groups.len() as int) =~= groups);
    }
    let mut r = String::new();
    r.append("struct ");
    r.append(name);
    r.append(" {\n");
    r.append(body.as_str());
    r.append("}");
    r
}

#[verifier::external_type_specification]
#[verifier::external_body]
pub struct ExMat3A(glam::Mat3A);

#[verifier::external_type_specification]
#[verifier::external_body]
pub struct ExMat3(glam::Mat3);

#[verifier::external_type_specification]
#[verifier::external_body]
pub struct ExMat4(glam::Mat4);

#[verifier::external_type_specification]
#[verifier::external_body]
pub struct ExVec2(glam::Vec2);

#[verifier::external_type_specification]
#[verifier::external_body]
pub struct ExVec3(glam::Vec3);

#[verifier::external_type_specification]
#[verifier::external_body]
pub struct ExVec4(glam::Vec4);

/// An owned copy of `s`.
fn owned(s: &str) -> (r: String)
    ensures
        r@ == s@,
{
    let mut r = String::new();
    r.append(s);
    r
}

/// Types that WGSL code can name.
pub trait ShaderType {
    /// The type's name in WGSL.
    spec fn spec_wgsl_name() -> Seq<char>;

    fn wgsl_name() -> (r: String)
        ensures
            r@ == Self::spec_wgsl_name(),
    ;
}

/// Shader types with a known alignment in uniform buffers.
pub trait ShaderTypeAligned: ShaderType {
    const ALIGNMENT: usize;
}

impl ShaderType for i32 {
    open spec fn spec_wgsl_name() -> Seq<char> {
        "i32"@
    }

    fn wgsl_name() -> (r: String) {
        owned("i32")
    }
}

impl ShaderTypeAligned for i32 {
    const ALIGNMENT: usize = 4;
}

impl ShaderType for u32 {
    open spec fn spec_wgsl_name() -> Seq<char> {
        "u32"@
    }

    fn wgsl_name() -> (r: String) {
        owned("u32")
    }
}

impl ShaderTypeAligned for u32 {
    const ALIGNMENT: usize = 4;
}

impl ShaderType for glam::Mat3A {
    open spec fn spec_wgsl_name() -> Seq<char> {
        "mat3x3<f32>"@
    }

    fn wgsl_name() -> (r: String) {
        owned("mat3x3<f32>")
    }
}

impl ShaderTypeAligned for glam::Mat3A {
    const ALIGNMENT: usize = 16;
}

impl ShaderType for glam::Mat4 {
    open spec fn spec_wgsl_name() -> Seq<char> {
        "mat4x4<f32>"@
    }

    fn wgsl_name() -> (r: String) {
        owned("mat4x4<f32>")
    }
}

impl ShaderTypeAligned for glam::Mat4 {
    const ALIGNMENT: usize = 16;
}

impl ShaderType for glam::Vec2 {
    open spec fn spec_wgsl_name() -> Seq<char> {
        "vec2<f32>"@
    }

    fn wgsl_name() -> (r: String) {
        owned("vec2<f32>")
    }
}

impl ShaderTypeAligned for glam::Vec2 {
    const ALIGNMENT: usize = 8;
}

impl ShaderType for glam::Vec3 {
    open spec fn spec_wgsl_name() -> Seq<char> {
        "vec3<f32>"@
    }

    fn wgsl_name() -> (r: String) {
        owned("vec3<f32>")
    }
}

impl ShaderTypeAligned for glam::Vec3 {
    const ALIGNMENT: usize = 16;
}

impl ShaderType for glam::Vec4 {
    open spec fn spec_wgsl_name() -> Seq<char> {
        "vec4<f32>"@
    }

    fn wgsl_name() -> (r: String) {
        owned("vec4<f32>")
    }
}

impl ShaderTypeAligned for glam::Vec4 {
    const ALIGNMENT: usize = 16;
}

/// WGSL names a fixed-size array by its element type and its length.
impl<T: ShaderType, const N: usize> ShaderType for [T; N] {
    open spec fn spec_wgsl_name() -> Seq<char> {
        "array<"@ + T::spec_wgsl_name() + ", "@ + spec_decimal(N as nat) + ">"@
    }

    fn wgsl_name() -> (r: String) {
        let element = T::wgsl_name();
        let length = usize_to_string(N);
        let mut r = String::new();
        r.append("array<");
        r.append(element.as_str());
        r.append(", ");
        r.append(length.as_str());
        r.append(">");
        r
    }
}

/// An array is aligned as its elements are.
impl<T: ShaderTypeAligned, const N: usize> ShaderTypeAligned for [T; N] {
    const ALIGNMENT: usize = T::ALIGNMENT;
}

/// All of `parts`, one after another.
pub open spec fn spec_concat(parts: Seq<Seq<char>>) -> Seq<char>
    decreases parts.len(),
{
    if parts.len() == 0 {
        Seq::empty()
    } else {
        spec_concat(parts.drop_last()) + parts.last()
    }
}

/// All of `parts`, with a line break between each two.
pub open spec fn spec_join_lines(parts: Seq<Seq<char>>) -> Seq<char>
    decreases parts.len(),
{
    if parts.len() == 0 {
        Seq::empty()
    } else if parts.len() == 1 {
        parts[0]
    } else {
        spec_join_lines(parts.drop_last()) + "\n"@ + parts.last()
    }
}

/// Concatenates `parts` in order.
pub fn concat_all(parts: &Vec<String>) -> (r: String)
    ensures
        r@ == spec_concat(spec_string_views(parts@)),
{
    let ghost views = spec_string_views(parts@);
    let mut r = String::new();
    let mut i: usize = 0;
    while i < parts.len()
        invariant
            0 <= i <= parts@.len(),
            views == spec_string_views(parts@),
            r@ == spec_concat(views.take(i as int)),
        decreases parts@.len() - i,
    {
        r.append(parts[i].as_str());
        proof {
            assert(views.take(i + 1).drop_last() =~= views.take(i as int));
        }
        i = i + 1;
    }
    proof {
        assert(views.take(views.len() as int) =~= views);
    }
    r
}

/// Joins `parts` into lines.
pub fn join_lines(parts: &Vec<String>) -> (r: String)
    ensures
        r@ == spec_join_lines(spec_string_views(parts@)),
{
    let ghost views = spec_string_views(parts@);
    let mut r = String::new();
    let mut i: usize = 0;
    while i < parts.len()
        invariant
            0 <= i <= parts@.len(),
            views == spec_string_views(parts@),
            r@ == spec_join_lines(views.take(i as int)),
        decreases parts@.len() - i,
    {
        if i > 0 {
            r.append("\n");
        }
        r.append(parts[i].as_str());
        proof {
            assert(views.take(i + 1).drop_last() =~= views.take(i as int));
            if i == 0 {
                assert(views.take(1)[0] == views[0]);
            }
        }
        i = i + 1;
    }
    proof {
        assert(views.take(views.len() as int) =~= views);
    }
    r
}

/// Uniform types that declare themselves in WGSL.
pub trait ShaderUniformType {
    /// The WGSL text that declares the type. Each impl states its own; the
    /// default names no particular text, so an impl that keeps it cannot
    /// prove its `definition`.
    open spec fn spec_definition() -> Seq<char> {
        vstd::pervasive::arbitrary()
    }

    /// The WGSL text that declares the type.
    fn definition() -> (r: String)
        ensures
            r@ == Self::spec_definition(),
    ;
}

impl ShaderUniformType for glam::Mat4 {
    open spec fn spec_definition() -> Seq<char> {
        "mat4x4<f32>"@
    }

    fn definition() -> (r: String) {
        owned("mat4x4<f32>")
    }
}

/// What a shader's uniforms add to its source: the declarations of their
/// types.
pub trait ShaderUniforms {
    /// The declarations the uniforms add. Each impl states its own; the
    /// default names no particular text.
    open spec fn spec_uniforms_definition() -> Seq<char> {
        vstd::pervasive::arbitrary()
    }

    fn definition() -> (r: String)
        ensures
            r@ == Self::spec_uniforms_definition(),
    ;
}

/// No uniforms declare nothing.
impl ShaderUniforms for () {
    open spec fn spec_uniforms_definition() -> Seq<char> {
        Seq::empty()
    }

    fn definition() -> (r: String) {
        String::new()
    }
}

/// A single uniform type declares itself.
impl<U: ShaderUniformType> ShaderUniforms for U {
    open spec fn spec_uniforms_definition() -> Seq<char> {
        U::spec_definition()
    }

    fn definition() -> (r: String) {
        <U as ShaderUniformType>::definition()
    }
}

/// A tuple of uniforms declares each member's types in order.
impl<T1: ShaderUniforms, T2: ShaderUniforms> ShaderUniforms for (T1, T2) {
    open spec fn spec_uniforms_definition() -> Seq<char> {
        spec_concat(seq![T1::spec_uniforms_definition(), T2::spec_uniforms_definition()])
    }

    fn definition() -> (r: String) {
        let parts = vec![<T1 as ShaderUniforms>::definition(), <T2 as ShaderUniforms>::definition()];
        proof {
            assert(spec_string_views(parts@) =~= seq![T1::spec_uniforms_definition(), T2::spec_uniforms_definition()]);
        }
        concat_all(&parts)
    }
}

/// A tuple of uniforms declares each member's types in order.
impl<T1: ShaderUniforms, T2: ShaderUniforms, T3: ShaderUniforms> ShaderUniforms for (T1, T2, T3) {
    open spec fn spec_uniforms_definition() -> Seq<char> {
        spec_concat(seq![T1::spec_uniforms_definition(), T2::spec_uniforms_definition(), T3::spec_uniforms_definition()])
    }

    fn definition() -> (r: String) {
        let parts = vec![<T1 as ShaderUniforms>::definition(), <T2 as ShaderUniforms>::definition(), <T3 as ShaderUniforms>::definition()];
        proof {
            assert(spec_string_views(parts@) =~= seq![T1::spec_uniforms_definition(), T2::spec_uniforms_definition(), T3::spec_uniforms_definition()]);
        }
        concat_all(&parts)
    }
}

/// A tuple of uniforms declares each member's types in order.
impl<T1: ShaderUniforms, T2: ShaderUniforms, T3: ShaderUniforms, T4: ShaderUniforms> ShaderUniforms for (T1, T2, T3, T4) {
    open spec fn spec_uniforms_definition() -> Seq<char> {
        spec_concat(seq![T1::spec_uniforms_definition(), T2::spec_uniforms_definition(), T3::spec_uniforms_definition(), T4::spec_uniforms_definition()])
    }

    fn definition() -> (r: String) {
        let parts = vec![<T1 as ShaderUniforms>::definition(), <T2 as ShaderUniforms>::definition(), <T3 as ShaderUniforms>::definition(), <T4 as ShaderUniforms>::definition()];
        proof {
            assert(spec_string_views(parts@) =~= seq![T1::spec_uniforms_definition(), T2::spec_uniforms_definition(), T3::spec_uniforms_definition(), T4::spec_uniforms_definition()]);
        }
        concat_all(&parts)
    }
}

/// A tuple of uniforms declares each member's types in order.
impl<T1: ShaderUniforms, T2: ShaderUniforms, T3: ShaderUniforms, T4: ShaderUniforms, T5: ShaderUniforms> ShaderUniforms for (T1, T2, T3, T4, T5) {
    open spec fn spec_uniforms_definition() -> Seq<char> {
        spec_concat(seq![T1::spec_uniforms_definition(), T2::spec_uniforms_definition(), T3::spec_uniforms_definition(), T4::spec_uniforms_definition(), T5::spec_uniforms_definition()])
    }

    fn definition() -> (r: String) {
        let parts = vec![<T1 as ShaderUniforms>::definition(), <T2 as ShaderUniforms>::definition(), <T3 as ShaderUniforms>::definition(), <T4 as ShaderUniforms>::definition(), <T5 as ShaderUniforms>::definition()];
        proof {
            assert(spec_string_views(parts@) =~= seq![T1::spec_uniforms_definition(), T2::spec_uniforms_definition(), T3::spec_uniforms_definition(), T4::spec_uniforms_definition(), T5::spec_uniforms_definition()]);
        }
        concat_all(&parts)
    }
}

/// A tuple of uniforms declares each member's types in order.
impl<T1: ShaderUniforms, T2: ShaderUniforms, T3: ShaderUniforms, T4: ShaderUniforms, T5: ShaderUniforms, T6: ShaderUniforms> ShaderUniforms for (T1, T2, T3, T4, T5, T6) {
    open spec fn spec_uniforms_definition() -> Seq<char> {
        spec_concat(seq![T1::spec_uniforms_definition(), T2::spec_uniforms_definition(), T3::spec_uniforms_definition(), T4::spec_uniforms_definition(), T5::spec_uniforms_definition(), T6::spec_uniforms_definition()])
    }

    fn definition() -> (r: String) {
        let parts = vec![<T1 as ShaderUniforms>::definition(), <T2 as ShaderUniforms>::definition(), <T3 as ShaderUniforms>::definition(), <T4 as ShaderUniforms>::definition(), <T5 as ShaderUniforms>::definition(), <T6 as ShaderUniforms>::definition()];
        proof {
            assert(spec_string_views(parts@) =~= seq![T1::spec_uniforms_definition(), T2::spec_uniforms_definition(), T3::spec_uniforms_definition(), T4::spec_uniforms_definition(), T5::spec_uniforms_definition(), T6::spec_uniforms_definition()]);
        }
        concat_all(&parts)
    }
}

/// A tuple of uniforms declares every member's types, each member's
/// declarations whole and in the order of the members: its declarations are
/// the members' declarations one after another, for tuples of every size.
pub proof fn lemma_uniform_tuples_declare_every_member<T1: ShaderUniforms, T2: ShaderUniforms, T3: ShaderUniforms, T4: ShaderUniforms, T5: ShaderUniforms, T6: ShaderUniforms>()
    ensures
        <(T1, T2) as ShaderUniforms>::spec_uniforms_definition() == T1::spec_uniforms_definition() + T2::spec_uniforms_definition(),
        <(T1, T2, T3) as ShaderUniforms>::spec_uniforms_definition() == T1::spec_uniforms_definition() + T2::spec_uniforms_definition() + T3::spec_uniforms_definition(),
        <(T1, T2, T3, T4) as ShaderUniforms>::spec_uniforms_definition() == T1::spec_uniforms_definition() + T2::spec_uniforms_definition() + T3::spec_uniforms_definition() + T4::spec_uniforms_definition(),
        <(T1, T2, T3, T4, T5) as ShaderUniforms>::spec_uniforms_definition() == T1::spec_uniforms_definition() + T2::spec_uniforms_definition() + T3::spec_uniforms_definition() + T4::spec_uniforms_definition() + T5::spec_uniforms_definition(),
        <(T1, T2, T3, T4, T5, T6) as ShaderUniforms>::spec_uniforms_definition() == T1::spec_uniforms_definition() + T2::spec_uniforms_definition() + T3::spec_uniforms_definition() + T4::spec_uniforms_definition() + T5::spec_uniforms_definition() + T6::spec_uniforms_definition(),
{
    let a = T1::spec_uniforms_definition();
    assert(seq![a].drop_last() =~= Seq::<Seq<char>>::empty());
    assert(Seq::<char>::empty() + a =~= a);
    assert(seq![T1::spec_uniforms_definition(), T2::spec_uniforms_definition()].drop_last() =~= seq![T1::spec_uniforms_definition()]);
    assert(seq![T1::spec_uniforms_definition(), T2::spec_uniforms_definition(), T3::spec_uniforms_definition()].drop_last() =~= seq![T1::spec_uniforms_definition(), T2::spec_uniforms_definition()]);
    assert(seq![T1::spec_uniforms_definition(), T2::spec_uniforms_definition(), T3::spec_uniforms_definition(), T4::spec_uniforms_definition()].drop_last() =~= seq![T1::spec_uniforms_definition(), T2::spec_uniforms_definition(), T3::spec_uniforms_definition()]);
    assert(seq![T1::spec_uniforms_definition(), T2::spec_uniforms_definition(), T3::spec_uniforms_definition(), T4::spec_uniforms_definition(), T5::spec_uniforms_definition()].drop_last() =~= seq![T1::spec_uniforms_definition(), T2::spec_uniforms_definition(), T3::spec_uniforms_definition(), T4::spec_uniforms_definition()]);
    assert(seq![T1::spec_uniforms_definition(), T2::spec_uniforms_definition(), T3::spec_uniforms_definition(), T4::spec_uniforms_definition(), T5::spec_uniforms_definition(), T6::spec_uniforms_definition()].drop_last() =~= seq![T1::spec_uniforms_definition(), T2::spec_uniforms_definition(), T3::spec_uniforms_definition(), T4::spec_uniforms_definition(), T5::spec_uniforms_definition()]);
    reveal_with_fuel(spec_concat, 7);
}

/// Whether a vertex buffer advances per vertex or per instance.
#[derive(Clone, Copy, Debug, PartialEq, Eq, Hash, Structural)]
pub enum VertexStepMode {
    Vertex,
    Instance,
}

/// The layout of one vertex buffer.
#[derive(Clone, Debug)]
pub struct BufferLayout {
    pub attributes: Vec<VertexAttribute>,
    pub step_mode: VertexStepMode,
    pub array_stride: u64,
}

/// `attrs` with every shader location moved up by `offset`; a location that
/// would pass `u32::MAX` wraps around, as `+` does in release builds.
pub open spec fn spec_shifted_attributes(attrs: Seq<VertexAttribute>, offset: u32) -> Seq<VertexAttribute> {
    attrs.map_values(
        |a: VertexAttribute|
            VertexAttribute {
                format: a.format,
                offset: a.offset,
                shader_location: a.shader_location.wrapping_add(offset),
            },
    )
}

/// Moves every shader location of `attrs` up by `offset`, keeping formats
/// and byte offsets.
pub fn shift_attribute_locations(attrs: &Vec<VertexAttribute>, offset: u32) -> (r: Vec<VertexAttribute>)
    ensures
        r@ == spec_shifted_attributes(attrs@, offset),
{
    let mut out: Vec<VertexAttribute> = Vec::new();
    let mut i: usize = 0;
    while i < attrs.len()
        invariant
            0 <= i <= attrs@.len(),
            out@ == spec_shifted_attributes(attrs@.take(i as int), offset),
        decreases attrs@.len() - i,
    {
        let a = attrs[i];
        out.push(
            VertexAttribute {
                format: a.format,
                offset: a.offset,
                shader_location: a.shader_location.wrapping_add(offset),
            },
        );
        proof {
            assert(attrs@.take(i + 1) =~= attrs@.take(i as int).push(a));
            assert(spec_shifted_attributes(attrs@.take(i + 1), offset) =~= spec_shifted_attributes(
                attrs@.take(i as int),
                offset,
            ).push(out@.last()));
        }
        i = i + 1;
    }
    proof {
        assert(attrs@.take(attrs@.len() as int) =~= attrs@);
    }
    out
}

/// The first location after those of `attrs`: one past the last
/// attribute's location, or 0 when there are no attributes.
pub open spec fn spec_next_offset(attrs: Seq<VertexAttribute>) -> u32 {
    if attrs.len() == 0 {
        0
    } else {
        attrs.last().shader_location.wrapping_add(1)
    }
}

/// The first location after those of `attrs`.
pub fn next_location_offset(attrs: &Vec<VertexAttribute>) -> (r: u32)
    ensures
        r == spec_next_offset(attrs@),
{
    if attrs.len() == 0 {
        0
    } else {
        attrs[attrs.len() - 1].shader_location.wrapping_add(1)
    }
}

/// Where the inputs of a tuple start: each input's first location is the
/// sum of the location counts before it (wrapping as `+` does in release
/// builds).
pub open spec fn spec_location_offset(counts: Seq<u32>, i: int) -> u32
    decreases i,
{
    if i <= 0 {
        0
    } else {
        spec_location_offset(counts, i - 1).wrapping_add(counts[i - 1])
    }
}

/// The first location of each input of a tuple whose inputs take `counts`
/// locations, and the locations taken in all.
pub fn location_offsets(counts: &Vec<u32>) -> (r: (Vec<u32>, u32))
    ensures
        r.0@.len() == counts@.len(),
        forall|i: int| 0 <= i < counts@.len() ==> #[trigger] r.0@[i] == spec_location_offset(counts@, i),
        r.1 == spec_location_offset(counts@, counts@.len() as int),
{
    let mut offsets: Vec<u32> = Vec::new();
    let mut offset: u32 = 0;
    let mut i: usize = 0;
    while i < counts.len()
        invariant
            0 <= i <= counts@.len(),
            offsets@.len() == i,
            offset == spec_location_offset(counts@, i as int),
            forall|j: int| 0 <= j < i ==> #[trigger] offsets@[j] == spec_location_offset(counts@, j),
        decreases counts@.len() - i,
    {
        offsets.push(offset);
        offset = offset.wrapping_add(counts[i]);
        i = i + 1;
    }
    (offsets, offset)
}

/// Data read by a vertex shader from one vertex buffer.
pub trait VertexInput: Sized {
    /// The WGSL struct that declares the input, its first field bound to
    /// `location_offset`. Each impl states its own; the default names no
    /// particular text.
    open spec fn spec_input_definition(location_offset: u32) -> Seq<char> {
        vstd::pervasive::arbitrary()
    }

    /// The input's attributes, locations counted from 0. Each impl states
    /// its own; the default names no particular list.
    open spec fn spec_vertex_attributes() -> Seq<VertexAttribute> {
        vstd::pervasive::arbitrary()
    }

    /// The WGSL struct that declares the input, its first field bound to
    /// `location_offset`.
    fn definition(location_offset: u32) -> (r: String)
        ensures
            r@ == Self::spec_input_definition(location_offset),
    ;

    /// The input's attributes, locations counted from 0.
    fn vertex_attributes() -> (r: Vec<VertexAttribute>)
        ensures
            r@ == Self::spec_vertex_attributes(),
    ;

    fn step_mode() -> (r: VertexStepMode)
        default_ensures
            r == VertexStepMode::Vertex,
    {
        VertexStepMode::Vertex
    }

    /// The buffer layout of the input with its locations moved up by
    /// `location_offset`; a vertex spans the whole input type.
    fn vertex_buffer_layout(location_offset: u32) -> (r: BufferLayout)
        ensures
            r.attributes@ == spec_shifted_attributes(Self::spec_vertex_attributes(), location_offset),
            r.array_stride == vstd::layout::size_of::<Self>(),
    {
        let attributes = shift_attribute_locations(&Self::vertex_attributes(), location_offset);
        BufferLayout {
            attributes,
            step_mode: Self::step_mode(),
            array_stride: std::mem::size_of::<Self>() as u64,
        }
    }

    /// The first location after the input's own: one past the last
    /// attribute's, or 0 for an input without attributes.
    fn next_offset() -> (r: u32)
        ensures
            r == spec_next_offset(Self::spec_vertex_attributes()),
    {
        let vv = Self::vertex_attributes();
        next_location_offset(&vv)
    }
}

/// The inputs of a vertex shader: one vertex input, or a tuple of them read
/// from consecutive buffers with consecutive locations.
pub trait VertexInputs {
    /// The declarations of the inputs' structs. Each impl states its own;
    /// the default names no particular text.
    open spec fn spec_inputs_definition() -> Seq<char> {
        vstd::pervasive::arbitrary()
    }

    /// The number of locations the inputs take. Each impl states its own;
    /// the default names no particular count.
    open spec fn spec_locations_count() -> u32 {
        vstd::pervasive::arbitrary()
    }

    fn definition() -> (r: String)
        ensures
            r@ == Self::spec_inputs_definition(),
    ;

    fn locations_count() -> (r: u32)
        ensures
            r == Self::spec_locations_count(),
    ;

    /// Whether `layouts` are the buffer layouts of the inputs: one per
    /// input, in order, each with its locations moved up past those of the
    /// inputs before it. Each impl states its own; the default names no
    /// particular layouts.
    open spec fn spec_buffer_layouts(layouts: Seq<BufferLayout>) -> bool {
        vstd::pervasive::arbitrary()
    }

    fn vertex_buffer_layouts() -> (r: Vec<BufferLayout>)
        ensures
            Self::spec_buffer_layouts(r@),
    ;
}

/// Whether `layout` is the buffer layout of the input `T` with its
/// locations moved up by `location_offset`: `T`'s attributes so moved, and
/// a stride of the size of `T`.
pub open spec fn spec_layout_of<T: VertexInput>(layout: BufferLayout, location_offset: u32) -> bool {
    &&& layout.attributes@ == spec_shifted_attributes(T::spec_vertex_attributes(), location_offset)
    &&& layout.array_stride == vstd::layout::size_of::<T>()
}

impl<V: VertexInput> VertexInputs for V {
    /// The input's struct, its locations from 0.
    open spec fn spec_inputs_definition() -> Seq<char> {
        V::spec_input_definition(0)
    }

    /// One location per attribute (the count cut to 32 bits).
    open spec fn spec_locations_count() -> u32 {
        V::spec_vertex_attributes().len() as u32
    }

    fn definition() -> (r: String) {
        <V as VertexInput>::definition(0)
    }

    fn locations_count() -> (r: u32) {
        #[verifier::truncate] (<V as VertexInput>::vertex_attributes().len() as u32)
    }

    /// The input's layout, its locations from 0.
    open spec fn spec_buffer_layouts(layouts: Seq<BufferLayout>) -> bool {
        layouts.len() == 1 && spec_layout_of::<V>(layouts[0], 0)
    }

    fn vertex_buffer_layouts() -> (r: Vec<BufferLayout>) {
        vec![V::vertex_buffer_layout(0)]
    }
}

/// A tuple of vertex inputs reads each member from its own buffer; each
/// member's locations follow those of the members before it.
impl<T1: VertexInput, T2: VertexInput> VertexInputs for (T1, T2) {
    /// The members' structs, one per line, each member's locations starting
    /// where the members before it end.
    open spec fn spec_inputs_definition() -> Seq<char> {
        let counts = seq![<T1 as VertexInputs>::spec_locations_count(), <T2 as VertexInputs>::spec_locations_count()];
        spec_join_lines(seq![<T1 as VertexInput>::spec_input_definition(spec_location_offset(counts, 0)), <T2 as VertexInput>::spec_input_definition(spec_location_offset(counts, 1))])
    }

    /// The members' location counts added up (wrapping as `+` does in
    /// release builds).
    open spec fn spec_locations_count() -> u32 {
        spec_location_offset(seq![<T1 as VertexInputs>::spec_locations_count(), <T2 as VertexInputs>::spec_locations_count()], 2)
    }

    fn definition() -> (r: String) {
        let counts = vec![<T1 as VertexInputs>::locations_count(), <T2 as VertexInputs>::locations_count()];
        let (offsets, _) = location_offsets(&counts);
        let parts = vec![<T1 as VertexInput>::definition(offsets[0]), <T2 as VertexInput>::definition(offsets[1])];
        proof {
            assert(counts@ =~= seq![<T1 as VertexInputs>::spec_locations_count(), <T2 as VertexInputs>::spec_locations_count()]);
            assert(spec_string_views(parts@) =~= seq![<T1 as VertexInput>::spec_input_definition(spec_location_offset(counts@, 0)), <T2 as VertexInput>::spec_input_definition(spec_location_offset(counts@, 1))]);
        }
        join_lines(&parts)
    }

    fn locations_count() -> (r: u32) {
        let counts = vec![<T1 as VertexInputs>::locations_count(), <T2 as VertexInputs>::locations_count()];
        let (_, total) = location_offsets(&counts);
        proof {
            assert(counts@ =~= seq![<T1 as VertexInputs>::spec_locations_count(), <T2 as VertexInputs>::spec_locations_count()]);
        }
        total
    }

    /// The members' layouts in order, each member's locations starting
    /// where the members before it end.
    open spec fn spec_buffer_layouts(layouts: Seq<BufferLayout>) -> bool {
        let counts = seq![<T1 as VertexInputs>::spec_locations_count(), <T2 as VertexInputs>::spec_locations_count()];
        layouts.len() == 2
            && spec_layout_of::<T1>(layouts[0], spec_location_offset(counts, 0))
            && spec_layout_of::<T2>(layouts[1], spec_location_offset(counts, 1))
    }

    fn vertex_buffer_layouts() -> (r: Vec<BufferLayout>) {
        let counts = vec![<T1 as VertexInputs>::locations_count(), <T2 as VertexInputs>::locations_count()];
        let (offsets, _) = location_offsets(&counts);
        proof {
            assert(counts@ =~= seq![<T1 as VertexInputs>::spec_locations_count(), <T2 as VertexInputs>::spec_locations_count()]);
        }
        vec![<T1 as VertexInput>::vertex_buffer_layout(offsets[0]), <T2 as VertexInput>::vertex_buffer_layout(offsets[1])]
    }
}

/// A tuple of vertex inputs reads each member from its own buffer; each
/// member's locations follow those of the members before it.
impl<T1: VertexInput, T2: VertexInput, T3: VertexInput> VertexInputs for (T1, T2, T3) {
    /// The members' structs, one per line, each member's locations starting
    /// where the members before it end.
    open spec fn spec_inputs_definition() -> Seq<char> {
        let counts = seq![<T1 as VertexInputs>::spec_locations_count(), <T2 as VertexInputs>::spec_locations_count(), <T3 as VertexInputs>::spec_locations_count()];
        spec_join_lines(seq![<T1 as VertexInput>::spec_input_definition(spec_location_offset(counts, 0)), <T2 as VertexInput>::spec_input_definition(spec_location_offset(counts, 1)), <T3 as VertexInput>::spec_input_definition(spec_location_offset(counts, 2))])
    }

    /// The members' location counts added up (wrapping as `+` does in
    /// release builds).
    open spec fn spec_locations_count() -> u32 {
        spec_location_offset(seq![<T1 as VertexInputs>::spec_locations_count(), <T2 as VertexInputs>::spec_locations_count(), <T3 as VertexInputs>::spec_locations_count()], 3)
    }

    fn definition() -> (r: String) {
        let counts = vec![<T1 as VertexInputs>::locations_count(), <T2 as VertexInputs>::locations_count(), <T3 as VertexInputs>::locations_count()];
        let (offsets, _) = location_offsets(&counts);
        let parts = vec![<T1 as VertexInput>::definition(offsets[0]), <T2 as VertexInput>::definition(offsets[1]), <T3 as VertexInput>::definition(offsets[2])];
        proof {
            assert(counts@ =~= seq![<T1 as VertexInputs>::spec_locations_count(), <T2 as VertexInputs>::spec_locations_count(), <T3 as VertexInputs>::spec_locations_count()]);
            assert(spec_string_views(parts@) =~= seq![<T1 as VertexInput>::spec_input_definition(spec_location_offset(counts@, 0)), <T2 as VertexInput>::spec_input_definition(spec_location_offset(counts@, 1)), <T3 as VertexInput>::spec_input_definition(spec_location_offset(counts@, 2))]);
        }
        join_lines(&parts)
    }

    fn locations_count() -> (r: u32) {
        let counts = vec![<T1 as VertexInputs>::locations_count(), <T2 as VertexInputs>::locations_count(), <T3 as VertexInputs>::locations_count()];
        let (_, total) = location_offsets(&counts);
        proof {
            assert(counts@ =~= seq![<T1 as VertexInputs>::spec_locations_count(), <T2 as VertexInputs>::spec_locations_count(), <T3 as VertexInputs>::spec_locations_count()]);
        }
        total
    }

    /// The members' layouts in order, each member's locations starting
    /// where the members before it end.
    open spec fn spec_buffer_layouts(layouts: Seq<BufferLayout>) -> bool {
        let counts = seq![<T1 as VertexInputs>::spec_locations_count(), <T2 as VertexInputs>::spec_locations_count(), <T3 as VertexInputs>::spec_locations_count()];
        layouts.len() == 3
            && spec_layout_of::<T1>(layouts[0], spec_location_offset(counts, 0))
            && spec_layout_of::<T2>(layouts[1], spec_location_offset(counts, 1))
            && spec_layout_of::<T3>(layouts[2], spec_location_offset(counts, 2))
    }

    fn vertex_buffer_layouts() -> (r: Vec<BufferLayout>) {
        let counts = vec![<T1 as VertexInputs>::locations_count(), <T2 as VertexInputs>::locations_count(), <T3 as VertexInputs>::locations_count()];
        let (offsets, _) = location_offsets(&counts);
        proof {
            assert(counts@ =~= seq![<T1 as VertexInputs>::spec_locations_count(), <T2 as VertexInputs>::spec_locations_count(), <T3 as VertexInputs>::spec_locations_count()]);
        }
        vec![<T1 as VertexInput>::vertex_buffer_layout(offsets[0]), <T2 as VertexInput>::vertex_buffer_layout(offsets[1]), <T3 as VertexInput>::vertex_buffer_layout(offsets[2])]
    }
}

/// A tuple of vertex inputs reads each member from its own buffer; each
/// member's locations follow those of the members before it.
impl<T1: VertexInput, T2: VertexInput, T3: VertexInput, T4: VertexInput> VertexInputs for (T1, T2, T3, T4) {
    /// The members' structs, one per line, each member's locations starting
    /// where the members before it end.
    open spec fn spec_inputs_definition() -> Seq<char> {
        let counts = seq![<T1 as VertexInputs>::spec_locations_count(), <T2 as VertexInputs>::spec_locations_count(), <T3 as VertexInputs>::spec_locations_count(), <T4 as VertexInputs>::spec_locations_count()];
        spec_join_lines(seq![<T1 as VertexInput>::spec_input_definition(spec_location_offset(counts, 0)), <T2 as VertexInput>::spec_input_definition(spec_location_offset(counts, 1)), <T3 as VertexInput>::spec_input_definition(spec_location_offset(counts, 2)), <T4 as VertexInput>::spec_input_definition(spec_location_offset(counts, 3))])
    }

    /// The members' location counts added up (wrapping as `+` does in
    /// release builds).
    open spec fn spec_locations_count() -> u32 {
        spec_location_offset(seq![<T1 as VertexInputs>::spec_locations_count(), <T2 as VertexInputs>::spec_locations_count(), <T3 as VertexInputs>::spec_locations_count(), <T4 as VertexInputs>::spec_locations_count()], 4)
    }

    fn definition() -> (r: String) {
        let counts = vec![<T1 as VertexInputs>::locations_count(), <T2 as VertexInputs>::locations_count(), <T3 as VertexInputs>::locations_count(), <T4 as VertexInputs>::locations_count()];
        let (offsets, _) = location_offsets(&counts);
        let parts = vec![<T1 as VertexInput>::definition(offsets[0]), <T2 as VertexInput>::definition(offsets[1]), <T3 as VertexInput>::definition(offsets[2]), <T4 as VertexInput>::definition(offsets[3])];
        proof {
            assert(counts@ =~= seq![<T1 as VertexInputs>::spec_locations_count(), <T2 as VertexInputs>::spec_locations_count(), <T3 as VertexInputs>::spec_locations_count(), <T4 as VertexInputs>::spec_locations_count()]);
            assert(spec_string_views(parts@) =~= seq![<T1 as VertexInput>::spec_input_definition(spec_location_offset(counts@, 0)), <T2 as VertexInput>::spec_input_definition(spec_location_offset(counts@, 1)), <T3 as VertexInput>::spec_input_definition(spec_location_offset(counts@, 2)), <T4 as VertexInput>::spec_input_definition(spec_location_offset(counts@, 3))]);
        }
        join_lines(&parts)
    }

    fn locations_count() -> (r: u32) {
        let counts = vec![<T1 as VertexInputs>::locations_count(), <T2 as VertexInputs>::locations_count(), <T3 as VertexInputs>::locations_count(), <T4 as VertexInputs>::locations_count()];
        let (_, total) = location_offsets(&counts);
        proof {
            assert(counts@ =~= seq![<T1 as VertexInputs>::spec_locations_count(), <T2 as VertexInputs>::spec_locations_count(), <T3 as VertexInputs>::spec_locations_count(), <T4 as VertexInputs>::spec_locations_count()]);
        }
        total
    }

    /// The members' layouts in order, each member's locations starting
    /// where the members before it end.
    open spec fn spec_buffer_layouts(layouts: Seq<BufferLayout>) -> bool {
        let counts = seq![<T1 as VertexInputs>::spec_locations_count(), <T2 as VertexInputs>::spec_locations_count(), <T3 as VertexInputs>::spec_locations_count(), <T4 as VertexInputs>::spec_locations_count()];
        layouts.len() == 4
            && spec_layout_of::<T1>(layouts[0], spec_location_offset(counts, 0))
            && spec_layout_of::<T2>(layouts[1], spec_location_offset(counts, 1))
            && spec_layout_of::<T3>(layouts[2], spec_location_offset(counts, 2))
            && spec_layout_of::<T4>(layouts[3], spec_location_offset(counts, 3))
    }

    fn vertex_buffer_layouts() -> (r: Vec<BufferLayout>) {
        let counts = vec![<T1 as VertexInputs>::locations_count(), <T2 as VertexInputs>::locations_count(), <T3 as VertexInputs>::locations_count(), <T4 as VertexInputs>::locations_count()];
        let (offsets, _) = location_offsets(&counts);
        proof {
            assert(counts@ =~= seq![<T1 as VertexInputs>::spec_locations_count(), <T2 as VertexInputs>::spec_locations_count(), <T3 as VertexInputs>::spec_locations_count(), <T4 as VertexInputs>::spec_locations_count()]);
        }
        vec![<T1 as VertexInput>::vertex_buffer_layout(offsets[0]), <T2 as VertexInput>::vertex_buffer_layout(offsets[1]), <T3 as VertexInput>::vertex_buffer_layout(offsets[2]), <T4 as VertexInput>::vertex_buffer_layout(offsets[3])]
    }
}

/// A tuple of vertex inputs reads each member from its own buffer; each
/// member's locations follow those of the members before it.
impl<T1: VertexInput, T2: VertexInput, T3: VertexInput, T4: VertexInput, T5: VertexInput> VertexInputs for (T1, T2, T3, T4, T5) {
    /// The members' structs, one per line, each member's locations starting
    /// where the members before it end.
    open spec fn spec_inputs_definition() -> Seq<char> {
        let counts = seq![<T1 as VertexInputs>::spec_locations_count(), <T2 as VertexInputs>::spec_locations_count(), <T3 as VertexInputs>::spec_locations_count(), <T4 as VertexInputs>::spec_locations_count(), <T5 as VertexInputs>::spec_locations_count()];
        spec_join_lines(seq![<T1 as VertexInput>::spec_input_definition(spec_location_offset(counts, 0)), <T2 as VertexInput>::spec_input_definition(spec_location_offset(counts, 1)), <T3 as VertexInput>::spec_input_definition(spec_location_offset(counts, 2)), <T4 as VertexInput>::spec_input_definition(spec_location_offset(counts, 3)), <T5 as VertexInput>::spec_input_definition(spec_location_offset(counts, 4))])
    }

    /// The members' location counts added up (wrapping as `+` does in
    /// release builds).
    open spec fn spec_locations_count() -> u32 {
        spec_location_offset(seq![<T1 as VertexInputs>::spec_locations_count(), <T2 as VertexInputs>::spec_locations_count(), <T3 as VertexInputs>::spec_locations_count(), <T4 as VertexInputs>::spec_locations_count(), <T5 as VertexInputs>::spec_locations_count()], 5)
    }

    fn definition() -> (r: String) {
        let counts = vec![<T1 as VertexInputs>::locations_count(), <T2 as VertexInputs>::locations_count(), <T3 as VertexInputs>::locations_count(), <T4 as VertexInputs>::locations_count(), <T5 as VertexInputs>::locations_count()];
        let (offsets, _) = location_offsets(&counts);
        let parts = vec![<T1 as VertexInput>::definition(offsets[0]), <T2 as VertexInput>::definition(offsets[1]), <T3 as VertexInput>::definition(offsets[2]), <T4 as VertexInput>::definition(offsets[3]), <T5 as VertexInput>::definition(offsets[4])];
        proof {
            assert(counts@ =~= seq![<T1 as VertexInputs>::spec_locations_count(), <T2 as VertexInputs>::spec_locations_count(), <T3 as VertexInputs>::spec_locations_count(), <T4 as VertexInputs>::spec_locations_count(), <T5 as VertexInputs>::spec_locations_count()]);
            assert(spec_string_views(parts@) =~= seq![<T1 as VertexInput>::spec_input_definition(spec_location_offset(counts@, 0)), <T2 as VertexInput>::spec_input_definition(spec_location_offset(counts@, 1)), <T3 as VertexInput>::spec_input_definition(spec_location_offset(counts@, 2)), <T4 as VertexInput>::spec_input_definition(spec_location_offset(counts@, 3)), <T5 as VertexInput>::spec_input_definition(spec_location_offset(counts@, 4))]);
        }
        join_lines(&parts)
    }

    fn locations_count() -> (r: u32) {
        let counts = vec![<T1 as VertexInputs>::locations_count(), <T2 as VertexInputs>::locations_count(), <T3 as VertexInputs>::locations_count(), <T4 as VertexInputs>::locations_count(), <T5 as VertexInputs>::locations_count()];
        let (_, total) = location_offsets(&counts);
        proof {
            assert(counts@ =~= seq![<T1 as VertexInputs>::spec_locations_count(), <T2 as VertexInputs>::spec_locations_count(), <T3 as VertexInputs>::spec_locations_count(), <T4 as VertexInputs>::spec_locations_count(), <T5 as VertexInputs>::spec_locations_count()]);
        }
        total
    }

    /// The members' layouts in order, each member's locations starting
    /// where the members before it end.
    open spec fn spec_buffer_layouts(layouts: Seq<BufferLayout>) -> bool {
        let counts = seq![<T1 as VertexInputs>::spec_locations_count(), <T2 as VertexInputs>::spec_locations_count(), <T3 as VertexInputs>::spec_locations_count(), <T4 as VertexInputs>::spec_locations_count(), <T5 as VertexInputs>::spec_locations_count()];
        layouts.len() == 5
            && spec_layout_of::<T1>(layouts[0], spec_location_offset(counts, 0))
            && spec_layout_of::<T2>(layouts[1], spec_location_offset(counts, 1))
            && spec_layout_of::<T3>(layouts[2], spec_location_offset(counts, 2))
            && spec_layout_of::<T4>(layouts[3], spec_location_offset(counts, 3))
            && spec_layout_of::<T5>(layouts[4], spec_location_offset(counts, 4))
    }

    fn vertex_buffer_layouts() -> (r: Vec<BufferLayout>) {
        let counts = vec![<T1 as VertexInputs>::locations_count(), <T2 as VertexInputs>::locations_count(), <T3 as VertexInputs>::locations_count(), <T4 as VertexInputs>::locations_count(), <T5 as VertexInputs>::locations_count()];
        let (offsets, _) = location_offsets(&counts);
        proof {
            assert(counts@ =~= seq![<T1 as VertexInputs>::spec_locations_count(), <T2 as VertexInputs>::spec_locations_count(), <T3 as VertexInputs>::spec_locations_count(), <T4 as VertexInputs>::spec_locations_count(), <T5 as VertexInputs>::spec_locations_count()]);
        }
        vec![<T1 as VertexInput>::vertex_buffer_layout(offsets[0]), <T2 as VertexInput>::vertex_buffer_layout(offsets[1]), <T3 as VertexInput>::vertex_buffer_layout(offsets[2]), <T4 as VertexInput>::vertex_buffer_layout(offsets[3]), <T5 as VertexInput>::vertex_buffer_layout(offsets[4])]
    }
}

/// A tuple of vertex inputs reads each member from its own buffer; each
/// member's locations follow those of the members before it.
impl<T1: VertexInput, T2: VertexInput, T3: VertexInput, T4: VertexInput, T5: VertexInput, T6: VertexInput> VertexInputs for (T1, T2, T3, T4, T5, T6) {
    /// The members' structs, one per line, each member's locations starting
    /// where the members before it end.
    open spec fn spec_inputs_definition() -> Seq<char> {
        let counts = seq![<T1 as VertexInputs>::spec_locations_count(), <T2 as VertexInputs>::spec_locations_count(), <T3 as VertexInputs>::spec_locations_count(), <T4 as VertexInputs>::spec_locations_count(), <T5 as VertexInputs>::spec_locations_count(), <T6 as VertexInputs>::spec_locations_count()];
        spec_join_lines(seq![<T1 as VertexInput>::spec_input_definition(spec_location_offset(counts, 0)), <T2 as VertexInput>::spec_input_definition(spec_location_offset(counts, 1)), <T3 as VertexInput>::spec_input_definition(spec_location_offset(counts, 2)), <T4 as VertexInput>::spec_input_definition(spec_location_offset(counts, 3)), <T5 as VertexInput>::spec_input_definition(spec_location_offset(counts, 4)), <T6 as VertexInput>::spec_input_definition(spec_location_offset(counts, 5))])
    }

    /// The members' location counts added up (wrapping as `+` does in
    /// release builds).
    open spec fn spec_locations_count() -> u32 {
        spec_location_offset(seq![<T1 as VertexInputs>::spec_locations_count(), <T2 as VertexInputs>::spec_locations_count(), <T3 as VertexInputs>::spec_locations_count(), <T4 as VertexInputs>::spec_locations_count(), <T5 as VertexInputs>::spec_locations_count(), <T6 as VertexInputs>::spec_locations_count()], 6)
    }

    fn definition() -> (r: String) {
        let counts = vec![<T1 as VertexInputs>::locations_count(), <T2 as VertexInputs>::locations_count(), <T3 as VertexInputs>::locations_count(), <T4 as VertexInputs>::locations_count(), <T5 as VertexInputs>::locations_count(), <T6 as VertexInputs>::locations_count()];
        let (offsets, _) = location_offsets(&counts);
        let parts = vec![<T1 as VertexInput>::definition(offsets[0]), <T2 as VertexInput>::definition(offsets[1]), <T3 as VertexInput>::definition(offsets[2]), <T4 as VertexInput>::definition(offsets[3]), <T5 as VertexInput>::definition(offsets[4]), <T6 as VertexInput>::definition(offsets[5])];
        proof {
            assert(counts@ =~= seq![<T1 as VertexInputs>::spec_locations_count(), <T2 as VertexInputs>::spec_locations_count(), <T3 as VertexInputs>::spec_locations_count(), <T4 as VertexInputs>::spec_locations_count(), <T5 as VertexInputs>::spec_locations_count(), <T6 as VertexInputs>::spec_locations_count()]);
            assert(spec_string_views(parts@) =~= seq![<T1 as VertexInput>::spec_input_definition(spec_location_offset(counts@, 0)), <T2 as VertexInput>::spec_input_definition(spec_location_offset(counts@, 1)), <T3 as VertexInput>::spec_input_definition(spec_location_offset(counts@, 2)), <T4 as VertexInput>::spec_input_definition(spec_location_offset(counts@, 3)), <T5 as VertexInput>::spec_input_definition(spec_location_offset(counts@, 4)), <T6 as VertexInput>::spec_input_definition(spec_location_offset(counts@, 5))]);
        }
        join_lines(&parts)
    }

    fn locations_count() -> (r: u32) {
        let counts = vec![<T1 as VertexInputs>::locations_count(), <T2 as VertexInputs>::locations_count(), <T3 as VertexInputs>::locations_count(), <T4 as VertexInputs>::locations_count(), <T5 as VertexInputs>::locations_count(), <T6 as VertexInputs>::locations_count()];
        let (_, total) = location_offsets(&counts);
        proof {
            assert(counts@ =~= seq![<T1 as VertexInputs>::spec_locations_count(), <T2 as VertexInputs>::spec_locations_count(), <T3 as VertexInputs>::spec_locations_count(), <T4 as VertexInputs>::spec_locations_count(), <T5 as VertexInputs>::spec_locations_count(), <T6 as VertexInputs>::spec_locations_count()]);
        }
        total
    }

    /// The members' layouts in order, each member's locations starting
    /// where the members before it end.
    open spec fn spec_buffer_layouts(layouts: Seq<BufferLayout>) -> bool {
        let counts = seq![<T1 as VertexInputs>::spec_locations_count(), <T2 as VertexInputs>::spec_locations_count(), <T3 as VertexInputs>::spec_locations_count(), <T4 as VertexInputs>::spec_locations_count(), <T5 as VertexInputs>::spec_locations_count(), <T6 as VertexInputs>::spec_locations_count()];
        layouts.len() == 6
            && spec_layout_of::<T1>(layouts[0], spec_location_offset(counts, 0))
            && spec_layout_of::<T2>(layouts[1], spec_location_offset(counts, 1))
            && spec_layout_of::<T3>(layouts[2], spec_location_offset(counts, 2))
            && spec_layout_of::<T4>(layouts[3], spec_location_offset(counts, 3))
            && spec_layout_of::<T5>(layouts[4], spec_location_offset(counts, 4))
            && spec_layout_of::<T6>(layouts[5], spec_location_offset(counts, 5))
    }

    fn vertex_buffer_layouts() -> (r: Vec<BufferLayout>) {
        let counts = vec![<T1 as VertexInputs>::locations_count(), <T2 as VertexInputs>::locations_count(), <T3 as VertexInputs>::locations_count(), <T4 as VertexInputs>::locations_count(), <T5 as VertexInputs>::locations_count(), <T6 as VertexInputs>::locations_count()];
        let (offsets, _) = location_offsets(&counts);
        proof {
            assert(counts@ =~= seq![<T1 as VertexInputs>::spec_locations_count(), <T2 as VertexInputs>::spec_locations_count(), <T3 as VertexInputs>::spec_locations_count(), <T4 as VertexInputs>::spec_locations_count(), <T5 as VertexInputs>::spec_locations_count(), <T6 as VertexInputs>::spec_locations_count()]);
        }
        vec![<T1 as VertexInput>::vertex_buffer_layout(offsets[0]), <T2 as VertexInput>::vertex_buffer_layout(offsets[1]), <T3 as VertexInput>::vertex_buffer_layout(offsets[2]), <T4 as VertexInput>::vertex_buffer_layout(offsets[3]), <T5 as VertexInput>::vertex_buffer_layout(offsets[4]), <T6 as VertexInput>::vertex_buffer_layout(offsets[5])]
    }
}

/// The source of a shader: the declarations of its uniforms' types, then of
/// its vertex inputs, then the shader's own code.
pub fn shader_source<U: ShaderUniforms, V: VertexInputs>(src: &str) -> (r: String)
    ensures
        r@ == spec_concat(seq![U::spec_uniforms_definition(), V::spec_inputs_definition(), src@]),
{
    let parts = vec![U::definition(), V::definition(), owned(src)];
    proof {
        assert(spec_string_views(parts@) =~= seq![
            U::spec_uniforms_definition(),
            V::spec_inputs_definition(),
            src@,
        ]);
    }
    concat_all(&parts)
}

/// The WGSL field `name: <type of format>`.
pub open spec fn spec_field(name: Seq<char>, format: VertexFormat) -> Seq<char> {
    name + ": "@ + spec_wgsl_type_name(format)
}

/// The WGSL field `name_i: <type of format>`, numbering from 1.
pub open spec fn spec_numbered_field(name: Seq<char>, i: nat, format: VertexFormat) -> Seq<char> {
    name + "_"@ + spec_decimal(i) + ": "@ + spec_wgsl_type_name(format)
}

/// The fields `name_1`, ..., `name_n`, all of `format`.
pub open spec fn spec_numbered_fields(name: Seq<char>, n: nat, format: VertexFormat) -> Seq<Seq<char>> {
    Seq::new(n, |i: int| spec_numbered_field(name, (i + 1) as nat, format))
}

fn field(name: &str, format: VertexFormat) -> (r: String)
    ensures
        r@ == spec_field(name@, format),
{
    let mut r = String::new();
    r.append(name);
    r.append(": ");
    r.append(vertex_format_wgsl_type_name(format));
    r
}

fn numbered_fields(name: &str, n: usize, format: VertexFormat) -> (r: Vec<String>)
    requires
        n < usize::MAX,
    ensures
        r@.len() == n,
        forall|i: int| 0 <= i < n ==> #[trigger] r@[i]@ == spec_numbered_field(name@, (i + 1) as nat, format),
{
    let mut fields: Vec<String> = Vec::new();
    let mut i: usize = 0;
    while i < n
        invariant
            0 <= i <= n,
            n < usize::MAX,
            fields@.len() == i,
            forall|j: int| 0 <= j < i ==> #[trigger] fields@[j]@ == spec_numbered_field(name@, (j + 1) as nat, format),
        decreases n - i,
    {
        let number = usize_to_string(i + 1);
        let mut f = String::new();
        f.append(name);
        f.append("_");
        f.append(number.as_str());
        f.append(": ");
        f.append(vertex_format_wgsl_type_name(format));
        fields.push(f);
        i = i + 1;
    }
    fields
}

/// Types a vertex buffer can hold, with the WGSL fields and vertex formats
/// that carry them.
pub trait VertexDataType {
    /// How many vertex attributes the type takes.
    const N: usize = 1;

    spec fn spec_wgsl_fields(field_name: Seq<char>) -> Seq<Seq<char>>;

    spec fn spec_vertex_formats() -> Seq<VertexFormat>;

    fn wgsl_fields(field_name: &'static str) -> (r: Vec<String>)
        ensures
            r@.map_values(|f: String| f@) == Self::spec_wgsl_fields(field_name@),
    ;

    fn vertex_formats() -> (r: Vec<VertexFormat>)
        ensures
            r@ == Self::spec_vertex_formats(),
    ;
}

/// One attribute of format `Uint32`.
impl VertexDataType for u32 {
    open spec fn spec_wgsl_fields(field_name: Seq<char>) -> Seq<Seq<char>> {
        seq![spec_field(field_name, VertexFormat::Uint32)]
    }

    open spec fn spec_vertex_formats() -> Seq<VertexFormat> {
        seq![VertexFormat::Uint32]
    }

    fn wgsl_fields(field_name: &'static str) -> (r: Vec<String>) {
        let r = vec![field(field_name, VertexFormat::Uint32)];
        proof {
            assert(r@.map_values(|f: String| f@) =~= Self::spec_wgsl_fields(field_name@));
        }
        r
    }

    fn vertex_formats() -> (r: Vec<VertexFormat>) {
        vec![VertexFormat::Uint32]
    }
}

/// One attribute of format `Float32x2`.
impl VertexDataType for glam::Vec2 {
    open spec fn spec_wgsl_fields(field_name: Seq<char>) -> Seq<Seq<char>> {
        seq![spec_field(field_name, VertexFormat::Float32x2)]
    }

    open spec fn spec_vertex_formats() -> Seq<VertexFormat> {
        seq![VertexFormat::Float32x2]
    }

    fn wgsl_fields(field_name: &'static str) -> (r: Vec<String>) {
        let r = vec![field(field_name, VertexFormat::Float32x2)];
        proof {
            assert(r@.map_values(|f: String| f@) =~= Self::spec_wgsl_fields(field_name@));
        }
        r
    }

    fn vertex_formats() -> (r: Vec<VertexFormat>) {
        vec![VertexFormat::Float32x2]
    }
}

/// One attribute of format `Float32x3`.
impl VertexDataType for glam::Vec3 {
    open spec fn spec_wgsl_fields(field_name: Seq<char>) -> Seq<Seq<char>> {
        seq![spec_field(field_name, VertexFormat::Float32x3)]
    }

    open spec fn spec_vertex_formats() -> Seq<VertexFormat> {
        seq![VertexFormat::Float32x3]
    }

    fn wgsl_fields(field_name: &'static str) -> (r: Vec<String>) {
        let r = vec![field(field_name, VertexFormat::Float32x3)];
        proof {
            assert(r@.map_values(|f: String| f@) =~= Self::spec_wgsl_fields(field_name@));
        }
        r
    }

    fn vertex_formats() -> (r: Vec<VertexFormat>) {
        vec![VertexFormat::Float32x3]
    }
}

/// One attribute of format `Float32x4`.
impl VertexDataType for glam::Vec4 {
    open spec fn spec_wgsl_fields(field_name: Seq<char>) -> Seq<Seq<char>> {
        seq![spec_field(field_name, VertexFormat::Float32x4)]
    }

    open spec fn spec_vertex_formats() -> Seq<VertexFormat> {
        seq![VertexFormat::Float32x4]
    }

    fn wgsl_fields(field_name: &'static str) -> (r: Vec<String>) {
        let r = vec![field(field_name, VertexFormat::Float32x4)];
        proof {
            assert(r@.map_values(|f: String| f@) =~= Self::spec_wgsl_fields(field_name@));
        }
        r
    }

    fn vertex_formats() -> (r: Vec<VertexFormat>) {
        vec![VertexFormat::Float32x4]
    }
}

/// A matrix is 3 attributes of format `Float32x3`, one per column, the fields
/// numbered from 1.
impl VertexDataType for glam::Mat3 {
    const N: usize = 3;

    open spec fn spec_wgsl_fields(field_name: Seq<char>) -> Seq<Seq<char>> {
        spec_numbered_fields(field_name, 3, VertexFormat::Float32x3)
    }

    open spec fn spec_vertex_formats() -> Seq<VertexFormat> {
        seq![VertexFormat::Float32x3, VertexFormat::Float32x3, VertexFormat::Float32x3]
    }

    fn wgsl_fields(field_name: &'static str) -> (r: Vec<String>) {
        let r = numbered_fields(field_name, 3, VertexFormat::Float32x3);
        proof {
            assert(r@.map_values(|f: String| f@) =~= Self::spec_wgsl_fields(field_name@));
        }
        r
    }

    fn vertex_formats() -> (r: Vec<VertexFormat>) {
        let r = vec![VertexFormat::Float32x3, VertexFormat::Float32x3, VertexFormat::Float32x3];
        proof {
            assert(r@ =~= Self::spec_vertex_formats());
        }
        r
    }
}

/// A matrix is 4 attributes of format `Float32x4`, one per column, the fields
/// numbered from 1.
impl VertexDataType for glam::Mat4 {
    const N: usize = 4;

    open spec fn spec_wgsl_fields(field_name: Seq<char>) -> Seq<Seq<char>> {
        spec_numbered_fields(field_name, 4, VertexFormat::Float32x4)
    }

    open spec fn spec_vertex_formats() -> Seq<VertexFormat> {
        seq![VertexFormat::Float32x4, VertexFormat::Float32x4, VertexFormat::Float32x4, VertexFormat::Float32x4]
    }

    fn wgsl_fields(field_name: &'static str) -> (r: Vec<String>) {
        let r = numbered_fields(field_name, 4, VertexFormat::Float32x4);
        proof {
            assert(r@.map_values(|f: String| f@) =~= Self::spec_wgsl_fields(field_name@));
        }
        r
    }

    fn vertex_formats() -> (r: Vec<VertexFormat>) {
        let r = vec![VertexFormat::Float32x4, VertexFormat::Float32x4, VertexFormat::Float32x4, VertexFormat::Float32x4];
        proof {
            assert(r@ =~= Self::spec_vertex_formats());
        }
        r
    }
}

} // verus!
