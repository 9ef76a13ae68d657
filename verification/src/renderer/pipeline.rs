//! Typed handles to render pipelines stored by the render state.
use crate::renderer::shader_type::{
    spec_layout_of, spec_next_offset, BufferLayout, VertexInput, VertexStepMode,
};
use crate::renderer::slot_key::SlotKey;
use std::marker::PhantomData;
use vstd::prelude::*;
use vstd::string::StringExecFns;

verus! {

/// Tag of the pipeline slot map's keys.
#[derive(Debug, Hash)]
pub struct PipelineSlot;

/// A key of the render state's pipeline slot map.
pub type RawPipelineRef = SlotKey<PipelineSlot>;

/// A pipeline handle that remembers the pipeline's vertex and instance types.
#[derive(Debug)]
pub struct PipelineRef<V, I> {
    raw: RawPipelineRef,
    _marker: PhantomData<(V, I)>,
}

impl<V, I> View for PipelineRef<V, I> {
    type V = u64;

    closed spec fn view(&self) -> u64 {
        self.raw@
    }
}

impl<V, I> PipelineRef<V, I> {
    pub fn raw(self) -> (r: RawPipelineRef)
        ensures
            r@ == self@,
    {
        self.raw
    }

    pub open spec fn spec_is_null(&self) -> bool {
        self@ % 0x1_0000_0000 == 0xffff_ffff
    }

    /// Whether this is the null handle, which names no pipeline.
    pub fn is_null(&self) -> (r: bool)
        ensures
            r == self.spec_is_null(),
    {
        self.raw.is_null()
    }

    /// The key a pipeline builder replaces: none for the null handle, so that
    /// building inserts a new pipeline, and this handle's key otherwise.
    pub fn builder_key(self) -> (r: Option<RawPipelineRef>)
        ensures
            self.spec_is_null() ==> r is None,
            !self.spec_is_null() ==> (r matches Some(k) && k@ == self@),
    {
        if self.is_null() {
            None
        } else {
            Some(self.raw())
        }
    }
}

impl<V, I> From<RawPipelineRef> for PipelineRef<V, I> {
    fn from(raw: RawPipelineRef) -> (r: Self) {
        PipelineRef { raw, _marker: PhantomData }
    }
}

impl<V, I> vstd::std_specs::convert::FromSpecImpl<RawPipelineRef> for PipelineRef<V, I> {
    open spec fn obeys_from_spec() -> bool {
        true
    }

    closed spec fn from_spec(raw: RawPipelineRef) -> Self {
        PipelineRef { raw, _marker: PhantomData }
    }
}

impl<V, I> Clone for PipelineRef<V, I> {
    fn clone(&self) -> (r: Self)
        ensures
            r@ == self@,
    {
        PipelineRef { raw: self.raw, _marker: PhantomData }
    }
}

impl<V, I> Copy for PipelineRef<V, I> {
}

impl<V, I> Default for PipelineRef<V, I> {
    /// The null handle: a builder given it inserts a new pipeline.
    fn default() -> (r: Self)
        ensures
            r@ == 0x1_ffff_ffff,
            r.spec_is_null(),
    {
        PipelineRef { raw: RawPipelineRef::null(), _marker: PhantomData }
    }
}

/// The label of a pipeline's layout: the pipeline's label, or "Default
/// Pipeline" for an unlabelled one, followed by " Layout".
pub open spec fn spec_layout_label(label: Option<&str>) -> Seq<char> {
    match label {
        Some(l) => l@ + " Layout"@,
        None => "Default Pipeline"@ + " Layout"@,
    }
}

/// The label of the layout of a pipeline labelled `label`.
pub fn pipeline_layout_label(label: Option<&str>) -> (r: String)
    ensures
        r@ == spec_layout_label(label),
{
    let mut r = String::new();
    match label {
        Some(l) => r.append(l),
        None => r.append("Default Pipeline"),
    }
    r.append(" Layout");
    r
}

/// The vertex buffers of a pipeline: the per-vertex buffer, read per vertex,
/// then the per-instance buffer, read per instance, unless the instance
/// input has no attributes.
pub open spec fn spec_vertex_buffers(vertex: BufferLayout, instance: BufferLayout) -> Seq<BufferLayout> {
    let v = BufferLayout { step_mode: VertexStepMode::Vertex, ..vertex };
    let i = BufferLayout { step_mode: VertexStepMode::Instance, ..instance };
    if instance.attributes@.len() > 0 {
        seq![v, i]
    } else {
        seq![v]
    }
}

/// The vertex buffers of a pipeline whose per-vertex input lays out as
/// `vertex` and whose per-instance input lays out as `instance`.
pub fn select_vertex_buffers(vertex: BufferLayout, instance: BufferLayout) -> (r: Vec<BufferLayout>)
    ensures
        r@ == spec_vertex_buffers(vertex, instance),
{
    let has_instance_attributes = instance.attributes.len() > 0;
    let mut r = vec![BufferLayout { step_mode: VertexStepMode::Vertex, ..vertex }];
    if has_instance_attributes {
        r.push(BufferLayout { step_mode: VertexStepMode::Instance, ..instance });
    }
    r
}

/// Whether `buffers` are the vertex buffers of a pipeline drawing vertices
/// of `V` and instances of `I`: `V`'s layout with its locations from 0, read
/// per vertex, then, when `I` has attributes, `I`'s layout with its
/// locations after `V`'s, read per instance.
pub open spec fn spec_pipeline_buffers<V: VertexInput, I: VertexInput>(buffers: Seq<BufferLayout>) -> bool {
    &&& buffers.len() == if I::spec_vertex_attributes().len() > 0 { 2int } else { 1int }
    &&& spec_layout_of::<V>(buffers[0], 0)
    &&& buffers[0].step_mode == VertexStepMode::Vertex
    &&& buffers.len() == 2 ==> spec_layout_of::<I>(buffers[1], spec_next_offset(V::spec_vertex_attributes()))
    &&& buffers.len() == 2 ==> buffers[1].step_mode == VertexStepMode::Instance
}

/// The vertex buffers of a pipeline drawing vertices of `V` and instances of
/// `I`: the instance attributes take the locations after the vertex ones.
pub fn pipeline_vertex_buffers<V: VertexInput, I: VertexInput>() -> (r: Vec<BufferLayout>)
    ensures
        spec_pipeline_buffers::<V, I>(r@),
{
    let vertex = V::vertex_buffer_layout(0);
    let instance = I::vertex_buffer_layout(V::next_offset());
    select_vertex_buffers(vertex, instance)
}

/// How a pipeline assembles its vertices into primitives.
#[derive(Clone, Copy, Debug, PartialEq, Eq, Structural)]
pub enum PrimitiveTopology {
    PointList,
    LineList,
    LineStrip,
    TriangleList,
    TriangleStrip,
}

/// Which winding of a triangle faces forward.
#[derive(Clone, Copy, Debug, PartialEq, Eq, Structural)]
pub enum FrontFace {
    Ccw,
    Cw,
}

/// A side of a triangle.
#[derive(Clone, Copy, Debug, PartialEq, Eq, Structural)]
pub enum Face {
    Front,
    Back,
}

/// The faces a pipeline culls unless told otherwise: the back faces.
pub fn default_cull_mode() -> (r: Option<Face>)
    ensures
        r == Some(Face::Back),
{
    Some(Face::Back)
}

/// How a pipeline draws, besides its shader, colour targets, depth test and
/// bind group layouts: the label of its layout, the entry points of its
/// stages, its vertex buffers, how it assembles and rasterizes primitives,
/// and how it samples.
pub struct PipelineDescription {
    pub layout_label: String,
    pub vertex_entry_point: &'static str,
    pub fragment_entry_point: &'static str,
    pub vertex_buffers: Vec<BufferLayout>,
    pub topology: PrimitiveTopology,
    pub front_face: FrontFace,
    pub cull_mode: Option<Face>,
    pub unclipped_depth: bool,
    pub conservative: bool,
    pub sample_count: u32,
    pub sample_mask: u64,
    pub alpha_to_coverage_enabled: bool,
}

/// The description of a pipeline labelled `label` that draws vertices of `V`
/// and instances of `I` and culls `cull_mode`: stages entered at `vs_main`
/// and `fs_main`, a list of clockwise-facing triangles, depth left
/// unclipped, no conservative rasterization, and one sample with every
/// sample bit set and no alpha to coverage.
pub fn pipeline_description<V: VertexInput, I: VertexInput>(label: Option<&str>, cull_mode: Option<Face>) -> (r:
    PipelineDescription)
    ensures
        r.layout_label@ == spec_layout_label(label),
        r.vertex_entry_point@ == "vs_main"@,
        r.fragment_entry_point@ == "fs_main"@,
        spec_pipeline_buffers::<V, I>(r.vertex_buffers@),
        r.topology == PrimitiveTopology::TriangleList,
        r.front_face == FrontFace::Cw,
        r.cull_mode == cull_mode,
        r.unclipped_depth,
        !r.conservative,
        r.sample_count == 1,
        r.sample_mask == u64::MAX,
        !r.alpha_to_coverage_enabled,
{
    PipelineDescription {
        layout_label: pipeline_layout_label(label),
        vertex_entry_point: "vs_main",
        fragment_entry_point: "fs_main",
        vertex_buffers: pipeline_vertex_buffers::<V, I>(),
        topology: PrimitiveTopology::TriangleList,
        front_face: FrontFace::Cw,
        cull_mode,
        unclipped_depth: true,
        conservative: false,
        sample_count: 1,
        sample_mask: 0xffff_ffff_ffff_ffff,
        alpha_to_coverage_enabled: false,
    }
}

/// Wrapping a key in a typed handle keeps the key, and the handle is null
/// exactly when the key is.
pub proof fn lemma_pipeline_ref_from_key<V, I>(raw: RawPipelineRef)
    ensures
        <PipelineRef<V, I> as vstd::std_specs::convert::FromSpec<RawPipelineRef>>::from_spec(raw)@ == raw@,
        <PipelineRef<V, I> as vstd::std_specs::convert::FromSpec<RawPipelineRef>>::from_spec(raw).spec_is_null() == raw.spec_is_null(),
{
}

} // verus!
