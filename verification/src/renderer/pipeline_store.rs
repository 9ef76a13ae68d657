//! The render state's pipelines, held in a slot map and reached by key.
use crate::renderer::pipeline::{lemma_pipeline_ref_from_key, PipelineRef, RawPipelineRef};
use slotmap::{DefaultKey, KeyData, SlotMap};
use vstd::prelude::*;

verus! {

#[verifier::external_type_specification]
#[verifier::external_body]
pub struct ExRenderPipeline(wgpu::RenderPipeline);

/// A slot map of pipelines under slotmap's default keys.
#[verifier::external_body]
pub struct PipelineMap {
    map: SlotMap<DefaultKey, wgpu::RenderPipeline>,
}

/// The pipeline in each occupied slot, under the `as_ffi` value of the key
/// that names the slot.
pub uninterp spec fn pipeline_entries(map: PipelineMap) -> Map<u64, wgpu::RenderPipeline>;

/// The number of slots the map has made besides its sentinel. A slot is
/// made when an insertion finds no free one, and is never given back.
pub uninterp spec fn pipeline_slots_made(map: PipelineMap) -> nat;

/// slotmap's `SlotMap::with_key`: a map with no entries, and only its
/// sentinel slot.
#[verifier::external_body]
fn new_pipeline_map() -> (r: PipelineMap)
    ensures
        pipeline_entries(r).dom() == Set::<u64>::empty(),
        pipeline_slots_made(r) == 0,
{
    PipelineMap { map: SlotMap::with_key() }
}

/// slotmap's `SlotMap::insert`, giving back the new key's `as_ffi` value.
/// The pipeline goes into a free slot, or else into a new one at the end,
/// which panics once the map would hold `u32::MAX` slots with its sentinel.
/// The key is one the map did not hold: its index is that of a made slot,
/// from 1 (the sentinel is slot 0), and its version is odd. Every other
/// slot keeps its pipeline.
#[verifier::external_body]
fn insert_pipeline(map: &mut PipelineMap, pipeline: wgpu::RenderPipeline) -> (r: u64)
    requires
        pipeline_slots_made(*old(map)) + 2 < 0x1_0000_0000,
    ensures
        !pipeline_entries(*old(map)).contains_key(r),
        pipeline_entries(*final(map)) == pipeline_entries(*old(map)).insert(r, pipeline),
        pipeline_slots_made(*old(map)) <= pipeline_slots_made(*final(map)) <= pipeline_slots_made(*old(map)) + 1,
        1 <= r % 0x1_0000_0000 <= pipeline_slots_made(*final(map)),
        (r / 0x1_0000_0000) % 2 == 1,
{
    slotmap::Key::data(&map.map.insert(pipeline)).as_ffi()
}

/// The key that slotmap's `KeyData::from_ffi` rebuilds from `ffi`: the same
/// index, with the version's lowest bit set.
pub open spec fn spec_key_from_ffi(ffi: u64) -> u64 {
    (ffi | 0x1_0000_0000u64) as u64
}

/// slotmap's `SlotMap::get` with the key `KeyData::from_ffi(ffi)`: the
/// pipeline under that key, if the map holds it.
#[verifier::external_body]
fn pipeline_at(map: &PipelineMap, ffi: u64) -> (r: Option<&wgpu::RenderPipeline>)
    ensures
        r is Some <==> pipeline_entries(*map).contains_key(spec_key_from_ffi(ffi)),
        r matches Some(p) ==> *p == pipeline_entries(*map)[spec_key_from_ffi(ffi)],
{
    map.map.get(DefaultKey::from(KeyData::from_ffi(ffi)))
}

/// slotmap's `IndexMut` with the key `KeyData::from_ffi(ffi)`, written to:
/// the slot that key names, which must hold a pipeline (else slotmap
/// panics), gets `pipeline` in place of the one it held. No other slot
/// changes, and no slot is made.
#[verifier::external_body]
fn set_pipeline_at(map: &mut PipelineMap, ffi: u64, pipeline: wgpu::RenderPipeline)
    requires
        pipeline_entries(*old(map)).contains_key(spec_key_from_ffi(ffi)),
    ensures
        pipeline_entries(*final(map)) == pipeline_entries(*old(map)).insert(spec_key_from_ffi(ffi), pipeline),
        pipeline_slots_made(*final(map)) == pipeline_slots_made(*old(map)),
{
    map.map[DefaultKey::from(KeyData::from_ffi(ffi))] = pipeline;
}

/// The render state's pipelines, each under the key it was added with.
pub struct PipelineStore {
    map: PipelineMap,
    new_keys: u32,
}

impl PipelineStore {
    /// The stored pipelines, under the `as_ffi` values of their keys.
    pub closed spec fn entries(&self) -> Map<u64, wgpu::RenderPipeline> {
        pipeline_entries(self.map)
    }

    /// The `as_ffi` values of the keys that hold a pipeline.
    pub open spec fn keys(&self) -> Set<u64> {
        self.entries().dom()
    }

    /// How many pipelines went in under a new key.
    pub closed spec fn new_key_count(&self) -> nat {
        self.new_keys as nat
    }

    /// The map never made more slots than pipelines went in under new keys.
    pub closed spec fn wf(&self) -> bool {
        pipeline_slots_made(self.map) <= self.new_keys
    }

    /// Whether `key` finds a pipeline here.
    pub open spec fn holds(&self, key: RawPipelineRef) -> bool {
        self.keys().contains(spec_key_from_ffi(key@))
    }

    /// A store with no pipelines.
    pub fn new() -> (r: Self)
        ensures
            r.wf(),
            r.entries() == Map::<u64, wgpu::RenderPipeline>::empty(),
            r.new_key_count() == 0,
    {
        PipelineStore { map: new_pipeline_map(), new_keys: 0 }
    }

    /// Whether a pipeline can still go in under a new key: the slot map
    /// holds fewer than `u32::MAX` slots, its sentinel among them.
    pub fn has_room(&self) -> (r: bool)
        ensures
            r == (self.new_key_count() + 2 < 0x1_0000_0000),
    {
        self.new_keys < 0xffff_fffe
    }

    /// Stores `pipeline`: in place of the one under `key` when there is a
    /// key, else under a new key. The handle names where it went; every
    /// other key keeps its pipeline.
    pub fn add<V, I>(&mut self, key: Option<RawPipelineRef>, pipeline: wgpu::RenderPipeline) -> (r:
        PipelineRef<V, I>)
        requires
            old(self).wf(),
            key matches Some(k) ==> old(self).holds(k),
            key is None ==> old(self).new_key_count() + 2 < 0x1_0000_0000,
        ensures
            final(self).wf(),
            final(self).entries() == old(self).entries().insert(spec_key_from_ffi(r@), pipeline),
            key matches Some(k) ==> r@ == k@ && final(self).new_key_count() == old(self).new_key_count(),
            key is None ==> spec_key_from_ffi(r@) == r@ && !old(self).keys().contains(r@)
                && !r.spec_is_null() && final(self).new_key_count() == old(self).new_key_count() + 1,
    {
        match key {
            Some(k) => {
                let ffi = k.as_ffi();
                set_pipeline_at(&mut self.map, ffi, pipeline);
                proof {
                    lemma_pipeline_ref_from_key::<V, I>(k);
                }
                PipelineRef::from(k)
            },
            None => {
                let ffi = insert_pipeline(&mut self.map, pipeline);
                self.new_keys = self.new_keys + 1;
                proof {
                    assert((ffi / 0x1_0000_0000) % 2 == 1 ==> (ffi | 0x1_0000_0000u64) == ffi)
                        by (bit_vector);
                    assert(ffi % 0x1_0000_0000 != 0xffff_ffff);
                }
                let raw = RawPipelineRef::from_ffi(ffi);
                proof {
                    lemma_pipeline_ref_from_key::<V, I>(raw);
                }
                PipelineRef::from(raw)
            },
        }
    }

    /// The pipeline that `key` finds, if any.
    pub fn get(&self, key: RawPipelineRef) -> (r: Option<&wgpu::RenderPipeline>)
        ensures
            r is Some <==> self.holds(key),
            r matches Some(p) ==> *p == self.entries()[spec_key_from_ffi(key@)],
    {
        pipeline_at(&self.map, key.as_ffi())
    }
}

/// Adding a pipeline and reading it back through the returned handle gives
/// that pipeline, and every other key still finds what it found.
pub proof fn lemma_add_then_get(
    before: Map<u64, wgpu::RenderPipeline>,
    after: Map<u64, wgpu::RenderPipeline>,
    handle: u64,
    pipeline: wgpu::RenderPipeline,
    other: u64,
)
    requires
        after == before.insert(spec_key_from_ffi(handle), pipeline),
        before.contains_key(other),
        other != spec_key_from_ffi(handle),
    ensures
        after.contains_key(spec_key_from_ffi(handle)),
        after[spec_key_from_ffi(handle)] == pipeline,
        after.contains_key(other),
        after[other] == before[other],
{
}

} // verus!
