//! Typed handles to meshes stored by the render state.
use crate::renderer::slot_key::SlotKey;
use std::marker::PhantomData;
use vstd::prelude::*;

verus! {

/// Tag of the mesh slot map's keys.
#[derive(Debug, Hash)]
pub struct MeshSlot;

/// A key of the render state's mesh slot map.
pub type RawMeshRef = SlotKey<MeshSlot>;

/// A mesh handle that remembers the mesh's vertex type.
#[derive(Debug)]
pub struct MeshRef<V> {
    raw: RawMeshRef,
    _marker: PhantomData<V>,
}

impl<V> View for MeshRef<V> {
    type V = u64;

    closed spec fn view(&self) -> u64 {
        self.raw@
    }
}

impl<V> MeshRef<V> {
    pub fn raw(&self) -> (r: RawMeshRef)
        ensures
            r@ == self@,
    {
        self.raw
    }
}

impl<V> From<RawMeshRef> for MeshRef<V> {
    fn from(raw: RawMeshRef) -> (r: Self) {
        MeshRef { raw, _marker: PhantomData }
    }
}

impl<V> vstd::std_specs::convert::FromSpecImpl<RawMeshRef> for MeshRef<V> {
    open spec fn obeys_from_spec() -> bool {
        true
    }

    closed spec fn from_spec(raw: RawMeshRef) -> Self {
        MeshRef { raw, _marker: PhantomData }
    }
}

impl<V> Clone for MeshRef<V> {
    fn clone(&self) -> (r: Self)
        ensures
            r@ == self@,
    {
        MeshRef { raw: self.raw, _marker: PhantomData }
    }
}

impl<V> Copy for MeshRef<V> {
}

impl<V> Default for MeshRef<V> {
    /// The null handle.
    fn default() -> (r: Self)
        ensures
            r@ == 0x1_ffff_ffff,
    {
        MeshRef { raw: RawMeshRef::null(), _marker: PhantomData }
    }
}

/// Wrapping a key in a typed handle and reading it back gives the key.
pub proof fn lemma_mesh_ref_round_trip<V>(raw: RawMeshRef)
    ensures
        <MeshRef<V> as vstd::std_specs::convert::FromSpec<RawMeshRef>>::from_spec(raw)@ == raw@,
{
}

} // verus!
