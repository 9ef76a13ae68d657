use quadrender::renderer::mesh::{MeshRef, RawMeshRef};
use quadrender::renderer::pipeline::{PipelineRef, RawPipelineRef};
use quadrender::renderer::texture::TextureRef;
use slotmap::{Key, SlotMap};

#[test]
fn default_keys_are_null() {
    let k = RawMeshRef::default();
    assert!(k.is_null());
    assert_eq!(k.as_ffi(), slotmap::DefaultKey::null().data().as_ffi());
    let p: PipelineRef<(), ()> = PipelineRef::default();
    assert!(p.is_null());
    assert!(p.builder_key().is_none());
    let t = TextureRef::default();
    assert!(t.is_null());
}

#[test]
fn keys_from_a_slot_map_are_not_null() {
    let mut sm: SlotMap<slotmap::DefaultKey, u32> = SlotMap::new();
    let k = sm.insert(5);
    let raw = RawPipelineRef::from_ffi(k.data().as_ffi());
    assert!(!raw.is_null());
    let p: PipelineRef<u8, u16> = PipelineRef::from(raw);
    assert!(!p.is_null());
    assert_eq!(p.raw().as_ffi(), k.data().as_ffi());
    assert_eq!(p.builder_key().map(|r| r.as_ffi()), Some(k.data().as_ffi()));
}

#[test]
fn mesh_handles_keep_their_key() {
    let raw = RawMeshRef::from_ffi(0x0000_0003_0000_0007);
    let m: MeshRef<u32> = MeshRef::from(raw);
    assert!(m.raw() == raw);
    assert!(!raw.is_null());
    assert!(RawMeshRef::from_ffi(0x0000_0005_ffff_ffff).is_null());
}
