use quadrender::resource_manager::{BaseResourceManager, ResourceManager, ResourceRef};

#[test]
fn added_resources_read_back_by_handle() {
    let mut m: BaseResourceManager<&str> = BaseResourceManager::new();
    let a = m.add("a");
    let b = m.add("b");
    assert_eq!(a.index, 0);
    assert_eq!(b.index, 1);
    assert_eq!(a.version, 0);
    assert_eq!(m.get(a), Some(&"a"));
    assert_eq!(m.get(b), Some(&"b"));
}

#[test]
fn unknown_handle_gives_default() {
    let mut m: BaseResourceManager<u32> = BaseResourceManager::new();
    m.add(7);
    let missing: ResourceRef<u32> = ResourceRef::new(0, 5);
    assert_eq!(m.get(missing), None);
    assert_eq!(*m.get_default(missing, &42), 42);
    let present: ResourceRef<u32> = ResourceRef::new(0, 0);
    assert_eq!(*m.get_default(present, &42), 7);
}

#[test]
fn lookup_ignores_version() {
    let mut m: BaseResourceManager<u32> = BaseResourceManager::new();
    m.add(3);
    let stale: ResourceRef<u32> = ResourceRef::new(9, 0);
    assert_eq!(stale.version, 9);
    assert_eq!(m.get(stale), Some(&3));
}

#[test]
fn handles_compare_by_index_and_version() {
    let a: ResourceRef<u8> = ResourceRef::new(1, 2);
    let b: ResourceRef<u8> = ResourceRef::new(1, 2);
    let c: ResourceRef<u8> = ResourceRef::new(2, 2);
    assert!(a == b);
    assert!(a != c);
    let d = a;
    assert!(d.clone() == a);
}
