use quadrender::renderer::instance::{InstanceBatch, InstanceStorage};

#[test]
fn storage_grows_to_twice_what_it_holds() {
    let mut s = InstanceStorage::new(1, 8);
    s.add(&[1, 2, 3, 4]);
    assert_eq!(s.update_buffer(), None);
    s.add(&[5, 6, 7, 8, 9]);
    assert_eq!(s.raw_bytes(), &vec![1, 2, 3, 4, 5, 6, 7, 8, 9]);
    assert_eq!(s.update_buffer(), Some(18));
    s.clear();
    assert!(s.raw_bytes().is_empty());
    s.add(&[0; 18]);
    assert_eq!(s.update_buffer(), None);
}

#[test]
fn batches_draw_adjacent_ranges() {
    let mut pass_start = 0u32;
    let mut a = InstanceBatch::new(pass_start);
    a.add();
    a.add();
    assert_eq!(a.flush(&mut pass_start), Some((0, 2)));
    assert_eq!(pass_start, 2);
    let mut b = InstanceBatch::new(pass_start);
    b.add();
    assert_eq!(b.flush(&mut pass_start), Some((2, 3)));
    let empty = InstanceBatch::new(pass_start);
    assert_eq!(empty.flush(&mut pass_start), None);
    assert_eq!(pass_start, 3);
}
