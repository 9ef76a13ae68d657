use quadrender::sprite::{atlas_entry_starts, Animation};

#[test]
fn tag_frames_include_the_last() {
    let a = Animation::from_tag("walk".to_string(), 2, 5);
    assert_eq!(a.frames, 2..6);
    assert_eq!(a.clone().name, "walk");
}

#[test]
fn sprites_take_consecutive_atlas_entries() {
    assert_eq!(atlas_entry_starts(&vec![3, 1, 4]), vec![0, 3, 4]);
    assert_eq!(atlas_entry_starts(&vec![]), Vec::<usize>::new());
}
