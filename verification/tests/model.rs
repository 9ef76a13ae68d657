use quadrender::renderer::model::rewind_triangles;

#[test]
fn triangles_are_rewound() {
    assert_eq!(rewind_triangles(&vec![0, 1, 2, 3, 4, 5]), vec![0, 2, 1, 3, 5, 4]);
}

#[test]
fn incomplete_triangles_are_dropped_and_indices_narrowed() {
    assert_eq!(rewind_triangles(&vec![7, 8, 9, 1, 2]), vec![7, 9, 8]);
    assert_eq!(rewind_triangles(&vec![65536 + 3, 1, 2]), vec![3, 2, 1]);
    assert_eq!(rewind_triangles(&vec![]), Vec::<u16>::new());
}

#[test]
fn rewinding_twice_restores() {
    let idx = vec![4, 5, 6, 7, 8, 9];
    let once: Vec<u32> = rewind_triangles(&idx).into_iter().map(u32::from).collect();
    let twice: Vec<u32> = rewind_triangles(&once).into_iter().map(u32::from).collect();
    assert_eq!(twice, idx);
}
