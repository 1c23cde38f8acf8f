use world_sandbox::world::building::{building_indices, BUILDING_INDEX_COUNT, BUILDING_VERTEX_COUNT};

#[test]
fn building_indices_from_zero() {
    let idx = building_indices(0);
    let expected: Vec<u16> = vec![
        0, 1, 2, 2, 3, 0, 4, 5, 6, 6, 7, 4, 8, 9, 10, 10, 11, 8, 12, 13, 14, 14, 15, 12, 16, 17, 18,
        18, 19, 16, 20, 21, 22, 22, 23, 20,
    ];
    assert_eq!(idx, expected);
    assert_eq!(idx.len(), BUILDING_INDEX_COUNT);
}

#[test]
fn building_indices_are_offset() {
    let base = building_indices(0);
    let idx = building_indices(1000);
    for (a, b) in base.iter().zip(idx.iter()) {
        assert_eq!(*a + 1000, *b);
    }
}

#[test]
fn building_indices_stay_in_range_and_cover_all_vertices() {
    let start = 40u16;
    let idx = building_indices(start);
    assert!(idx.iter().all(|&i| i >= start && i < start + BUILDING_VERTEX_COUNT));
    for v in start..start + BUILDING_VERTEX_COUNT {
        assert!(idx.contains(&v));
    }
}

#[test]
fn building_at_the_top_of_the_index_range() {
    let start = u16::MAX - 23;
    let idx = building_indices(start);
    assert_eq!(*idx.iter().max().unwrap(), u16::MAX);
}
