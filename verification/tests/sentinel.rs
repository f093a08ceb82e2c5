use asi_camera::sentinel::{fill, scan, take_used};

#[test]
fn sentinel_in_front_leaves_nothing_used() {
    let raw = [0, 1, 2, 0, 0, 0, 0, 0, 0, 0, 0, 0, 0, 0, 0, 0];
    assert_eq!(scan(&raw, 0), 0);
    assert_eq!(take_used(&raw, 0), Vec::<i32>::new());
    let ended = [-1; 8];
    assert_eq!(scan(&ended, -1), 0);
}

#[test]
fn array_without_sentinel_is_used_to_its_capacity() {
    let raw = [1, 2, 3, 4, 5, 6, 7, 8, 9, 10, 11, 12, 13, 14, 15, 16];
    assert_eq!(scan(&raw, 0), 16);
    assert_eq!(take_used(&raw, 0), raw.to_vec());
}

#[test]
fn scanning_stops_at_the_first_sentinel() {
    let raw = [1, 2, 0, 4, 0, 0, 0, 0];
    assert_eq!(scan(&raw, 0), 2);
    assert_eq!(take_used(&raw, 0), vec![1, 2]);
    let raw = [0, 1, -1, 3];
    assert_eq!(scan(&raw, -1), 2);
    assert_eq!(take_used(&raw, -1), vec![0, 1]);
}

#[test]
fn empty_array_has_nothing_used() {
    let raw: [i32; 0] = [];
    assert_eq!(scan(&raw, 0), 0);
    assert_eq!(take_used(&raw, 0), Vec::<i32>::new());
}

#[test]
fn filling_pads_with_the_sentinel() {
    let raw: [i32; 8] = fill(&[1, 2], 0);
    assert_eq!(raw, [1, 2, 0, 0, 0, 0, 0, 0]);
    let raw: [i32; 4] = fill(&[0, 1], -1);
    assert_eq!(raw, [0, 1, -1, -1]);
    let none: [i32; 4] = fill(&[], -1);
    assert_eq!(none, [-1; 4]);
    let full: [i32; 3] = fill(&[7, 8, 9], 0);
    assert_eq!(full, [7, 8, 9]);
}

#[test]
fn items_come_back_from_the_filled_array() {
    let lists: [&[i32]; 4] = [&[], &[1], &[1, 2, 4], &[1, 2, 3, 4, 5, 6, 7, 8]];
    for items in lists {
        let raw: [i32; 8] = fill(items, 0);
        assert_eq!(take_used(&raw, 0), items.to_vec());
    }
}
