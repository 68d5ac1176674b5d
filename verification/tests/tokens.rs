use asio::get_unused_idx;
use std::collections::BTreeMap;

#[test]
fn unused_idx_starts_at_zero() {
    let map: BTreeMap<usize, u32> = BTreeMap::new();
    assert_eq!(get_unused_idx(&map, None), 0);
}

#[test]
fn unused_idx_skips_taken_keys() {
    let mut map: BTreeMap<usize, u32> = BTreeMap::new();
    map.insert(0, 10);
    map.insert(1, 11);
    map.insert(2, 12);
    assert_eq!(get_unused_idx(&map, None), 3);
    map.insert(4, 14);
    assert_eq!(get_unused_idx(&map, None), 3);
}

#[test]
fn unused_idx_searches_from_hint() {
    let mut map: BTreeMap<usize, u32> = BTreeMap::new();
    map.insert(5, 0);
    assert_eq!(get_unused_idx(&map, Some(5)), 6);
    assert_eq!(get_unused_idx(&map, Some(7)), 7);
}

#[test]
fn unused_idx_wraps_past_the_largest_index() {
    let mut map: BTreeMap<usize, u32> = BTreeMap::new();
    map.insert(usize::MAX, 0);
    map.insert(0, 1);
    assert_eq!(get_unused_idx(&map, Some(usize::MAX)), 1);
}
