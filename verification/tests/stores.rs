//! Tests of the keyed map shared by concurrent handler invocations.

use maelstrom_node::stores::AsyncDashMap;

#[test]
fn test_asyncdashmap_new() {
    let map = AsyncDashMap::new();
    assert!(map.is_empty(), "Expected the new map to be empty");
}

#[test]
fn test_asyncdashmap_insert_and_get() {
    let mut map = AsyncDashMap::new();
    map.insert(1, 100);

    let result = map.get(1);
    assert!(result.is_some(), "Expected to get the value back");
    assert_eq!(result.unwrap(), 100);
}

#[test]
fn test_asyncdashmap_insert_existing_key() {
    let mut map = AsyncDashMap::new();
    map.insert(1, 100);
    let old_value = map.insert(1, 200);

    assert_eq!(old_value, Some(100), "Expected old value to be 100");
    let result = map.get(1);
    assert_eq!(result.unwrap(), 200, "Expected value to be updated to 200");
}

#[test]
fn test_asyncdashmap_get_nonexistent_key() {
    let map = AsyncDashMap::new();
    let result = map.get(42);
    assert!(result.is_none(), "Expected no value for nonexistent key");
}

#[test]
fn test_asyncdashmap_get_mut() {
    let mut map = AsyncDashMap::new();
    map.insert(1, 100);

    let updated = map.update(1, 200);
    assert!(updated);

    let result = map.get(1);
    assert_eq!(result.unwrap(), 200, "Expected value to be updated to 200");
}

#[test]
fn update_of_absent_key_changes_nothing() {
    let mut map = AsyncDashMap::new();
    assert!(!map.update(1, 200));
    assert!(map.get(1).is_none());
    assert!(map.is_empty());
}

#[test]
fn last_insert_under_a_key_wins() {
    let mut map = AsyncDashMap::new();
    map.insert(1, 100);
    map.insert(2, 5);
    map.insert(1, 200);
    map.insert(3, 6);
    assert_eq!(map.get(1), Some(200), "the last insert under a key decides its value");
    assert_eq!(map.get(2), Some(5));
    assert_eq!(map.get(3), Some(6));
}
