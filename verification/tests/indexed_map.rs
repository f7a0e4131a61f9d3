use unreal_asset::asset::overrides::{default_array_struct_type_override, default_map_key_override, default_map_value_override};
use unreal_asset::containers::indexed_map::IndexedMap;

#[test]
fn indexed_map_insert_get_by_key_and_index() {
    let mut map: IndexedMap<String, String> = IndexedMap::new();
    map.insert("Keys".to_string(), "RichCurveKey".to_string());
    map.insert("Tracks".to_string(), "Guid".to_string());
    assert_eq!(map.len(), 2);
    assert_eq!(map.get_by_key(&"Keys".to_string()), Some(&"RichCurveKey".to_string()));
    assert_eq!(map.get_by_index(1), Some(&"Guid".to_string()));
    assert_eq!(map.get_by_index(2), None);
    assert!(map.contains_key(&"Tracks".to_string()));
    assert!(!map.contains_key(&"Other".to_string()));
    assert!(map.contains_index(0));
    assert!(!map.contains_index(5));
}

#[test]
fn indexed_map_insert_existing_key_keeps_index() {
    let mut map: IndexedMap<u64, i32> = IndexedMap::with_capacity(4);
    map.insert(7, 1);
    map.insert(9, 2);
    map.insert(7, 3);
    assert_eq!(map.len(), 2);
    assert_eq!(map.get_by_index(0), Some(&3));
    let keys: Vec<u64> = map.keys().into_iter().copied().collect();
    assert_eq!(keys, vec![7, 9]);
    let values: Vec<i32> = map.values().into_iter().copied().collect();
    assert_eq!(values, vec![3, 2]);
}

#[test]
fn indexed_map_remove_by_key_and_index() {
    let mut map: IndexedMap<u64, i32> = IndexedMap::new();
    map.insert(10, 100);
    map.insert(20, 200);
    map.insert(30, 300);
    assert_eq!(map.remove_by_key(&20), Some((1, 20, 200)));
    assert_eq!(map.remove_by_key(&20), None);
    assert_eq!(map.get_by_index(1), None);
    assert_eq!(map.remove_by_index(2), Some((2, 30, 300)));
    assert_eq!(map.remove_by_index(2), None);
    assert_eq!(map.len(), 1);
    // a key inserted after removals gets an index that no key has had
    map.insert(40, 400);
    let entries: Vec<(usize, u64, i32)> = map.iter().into_iter().map(|(i, k, v)| (i, *k, *v)).collect();
    assert_eq!(entries, vec![(0, 10, 100), (3, 40, 400)]);
    let by_key: Vec<(usize, u64, i32)> = map.iter_key().into_iter().map(|(i, k, v)| (i, *k, *v)).collect();
    assert_eq!(by_key, entries);
}

#[test]
fn indexed_map_get_mut_changes_value() {
    let mut map: IndexedMap<u64, i32> = IndexedMap::new();
    map.insert(1, 5);
    map.insert(2, 6);
    if let Some(v) = map.get_by_key_mut(&2) {
        *v = 60;
    }
    if let Some(v) = map.get_by_index_mut(0) {
        *v = 50;
    }
    assert!(map.get_by_key_mut(&3).is_none());
    assert!(map.get_by_index_mut(7).is_none());
    assert_eq!(map.get_by_key(&1), Some(&50));
    assert_eq!(map.get_by_key(&2), Some(&60));
}

#[test]
fn default_override_tables() {
    let keys = default_map_key_override();
    assert_eq!(keys.len(), 10);
    assert_eq!(keys.get_by_key(&"Tracks".to_string()), Some(&"MovieSceneTrackIdentifier".to_string()));
    assert_eq!(keys.get_by_index(9), Some(&"Guid".to_string()));
    let values = default_map_value_override();
    assert_eq!(values.len(), 4);
    assert_eq!(values.get_by_key(&"ColorDatabase".to_string()), Some(&"LinearColor".to_string()));
    assert_eq!(values.get_by_index(3), Some(&"FloatRange".to_string()));
    let arrays = default_array_struct_type_override();
    assert_eq!(arrays.len(), 1);
    assert_eq!(arrays.get_by_key(&"Keys".to_string()), Some(&"RichCurveKey".to_string()));
}

#[test]
fn indexed_map_extend_and_from_iter_insert_in_turn() {
    let mut map: IndexedMap<u64, i32> = IndexedMap::from_iter(vec![(5, 1), (6, 2), (5, 3)]);
    assert_eq!(map.len(), 2);
    assert_eq!(map.get_by_key(&5), Some(&3));
    map.extend(vec![(7, 4), (6, 5)]);
    let entries: Vec<(usize, u64, i32)> = map.iter().into_iter().map(|(i, k, v)| (i, *k, *v)).collect();
    assert_eq!(entries, vec![(0, 5, 3), (1, 6, 5), (2, 7, 4)]);
}
