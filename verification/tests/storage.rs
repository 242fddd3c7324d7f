use hash_delivery::basic::{Storage, StorageItem};
use hash_delivery::json::JSONStorage;
use hash_delivery::memory::MemoryStorage;
use hash_delivery::store_map::StoreMap;

fn item(hash: &str, pushed: i64) -> StorageItem {
    StorageItem { hash: String::from(hash), pushed }
}

#[test]
fn memory_storage_put_and_get() {
    let mut s = MemoryStorage::new();
    assert_eq!(s.get_size(), 0);
    s.save_storage_item(String::from("k"), item("h1", 10));
    assert_eq!(s.get_size(), 1);
    let got = s.get_storage_item(&String::from("k")).unwrap();
    assert_eq!(got.hash, "h1");
    assert_eq!(got.pushed, 10);
    assert!(s.get_storage_item(&String::from("other")).is_none());
}

#[test]
fn memory_storage_overwrite_keeps_one_entry() {
    let mut s = MemoryStorage::new();
    s.save_storage_item(String::from("k"), item("h1", 10));
    s.save_storage_item(String::from("k"), item("h2", 20));
    assert_eq!(s.get_size(), 1);
    let got = s.get_storage_item(&String::from("k")).unwrap();
    assert_eq!(got.hash, "h2");
    assert_eq!(got.pushed, 20);
}

#[test]
fn snapshot_is_an_independent_copy() {
    let mut s = MemoryStorage::new();
    s.save_storage_item(String::from("k"), item("h1", 10));
    let snap = s.get_entire_storage();
    s.save_storage_item(String::from("k"), item("h2", 20));
    let kept = snap.get(&String::from("k")).unwrap();
    assert_eq!(kept.hash, "h1");
}

#[test]
fn update_storage_replaces_everything() {
    let mut s = MemoryStorage::new();
    s.save_storage_item(String::from("a"), item("h1", 1));
    s.save_storage_item(String::from("b"), item("h2", 2));
    let mut incoming = StoreMap::new();
    incoming.insert(String::from("c"), item("h3", 3));
    s.update_storage(incoming);
    assert_eq!(s.get_size(), 1);
    assert!(s.get_storage_item(&String::from("a")).is_none());
    assert!(s.get_storage_item(&String::from("b")).is_none());
    assert_eq!(s.get_storage_item(&String::from("c")).unwrap().hash, "h3");
}

#[test]
fn json_storage_starts_from_the_loaded_snapshot() {
    let mut initial = StoreMap::new();
    initial.insert(String::from("k"), item("h1", 10));
    let s = JSONStorage::new(initial);
    assert_eq!(s.get_size(), 1);
    assert_eq!(s.get_storage_item(&String::from("k")).unwrap().hash, "h1");
    assert!(!s.needs_persist());
}

#[test]
fn json_storage_owes_a_persist_after_mutations() {
    let mut s = JSONStorage::new(StoreMap::new());
    assert!(!s.needs_persist());
    s.save_storage_item(String::from("k"), item("h1", 10));
    assert!(s.needs_persist());
    s.mark_persisted();
    assert!(!s.needs_persist());
    s.update_storage(StoreMap::new());
    assert!(s.needs_persist());
}

#[test]
fn store_map_len_counts_keys() {
    let mut m = StoreMap::new();
    assert_eq!(m.len(), 0);
    m.insert(String::from("a"), item("h1", 1));
    m.insert(String::from("b"), item("h2", 2));
    m.insert(String::from("a"), item("h3", 3));
    assert_eq!(m.len(), 2);
    assert_eq!(m.get(&String::from("a")).unwrap().hash, "h3");
    assert_eq!(m.get(&String::from("b")).unwrap().hash, "h2");
    assert!(m.get(&String::from("c")).is_none());
}

#[test]
fn store_map_duplicate_equals_source() {
    let mut m = StoreMap::new();
    m.insert(String::from("a"), item("h1", 1));
    let d = m.duplicate();
    assert_eq!(d.len(), 1);
    assert_eq!(d.get(&String::from("a")).unwrap().pushed, 1);
}

#[test]
fn storage_item_duplicate_copies_both_fields() {
    let it = item("abc", 7);
    let copy = it.duplicate();
    assert_eq!(copy.hash, "abc");
    assert_eq!(copy.pushed, 7);
}
