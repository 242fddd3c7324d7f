//! The volatile storage backend: an in-memory mapping, discarded when the
//! process ends.

use vstd::prelude::*;
use crate::basic::{ItemModel, Storage, StorageItem};
use crate::store_map::StoreMap;

verus! {

/// Storage backend that keeps everything in memory only.
pub struct MemoryStorage {
    storage_cache: StoreMap,
}

impl MemoryStorage {
    /// An empty in-memory store.
    pub fn new() -> (r: MemoryStorage)
        ensures
            r.wf(),
            r.model() == Map::<Seq<char>, ItemModel>::empty(),
    {
        MemoryStorage { storage_cache: StoreMap::new() }
    }
}

impl Storage for MemoryStorage {
    closed spec fn model(&self) -> Map<Seq<char>, ItemModel> {
        self.storage_cache@
    }

    closed spec fn wf(&self) -> bool {
        self.storage_cache.wf()
    }

    fn get_size(&self) -> (n: usize) {
        self.storage_cache.len()
    }

    fn get_storage_item(&self, key: &String) -> (r: Option<&StorageItem>) {
        self.storage_cache.get(key)
    }

    fn save_storage_item(&mut self, key: String, item: StorageItem) {
        self.storage_cache.insert(key, item);
    }

    fn get_entire_storage(&self) -> (r: StoreMap) {
        self.storage_cache.duplicate()
    }

    fn update_storage(&mut self, map: StoreMap) {
        self.storage_cache = map;
    }
}

} // verus!
