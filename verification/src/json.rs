//! The durable storage backend: an in-memory cache of a JSON snapshot file.
//!
//! The file itself is read and written by the embedding program, which
//! cannot be verified here: the cache is handed in at construction, and
//! after every mutation this backend reports that a persist of the full
//! snapshot is due.  The embedding program takes the snapshot with
//! [`Storage::get_entire_storage`], writes it out, and acknowledges with
//! [`JSONStorage::mark_persisted`].

use vstd::prelude::*;
use crate::basic::{ItemModel, Storage, StorageItem};
use crate::store_map::StoreMap;

verus! {

/// Storage backend whose state mirrors a JSON snapshot file.
pub struct JSONStorage {
    storage_cache: StoreMap,
    persist_due: bool,
}

impl JSONStorage {
    /// A durable store over a snapshot already loaded from its file.
    pub fn new(initial: StoreMap) -> (r: JSONStorage)
        requires
            initial.wf(),
        ensures
            r.wf(),
            r.model() == initial@,
            !r.persist_pending(),
    {
        JSONStorage { storage_cache: initial, persist_due: false }
    }

    /// Whether a mutation happened since the last acknowledged persist.
    pub closed spec fn persist_pending(&self) -> bool {
        self.persist_due
    }

    /// Whether the snapshot file is behind the in-memory state.
    pub fn needs_persist(&self) -> (r: bool)
        ensures
            r == self.persist_pending(),
    {
        self.persist_due
    }

    /// Acknowledge that the current state has been written out.
    pub fn mark_persisted(&mut self)
        requires
            old(self).wf(),
        ensures
            final(self).wf(),
            final(self).model() == old(self).model(),
            !final(self).persist_pending(),
    {
        self.persist_due = false;
    }
}

impl Storage for JSONStorage {
    closed spec fn model(&self) -> Map<Seq<char>, ItemModel> {
        self.storage_cache@
    }

    closed spec fn wf(&self) -> bool {
        self.storage_cache.wf()
    }

    fn get_size(&self) -> (n: usize) {
        self.storage_cache.len()
    }

    fn get_storage_item(&self, key: &String) -> (r: Option<&StorageItem>) {
        self.storage_cache.get(key)
    }

    fn save_storage_item(&mut self, key: String, item: StorageItem)
        ensures
            final(self).persist_pending(),
    {
        self.storage_cache.insert(key, item);
        self.persist_due = true;
    }

    fn get_entire_storage(&self) -> (r: StoreMap) {
        self.storage_cache.duplicate()
    }

    fn update_storage(&mut self, map: StoreMap)
        ensures
            final(self).persist_pending(),
    {
        self.storage_cache = map;
        self.persist_due = true;
    }
}

} // verus!
