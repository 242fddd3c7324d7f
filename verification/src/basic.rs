//! The storage data model: one item of the store, its mathematical image,
//! and the capability set every storage backend offers.

use vstd::prelude::*;
use crate::store_map::StoreMap;

verus! {

/// One key's current value: the content hash and the moment the write was
/// pushed into the network, in milliseconds since the epoch.  `pushed` is
/// the logical write time used for conflict resolution between replicas.
pub struct StorageItem {
    pub hash: String,
    pub pushed: i64,
}

/// Mathematical image of a [`StorageItem`].
pub ghost struct ItemModel {
    pub hash: Seq<char>,
    pub pushed: i64,
}

impl View for StorageItem {
    type V = ItemModel;

    open spec fn view(&self) -> ItemModel {
        ItemModel { hash: self.hash@, pushed: self.pushed }
    }
}

impl StorageItem {
    /// An explicit copy whose model equals this item's model.
    pub fn duplicate(&self) -> (r: StorageItem)
        ensures
            r@ == self@,
    {
        StorageItem { hash: self.hash.clone(), pushed: self.pushed }
    }
}

/// The capability set of a storage backend: a mapping from keys to
/// [`StorageItem`] values.  Durable persistence of the mapping is the
/// embedding program's business; a backend that owes a persist after a
/// mutation says so through its own inherent interface.
pub trait Storage: Sized {
    /// The mapping this backend currently holds.
    spec fn model(&self) -> Map<Seq<char>, ItemModel>;

    /// Well-formedness of the backend's representation.
    spec fn wf(&self) -> bool;

    /// Current key count.
    fn get_size(&self) -> (n: usize)
        requires
            self.wf(),
        ensures
            n == self.model().dom().len(),
    ;

    /// Look one key up.
    fn get_storage_item(&self, key: &String) -> (r: Option<&StorageItem>)
        requires
            self.wf(),
        ensures
            match r {
                Some(item) => self.model().contains_key(key@) && item@ == self.model()[key@],
                None => !self.model().contains_key(key@),
            },
    ;

    /// Insert or overwrite one key.
    fn save_storage_item(&mut self, key: String, item: StorageItem)
        requires
            old(self).wf(),
        ensures
            final(self).wf(),
            final(self).model() == old(self).model().insert(key@, item@),
    ;

    /// A full copy of the current state, safe to hand outward.
    fn get_entire_storage(&self) -> (r: StoreMap)
        requires
            self.wf(),
        ensures
            r.wf(),
            r@ == self.model(),
    ;

    /// Wholesale replacement of the state with a peer-supplied snapshot.
    fn update_storage(&mut self, map: StoreMap)
        requires
            old(self).wf(),
            map.wf(),
        ensures
            final(self).wf(),
            final(self).model() == map@,
    ;
}

} // verus!
