//! A mapping from string keys to [`StorageItem`] values, kept as an
//! association vector with pairwise-distinct keys and viewed as a
//! mathematical `Map`.

use vstd::prelude::*;
use crate::basic::{ItemModel, StorageItem};

verus! {

/// The mapping described by an association list; a later pair overrides an
/// earlier one with the same key.
pub open spec fn map_of(s: Seq<(String, StorageItem)>) -> Map<Seq<char>, ItemModel>
    decreases s.len(),
{
    if s.len() == 0 {
        Map::empty()
    } else {
        map_of(s.drop_last()).insert(s.last().0@, s.last().1@)
    }
}

/// No two entries of the association list share a key.
pub open spec fn distinct_keys(s: Seq<(String, StorageItem)>) -> bool {
    forall|i: int, j: int| 0 <= i < j < s.len() ==> s[i].0@ != s[j].0@
}

proof fn lemma_map_of_contains(s: Seq<(String, StorageItem)>, k: Seq<char>)
    ensures
        map_of(s).contains_key(k) <==> exists|i: int| 0 <= i < s.len() && s[i].0@ == k,
    decreases s.len(),
{
    if s.len() == 0 {
    } else {
        lemma_map_of_contains(s.drop_last(), k);
        if s.last().0@ == k {
            assert(s[s.len() - 1].0@ == k);
        } else {
            if map_of(s).contains_key(k) {
                let i = choose|i: int| 0 <= i < s.drop_last().len() && s.drop_last()[i].0@ == k;
                assert(s[i].0@ == k);
            }
            if exists|i: int| 0 <= i < s.len() && s[i].0@ == k {
                let i = choose|i: int| 0 <= i < s.len() && s[i].0@ == k;
                assert(s.drop_last()[i].0@ == k);
            }
        }
    }
}

proof fn lemma_map_of_absent(s: Seq<(String, StorageItem)>, k: Seq<char>)
    requires
        forall|i: int| 0 <= i < s.len() ==> s[i].0@ != k,
    ensures
        !map_of(s).contains_key(k),
{
    lemma_map_of_contains(s, k);
}

proof fn lemma_map_of_get(s: Seq<(String, StorageItem)>, i: int)
    requires
        distinct_keys(s),
        0 <= i < s.len(),
    ensures
        map_of(s).contains_key(s[i].0@),
        map_of(s)[s[i].0@] == s[i].1@,
    decreases s.len(),
{
    if i == s.len() - 1 {
    } else {
        assert(s[i].0@ != s[s.len() - 1].0@);
        assert(s.drop_last()[i] == s[i]);
        assert(distinct_keys(s.drop_last())) by {
            assert forall|p: int, q: int|
                0 <= p < q < s.drop_last().len() implies s.drop_last()[p].0@
                != s.drop_last()[q].0@ by {
                assert(s[p].0@ != s[q].0@);
            }
        }
        lemma_map_of_get(s.drop_last(), i);
    }
}

proof fn lemma_map_of_dom_len(s: Seq<(String, StorageItem)>)
    requires
        distinct_keys(s),
    ensures
        map_of(s).dom().finite(),
        map_of(s).dom().len() == s.len(),
    decreases s.len(),
{
    broadcast use vstd::set::group_set_axioms;

    if s.len() == 0 {
        assert(map_of(s).dom() =~= Set::<Seq<char>>::empty());
    } else {
        let dl = s.drop_last();
        assert(distinct_keys(dl)) by {
            assert forall|p: int, q: int| 0 <= p < q < dl.len() implies dl[p].0@ != dl[q].0@ by {
                assert(s[p].0@ != s[q].0@);
            }
        }
        lemma_map_of_dom_len(dl);
        assert forall|i: int| 0 <= i < dl.len() implies dl[i].0@ != s.last().0@ by {
            assert(s[i].0@ != s[s.len() - 1].0@);
        }
        lemma_map_of_absent(dl, s.last().0@);
        assert(map_of(s).dom() =~= map_of(dl).dom().insert(s.last().0@));
    }
}

proof fn lemma_map_of_update(s: Seq<(String, StorageItem)>, i: int, item: StorageItem)
    requires
        distinct_keys(s),
        0 <= i < s.len(),
    ensures
        distinct_keys(s.update(i, (s[i].0, item))),
        map_of(s.update(i, (s[i].0, item))) == map_of(s).insert(s[i].0@, item@),
    decreases s.len(),
{
    let t = s.update(i, (s[i].0, item));
    assert(distinct_keys(t)) by {
        assert forall|p: int, q: int| 0 <= p < q < t.len() implies t[p].0@ != t[q].0@ by {
            assert(t[p].0@ == s[p].0@ && t[q].0@ == s[q].0@);
        }
    }
    if i == s.len() - 1 {
        assert(t.drop_last() =~= s.drop_last());
        assert(map_of(t) =~= map_of(s).insert(s[i].0@, item@));
    } else {
        assert(distinct_keys(s.drop_last())) by {
            assert forall|p: int, q: int|
                0 <= p < q < s.drop_last().len() implies s.drop_last()[p].0@
                != s.drop_last()[q].0@ by {
                assert(s[p].0@ != s[q].0@);
            }
        }
        assert(t.drop_last() =~= s.drop_last().update(i, (s[i].0, item)));
        assert(s.drop_last()[i] == s[i]);
        lemma_map_of_update(s.drop_last(), i, item);
        assert(t.last() == s.last());
        assert(s[i].0@ != s[s.len() - 1].0@);
        assert(map_of(t) =~= map_of(s).insert(s[i].0@, item@));
    }
}

proof fn lemma_map_of_congruent(s: Seq<(String, StorageItem)>, t: Seq<(String, StorageItem)>)
    requires
        s.len() == t.len(),
        forall|i: int| 0 <= i < s.len() ==> s[i].0@ == t[i].0@ && s[i].1@ == t[i].1@,
    ensures
        map_of(s) == map_of(t),
    decreases s.len(),
{
    if s.len() == 0 {
        assert(map_of(s) =~= map_of(t));
    } else {
        assert(forall|i: int|
            0 <= i < s.drop_last().len() ==> s.drop_last()[i].0@ == t.drop_last()[i].0@
                && s.drop_last()[i].1@ == t.drop_last()[i].1@);
        lemma_map_of_congruent(s.drop_last(), t.drop_last());
        assert(s[s.len() - 1].0@ == t[t.len() - 1].0@ && s[s.len() - 1].1@ == t[t.len() - 1].1@);
    }
}

/// The mapping from keys to storage items.  Construction keeps the keys
/// pairwise distinct, so the vector describes exactly one mathematical map.
pub struct StoreMap {
    entries: Vec<(String, StorageItem)>,
}

impl View for StoreMap {
    type V = Map<Seq<char>, ItemModel>;

    closed spec fn view(&self) -> Map<Seq<char>, ItemModel> {
        map_of(self.entries@)
    }
}

impl StoreMap {
    /// Well-formedness: no key occurs twice.
    pub closed spec fn wf(&self) -> bool {
        distinct_keys(self.entries@)
    }

    /// The empty mapping.
    pub fn new() -> (r: StoreMap)
        ensures
            r.wf(),
            r@ == Map::<Seq<char>, ItemModel>::empty(),
    {
        StoreMap { entries: Vec::new() }
    }

    fn find_index(&self, key: &String) -> (r: Option<usize>)
        ensures
            match r {
                Some(i) => i < self.entries@.len() && self.entries@[i as int].0@ == key@,
                None => forall|i: int| 0 <= i < self.entries@.len() ==> self.entries@[i].0@ != key@,
            },
    {
        let mut i: usize = 0;
        while i < self.entries.len()
            invariant
                i <= self.entries@.len(),
                forall|j: int| 0 <= j < i ==> self.entries@[j].0@ != key@,
            decreases self.entries@.len() - i,
        {
            if self.entries[i].0 == *key {
                return Some(i);
            }
            i += 1;
        }
        None
    }

    /// The number of keys held.
    pub fn len(&self) -> (n: usize)
        requires
            self.wf(),
        ensures
            n == self@.dom().len(),
    {
        proof {
            lemma_map_of_dom_len(self.entries@);
        }
        self.entries.len()
    }

    /// Look one key up.
    pub fn get(&self, key: &String) -> (r: Option<&StorageItem>)
        requires
            self.wf(),
        ensures
            match r {
                Some(item) => self@.contains_key(key@) && item@ == self@[key@],
                None => !self@.contains_key(key@),
            },
    {
        match self.find_index(key) {
            Some(i) => {
                proof {
                    lemma_map_of_get(self.entries@, i as int);
                }
                Some(&self.entries[i].1)
            },
            None => {
                proof {
                    lemma_map_of_absent(self.entries@, key@);
                }
                None
            },
        }
    }

    /// Insert or overwrite one key.
    pub fn insert(&mut self, key: String, item: StorageItem)
        requires
            old(self).wf(),
        ensures
            final(self).wf(),
            final(self)@ == old(self)@.insert(key@, item@),
    {
        let ghost s0 = self.entries@;
        match self.find_index(&key) {
            Some(i) => {
                proof {
                    lemma_map_of_update(s0, i as int, item);
                }
                self.entries[i].1 = item;
                proof {
                    assert(self.entries@ =~= s0.update(i as int, (s0[i as int].0, item)));
                }
            },
            None => {
                self.entries.push((key, item));
                proof {
                    assert(self.entries@.drop_last() =~= s0);
                    assert(distinct_keys(self.entries@)) by {
                        assert forall|p: int, q: int|
                            0 <= p < q < self.entries@.len() implies self.entries@[p].0@
                            != self.entries@[q].0@ by {
                            if q < self.entries@.len() - 1 {
                                assert(s0[p].0@ != s0[q].0@);
                            } else {
                                assert(s0[p].0@ != self.entries@[q].0@);
                            }
                        }
                    }
                }
            },
        }
    }

    /// The contents as a vector of pairs, one entry per key.
    pub fn to_pairs(&self) -> (r: Vec<(String, StorageItem)>)
        requires
            self.wf(),
        ensures
            r@.len() == self@.dom().len(),
            forall|j: int|
                #![trigger r@[j]]
                0 <= j < r@.len() ==> self@.contains_key(r@[j].0@) && self@[r@[j].0@] == r@[j].1@,
    {
        let mut out: Vec<(String, StorageItem)> = Vec::new();
        let mut i: usize = 0;
        while i < self.entries.len()
            invariant
                i <= self.entries@.len(),
                out@.len() == i,
                forall|j: int|
                    0 <= j < i ==> out@[j].0@ == self.entries@[j].0@ && out@[j].1@
                        == self.entries@[j].1@,
            decreases self.entries@.len() - i,
        {
            let pair = (self.entries[i].0.clone(), self.entries[i].1.duplicate());
            out.push(pair);
            i += 1;
        }
        proof {
            lemma_map_of_dom_len(self.entries@);
            assert forall|j: int| 0 <= j < out@.len() implies self@.contains_key(out@[j].0@)
                && self@[out@[j].0@] == out@[j].1@ by {
                lemma_map_of_get(self.entries@, j);
            }
        }
        out
    }

    /// An explicit copy whose model equals this mapping's model.
    pub fn duplicate(&self) -> (r: StoreMap)
        requires
            self.wf(),
        ensures
            r.wf(),
            r@ == self@,
    {
        let mut out: Vec<(String, StorageItem)> = Vec::new();
        let mut i: usize = 0;
        while i < self.entries.len()
            invariant
                i <= self.entries@.len(),
                out@.len() == i,
                forall|j: int|
                    0 <= j < i ==> out@[j].0@ == self.entries@[j].0@ && out@[j].1@
                        == self.entries@[j].1@,
            decreases self.entries@.len() - i,
        {
            let pair = (self.entries[i].0.clone(), self.entries[i].1.duplicate());
            out.push(pair);
            i += 1;
        }
        proof {
            lemma_map_of_congruent(out@, self.entries@);
            assert(distinct_keys(out@)) by {
                assert forall|p: int, q: int| 0 <= p < q < out@.len() implies out@[p].0@
                    != out@[q].0@ by {
                    assert(self.entries@[p].0@ != self.entries@[q].0@);
                }
            }
        }
        StoreMap { entries: out }
    }
}

} // verus!
