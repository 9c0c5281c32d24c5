//! The cache store: a table from cache key to the body fetched for it.
use vstd::prelude::*;

verus! {

/// One stored response: the key it was fetched under and its body as received.
pub struct CacheEntry {
    pub key: String,
    pub body: Vec<u8>,
}

/// A table from cache key to body, keys unique, with no order between entries.
pub struct CacheStore {
    entries: Vec<CacheEntry>,
    contents: Ghost<Map<Seq<char>, Seq<u8>>>,
}

impl View for CacheStore {
    type V = Map<Seq<char>, Seq<u8>>;

    closed spec fn view(&self) -> Map<Seq<char>, Seq<u8>> {
        self.contents@
    }
}

impl CacheStore {
    /// The entries hold each key once, and hold exactly what the view maps.
    pub closed spec fn wf(&self) -> bool {
        &&& forall|i: int, j: int|
            0 <= i < j < self.entries@.len() ==> #[trigger] self.entries@[i].key@
                != #[trigger] self.entries@[j].key@
        &&& forall|i: int|
            0 <= i < self.entries@.len() ==> {
                &&& self.contents@.contains_key(#[trigger] self.entries@[i].key@)
                &&& self.contents@[self.entries@[i].key@] == self.entries@[i].body@
            }
        &&& forall|k: Seq<char>|
            #[trigger] self.contents@.contains_key(k) ==> exists|i: int|
                0 <= i < self.entries@.len() && self.entries@[i].key@ == k
    }

    /// An empty store.
    pub fn new() -> (r: CacheStore)
        ensures
            r.wf(),
            r@ == Map::<Seq<char>, Seq<u8>>::empty(),
    {
        CacheStore { entries: Vec::new(), contents: Ghost(Map::empty()) }
    }

    /// The index of the entry held under `key`, if any.
    fn find(&self, key: &String) -> (r: Option<usize>)
        requires
            self.wf(),
        ensures
            r matches Some(i) ==> i < self.entries@.len() && self.entries@[i as int].key@ == key@,
            r is None ==> !self@.contains_key(key@),
    {
        let mut i: usize = 0;
        while i < self.entries.len()
            invariant
                self.wf(),
                i <= self.entries@.len(),
                forall|j: int| 0 <= j < i ==> self.entries@[j].key@ != key@,
            decreases self.entries@.len() - i,
        {
            if self.entries[i].key == *key {
                return Some(i);
            }
            i = i + 1;
        }
        None
    }

    /// The body held under `key`, if any.
    pub fn get(&self, key: &String) -> (r: Option<Vec<u8>>)
        requires
            self.wf(),
        ensures
            r matches Some(b) ==> self@.contains_key(key@) && b@ == self@[key@],
            r is None ==> !self@.contains_key(key@),
    {
        match self.find(key) {
            Some(i) => {
                let b = self.entries[i].body.clone();
                assert(b@ =~= self.entries@[i as int].body@);
                Some(b)
            },
            None => None,
        }
    }

    /// Stores `body` under `key`, in place of what was held there.
    pub fn put(&mut self, key: String, body: Vec<u8>)
        requires
            old(self).wf(),
        ensures
            final(self).wf(),
            final(self)@ == old(self)@.insert(key@, body@),
    {
        let ghost k = key@;
        let ghost b = body@;
        let found = self.find(&key);
        self.contents = Ghost(self.contents@.insert(k, b));
        match found {
            Some(i) => {
                self.entries.set(i, CacheEntry { key, body });
            },
            None => {
                self.entries.push(CacheEntry { key, body });
            },
        }
        assert forall|k2: Seq<char>| #[trigger] self.contents@.contains_key(k2) implies exists|i: int|
            0 <= i < self.entries@.len() && self.entries@[i].key@ == k2 by {
            if k2 == k {
                match found {
                    Some(i) => assert(self.entries@[i as int].key@ == k2),
                    None => assert(self.entries@[self.entries@.len() - 1].key@ == k2),
                }
            } else {
                assert(old(self).contents@.contains_key(k2));
                let j = choose|j: int| 0 <= j < old(self).entries@.len() && old(self).entries@[j].key@ == k2;
                assert(self.entries@[j].key@ == k2);
            }
        }
    }

    /// Removes every entry.
    pub fn clear(&mut self)
        ensures
            final(self).wf(),
            final(self)@ == Map::<Seq<char>, Seq<u8>>::empty(),
    {
        self.entries.clear();
        self.contents = Ghost(Map::empty());
    }
}

} // verus!
