//! The store of the clients: a table from identifiers to clients, one to
//! their summaries, and the listing of the identifiers.

use crate::types::{
    summary_of, TMClientInfo, TMClientInfoView, TMClientStorageWrapper, TendermintClientView,
};
use vstd::prelude::*;

verus! {

/// Whether two byte strings hold the same bytes.
fn same_bytes(a: &Vec<u8>, b: &Vec<u8>) -> (r: bool)
    ensures
        r == (a@ == b@),
{
    if a.len() != b.len() {
        return false;
    }
    let mut i: usize = 0;
    while i < a.len()
        invariant
            a.len() == b.len(),
            i <= a.len(),
            forall|j: int| 0 <= j < i ==> a@[j] == b@[j],
        decreases a.len() - i,
    {
        if a[i] != b[i] {
            return false;
        }
        i += 1;
    }
    assert(a@ =~= b@);
    true
}

/// One key of a table with its value.
struct Entry<V> {
    key: Vec<u8>,
    value: V,
}

/// A table from byte strings to values, with one entry for each key.
struct Table<V> {
    entries: Vec<Entry<V>>,
}

impl<V> Table<V> {
    /// No two entries have the same key.
    #[verifier::type_invariant]
    spec fn distinct_keys(self) -> bool {
        forall|i: int, j: int|
            0 <= i < j < self.entries@.len() ==> self.entries@[i].key@ != self.entries@[j].key@
    }

    /// Whether the entry at `i` has the key `key`.
    spec fn holds_at(self, key: Seq<u8>, i: int) -> bool {
        0 <= i < self.entries@.len() && self.entries@[i].key@ == key
    }

    /// The place of `key` among the entries, where it has one.
    spec fn place_of(self, key: Seq<u8>) -> int {
        choose|i: int| self.holds_at(key, i)
    }
}

impl<V: View> Table<V> {
    /// The table as a map from keys to the views of their values.
    closed spec fn view(self) -> Map<Seq<u8>, V::V> {
        Map::new(
            |key: Seq<u8>| exists|i: int| self.holds_at(key, i),
            |key: Seq<u8>| self.entries@[self.place_of(key)].value@,
        )
    }

    /// With distinct keys, a key found at `i` has its place there.
    proof fn lemma_place(self, key: Seq<u8>, i: int)
        requires
            self.distinct_keys(),
            self.holds_at(key, i),
        ensures
            self.place_of(key) == i,
            self@.contains_key(key),
            self@[key] == self.entries@[i].value@,
    {
    }

    /// A table without entries.
    fn new() -> (table: Self)
        ensures
            table@ == Map::<Seq<u8>, V::V>::empty(),
    {
        Table { entries: Vec::new() }
    }

    /// The index of the entry for `key`, if there is one.
    fn find(&self, key: &Vec<u8>) -> (r: Option<usize>)
        ensures
            match r {
                Some(i) => self.holds_at(key@, i as int),
                None => forall|i: int| !self.holds_at(key@, i),
            },
    {
        let mut i: usize = 0;
        while i < self.entries.len()
            invariant
                i <= self.entries@.len(),
                forall|j: int| 0 <= j < i ==> !self.holds_at(key@, j),
            decreases self.entries@.len() - i,
        {
            if same_bytes(&self.entries[i].key, key) {
                return Some(i);
            }
            i += 1;
        }
        None
    }

    /// Whether the table has an entry for `key`.
    fn contains_key(&self, key: &Vec<u8>) -> (r: bool)
        ensures
            r == self@.contains_key(key@),
    {
        proof {
            use_type_invariant(self);
        }
        match self.find(key) {
            Some(_) => true,
            None => false,
        }
    }

    /// The value stored for `key`, if there is one.
    fn get(&self, key: &Vec<u8>) -> (r: Option<&V>)
        ensures
            match r {
                Some(value) => self@.contains_key(key@) && self@[key@] == value@,
                None => !self@.contains_key(key@),
            },
    {
        proof {
            use_type_invariant(self);
        }
        match self.find(key) {
            Some(i) => Some(&self.entries[i].value),
            None => None,
        }
    }

    /// Stores `value` for `key`, in place of what was stored for it.
    fn insert(&mut self, key: Vec<u8>, value: V)
        ensures
            final(self)@ == old(self)@.insert(key@, value@),
    {
        proof {
            use_type_invariant(&*self);
        }
        let ghost before = *self;
        let ghost k = key@;
        let ghost v = value@;
        let found = self.find(&key);
        let mut entries: Vec<Entry<V>> = Vec::new();
        core::mem::swap(&mut entries, &mut self.entries);
        match found {
            Some(i) => {
                entries.set(i, Entry { key, value });
            },
            None => {
                entries.push(Entry { key, value });
            },
        }
        proof {
            let n = before.entries@.len() as int;
            let at = match found {
                Some(i) => i as int,
                None => n,
            };
            assert forall|a: int, b: int| 0 <= a < b < entries@.len() implies entries@[a].key@
                != entries@[b].key@ by {
                if found is None && b == at {
                    assert(!before.holds_at(k, a));
                }
            }
        }
        self.entries = entries;
        proof {
            let after = *self;
            let n = before.entries@.len() as int;
            let at = match found {
                Some(i) => i as int,
                None => n,
            };
            after.lemma_place(k, at);
            let target = before@.insert(k, v);
            assert forall|other: Seq<u8>| #[trigger] after@.contains_key(other) implies
                target.contains_key(other) && after@[other] == target[other] by {
                if other != k {
                    let p = after.place_of(other);
                    before.lemma_place(other, p);
                }
            }
            assert forall|other: Seq<u8>| #[trigger] target.contains_key(other) implies
                after@.contains_key(other) by {
                if other != k {
                    let p = before.place_of(other);
                    assert(after.holds_at(other, p));
                }
            }
        }
    }
}

/// What a store holds: the clients by identifier, their summaries by
/// identifier, and the identifiers in the order in which they were listed.
pub struct StoreContents {
    pub records: Map<Seq<u8>, TendermintClientView>,
    pub summaries: Map<Seq<u8>, TMClientInfoView>,
    pub listing: Seq<Seq<u8>>,
}

impl StoreContents {
    /// The store that holds nothing.
    pub open spec fn empty() -> StoreContents {
        StoreContents { records: Map::empty(), summaries: Map::empty(), listing: Seq::empty() }
    }

    /// The store with `client` stored under `id`.
    pub open spec fn with_record(self, id: Seq<u8>, client: TendermintClientView) -> StoreContents {
        StoreContents { records: self.records.insert(id, client), ..self }
    }

    /// The store with `info` as the summary under `id`.
    pub open spec fn with_summary(self, id: Seq<u8>, info: TMClientInfoView) -> StoreContents {
        StoreContents { summaries: self.summaries.insert(id, info), ..self }
    }

    /// The store with `client` and its summary stored under `id`, where
    /// `last_block` is the height of the client's trusted header.
    pub open spec fn with_client(
        self,
        id: Seq<u8>,
        client: TendermintClientView,
        last_block: u64,
    ) -> StoreContents {
        self.with_record(id, client).with_summary(id, summary_of(client, last_block))
    }

    /// The store with `id` at the end of its listing.
    pub open spec fn with_listed(self, id: Seq<u8>) -> StoreContents {
        StoreContents { listing: self.listing.push(id), ..self }
    }
}

/// The clients of a host chain. Clients and summaries are stored under
/// their identifiers and a stored value replaces the one before it; the
/// listing only grows. Nothing here ties the three together: that is the
/// work of the functions that create and update clients.
pub struct ClientStore {
    records: Table<TMClientStorageWrapper>,
    summaries: Table<TMClientInfo>,
    listing: Vec<Vec<u8>>,
}

impl View for ClientStore {
    type V = StoreContents;

    closed spec fn view(&self) -> StoreContents {
        StoreContents {
            records: self.records@,
            summaries: self.summaries@,
            listing: Seq::new(self.listing@.len(), |i: int| self.listing@[i]@),
        }
    }
}

impl ClientStore {
    /// A store that holds nothing.
    pub fn new() -> (store: Self)
        ensures
            store@ == StoreContents::empty(),
    {
        let store = ClientStore {
            records: Table::new(),
            summaries: Table::new(),
            listing: Vec::new(),
        };
        assert(store@.listing =~= Seq::<Seq<u8>>::empty());
        store
    }

    /// Whether a client is stored under `id`.
    pub fn contains_key(&self, id: &Vec<u8>) -> (r: bool)
        ensures
            r == self@.records.contains_key(id@),
    {
        self.records.contains_key(id)
    }

    /// The client stored under `id`, if there is one.
    pub fn get(&self, id: &Vec<u8>) -> (r: Option<&TMClientStorageWrapper>)
        ensures
            match r {
                Some(client) => self@.records.contains_key(id@) && self@.records[id@] == client@,
                None => !self@.records.contains_key(id@),
            },
    {
        self.records.get(id)
    }

    /// Stores `client` under `id`, in place of the client that was there.
    pub fn insert(&mut self, id: Vec<u8>, client: TMClientStorageWrapper)
        ensures
            final(self)@ == old(self)@.with_record(id@, client@),
    {
        self.records.insert(id, client);
    }

    /// The summary stored under `id`, if there is one.
    pub fn client_info(&self, id: &Vec<u8>) -> (r: Option<&TMClientInfo>)
        ensures
            match r {
                Some(info) => self@.summaries.contains_key(id@) && self@.summaries[id@] == info@,
                None => !self@.summaries.contains_key(id@),
            },
    {
        self.summaries.get(id)
    }

    /// Stores `info` as the summary under `id`, in place of the one that was
    /// there.
    pub fn insert_info(&mut self, id: Vec<u8>, info: TMClientInfo)
        ensures
            final(self)@ == old(self)@.with_summary(id@, info@),
    {
        self.summaries.insert(id, info);
    }

    /// The identifiers that were listed, oldest first.
    pub fn clients(&self) -> (ids: &Vec<Vec<u8>>)
        ensures
            ids@.len() == self@.listing.len(),
            forall|i: int| 0 <= i < ids@.len() ==> ids@[i]@ == self@.listing[i],
    {
        &self.listing
    }

    /// Puts `id` at the end of the listing.
    pub fn list_client(&mut self, id: Vec<u8>)
        ensures
            final(self)@ == old(self)@.with_listed(id@),
    {
        self.listing.push(id);
        assert(self@.listing =~= old(self)@.listing.push(id@));
    }
}

} // verus!
