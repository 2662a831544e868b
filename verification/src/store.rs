//! The registry store: durable mappings from original collections and mirror
//! collections to record ids, the records themselves, and the allocator
//! counter. The store is kept as association vectors with unique keys; its
//! mathematical model is a [`RegistryView`] of three maps and the counter.

use vstd::prelude::*;

use crate::state::{WrapData, WrapDataView};

verus! {

/// The empty string: the sentinel a record's mirror identity holds until
/// activation assigns the real one.
pub open spec fn unset_collection() -> Seq<char> {
    Seq::<char>::empty()
}

/// Mathematical model of the whole registry store.
#[verifier::ext_equal]
pub struct RegistryView {
    pub controller: Seq<char>,
    pub cw721_code_id: u64,
    pub originals: Map<Seq<char>, u64>,
    pub mirrors: Map<Seq<char>, u64>,
    pub records: Map<u64, WrapDataView>,
    pub total_wrapped: u64,
}

impl RegistryView {
    /// Well-formedness of the store.
    ///
    /// - Each registered original collection points at a record with an id the
    ///   allocator has issued, and that record names it back.
    /// - Each record is reachable from exactly its original collection; an
    ///   active record's mirror identity is published in the mirror mapping,
    ///   an inactive record's mirror identity is still the sentinel.
    /// - The mirror mapping only ever points at active records that name the
    ///   mirror back, so it exists for a mirror identity exactly when the
    ///   record behind it is active.
    pub open spec fn wf(self) -> bool {
        &&& (forall|oc: Seq<char>| #[trigger] self.originals.contains_key(oc) ==> {
            &&& 1 <= self.originals[oc] <= self.total_wrapped
            &&& self.records.contains_key(self.originals[oc])
            &&& self.records[self.originals[oc]].original_collection == oc
        })
        &&& (forall|id: u64| #[trigger] self.records.contains_key(id) ==> {
            &&& 1 <= id <= self.total_wrapped
            &&& self.originals.contains_key(self.records[id].original_collection)
            &&& self.originals[self.records[id].original_collection] == id
            &&& (self.records[id].active ==> self.mirrors.contains_key(
                self.records[id].mirrored_collection,
            ) && self.mirrors[self.records[id].mirrored_collection] == id)
            &&& (!self.records[id].active ==> self.records[id].mirrored_collection
                == unset_collection())
        })
        &&& (forall|mc: Seq<char>| #[trigger] self.mirrors.contains_key(mc) ==> {
            &&& self.records.contains_key(self.mirrors[mc])
            &&& self.records[self.mirrors[mc]].active
            &&& self.records[self.mirrors[mc]].mirrored_collection == mc
        })
    }
}

/// The map a string-keyed association vector denotes.
pub open spec fn addr_map(s: Seq<(String, u64)>) -> Map<Seq<char>, u64>
    decreases s.len(),
{
    if s.len() == 0 {
        Map::empty()
    } else {
        addr_map(s.drop_last()).insert(s.last().0@, s.last().1)
    }
}

/// The map an id-keyed association vector of records denotes.
pub open spec fn record_map(s: Seq<(u64, WrapData)>) -> Map<u64, WrapDataView>
    decreases s.len(),
{
    if s.len() == 0 {
        Map::empty()
    } else {
        record_map(s.drop_last()).insert(s.last().0, s.last().1@)
    }
}

/// No two entries of the vector share a key.
pub open spec fn addr_keys_unique(s: Seq<(String, u64)>) -> bool {
    forall|i: int, j: int| 0 <= i < j < s.len() ==> s[i].0@ != s[j].0@
}

/// No two entries of the vector share a key.
pub open spec fn record_keys_unique(s: Seq<(u64, WrapData)>) -> bool {
    forall|i: int, j: int| 0 <= i < j < s.len() ==> s[i].0 != s[j].0
}

/// An entry's key is in the denoted map.
proof fn lemma_addr_map_mem(s: Seq<(String, u64)>, i: int)
    requires
        0 <= i < s.len(),
    ensures
        addr_map(s).contains_key(s[i].0@),
    decreases s.len(),
{
    if i < s.len() - 1 {
        lemma_addr_map_mem(s.drop_last(), i);
    }
}

/// With unique keys, the entry found by a scan gives the map's value.
proof fn lemma_addr_map_index(s: Seq<(String, u64)>, i: int)
    requires
        addr_keys_unique(s),
        0 <= i < s.len(),
    ensures
        addr_map(s).contains_key(s[i].0@),
        addr_map(s)[s[i].0@] == s[i].1,
    decreases s.len(),
{
    if i < s.len() - 1 {
        assert(addr_keys_unique(s.drop_last()));
        lemma_addr_map_index(s.drop_last(), i);
        assert(s.last().0@ != s[i].0@);
    }
}

/// A key no entry holds is not in the denoted map.
proof fn lemma_addr_map_absent(s: Seq<(String, u64)>, k: Seq<char>)
    requires
        forall|i: int| 0 <= i < s.len() ==> s[i].0@ != k,
    ensures
        !addr_map(s).contains_key(k),
    decreases s.len(),
{
    if s.len() > 0 {
        lemma_addr_map_absent(s.drop_last(), k);
    }
}

/// Appending a fresh entry denotes a map insertion.
proof fn lemma_addr_map_push(s: Seq<(String, u64)>, k: String, id: u64)
    ensures
        addr_map(s.push((k, id))) == addr_map(s).insert(k@, id),
{
    assert(s.push((k, id)).drop_last() =~= s);
}

/// An entry's key is in the denoted map.
proof fn lemma_record_map_mem(s: Seq<(u64, WrapData)>, i: int)
    requires
        0 <= i < s.len(),
    ensures
        record_map(s).contains_key(s[i].0),
    decreases s.len(),
{
    if i < s.len() - 1 {
        lemma_record_map_mem(s.drop_last(), i);
    }
}

/// With unique keys, the entry found by a scan gives the map's value.
proof fn lemma_record_map_index(s: Seq<(u64, WrapData)>, i: int)
    requires
        record_keys_unique(s),
        0 <= i < s.len(),
    ensures
        record_map(s).contains_key(s[i].0),
        record_map(s)[s[i].0] == s[i].1@,
    decreases s.len(),
{
    if i < s.len() - 1 {
        assert(record_keys_unique(s.drop_last()));
        lemma_record_map_index(s.drop_last(), i);
        assert(s.last().0 != s[i].0);
    }
}

/// A key no entry holds is not in the denoted map.
proof fn lemma_record_map_absent(s: Seq<(u64, WrapData)>, k: u64)
    requires
        forall|i: int| 0 <= i < s.len() ==> s[i].0 != k,
    ensures
        !record_map(s).contains_key(k),
    decreases s.len(),
{
    if s.len() > 0 {
        lemma_record_map_absent(s.drop_last(), k);
    }
}

/// Appending a fresh entry denotes a map insertion.
proof fn lemma_record_map_push(s: Seq<(u64, WrapData)>, k: u64, d: WrapData)
    ensures
        record_map(s.push((k, d))) == record_map(s).insert(k, d@),
{
    assert(s.push((k, d)).drop_last() =~= s);
}

/// Replacing the payload of one entry denotes a map insertion at its key.
proof fn lemma_record_map_update(s: Seq<(u64, WrapData)>, i: int, d: WrapData)
    requires
        record_keys_unique(s),
        0 <= i < s.len(),
    ensures
        record_map(s.update(i, (s[i].0, d))) == record_map(s).insert(s[i].0, d@),
        record_keys_unique(s.update(i, (s[i].0, d))),
    decreases s.len(),
{
    let s2 = s.update(i, (s[i].0, d));
    assert(forall|j: int| 0 <= j < s.len() ==> s2[j].0 == s[j].0);
    if i == s.len() - 1 {
        assert(s2.drop_last() =~= s.drop_last());
        assert(record_map(s.drop_last()).insert(s[i].0, d@) =~= record_map(s.drop_last()).insert(
            s[i].0,
            s[i].1@,
        ).insert(s[i].0, d@));
    } else {
        assert(record_keys_unique(s.drop_last()));
        lemma_record_map_update(s.drop_last(), i, d);
        assert(s2.drop_last() =~= s.drop_last().update(i, (s[i].0, d)));
        assert(s.last().0 != s[i].0);
        assert(record_map(s.drop_last()).insert(s[i].0, d@).insert(s.last().0, s.last().1@)
            =~= record_map(s.drop_last()).insert(s.last().0, s.last().1@).insert(s[i].0, d@));
        assert(s2.last() == s.last());
    }
}

/// The registry store. Values of this type are only ever built by
/// [`Registry::new`] and changed through its methods, which keep the keys of
/// each association vector unique.
pub struct Registry {
    controller: String,
    cw721_code_id: u64,
    originals: Vec<(String, u64)>,
    mirrors: Vec<(String, u64)>,
    records: Vec<(u64, WrapData)>,
    total_wrapped: u64,
}

impl View for Registry {
    type V = RegistryView;

    closed spec fn view(&self) -> RegistryView {
        RegistryView {
            controller: self.controller@,
            cw721_code_id: self.cw721_code_id,
            originals: addr_map(self.originals@),
            mirrors: addr_map(self.mirrors@),
            records: record_map(self.records@),
            total_wrapped: self.total_wrapped,
        }
    }
}

impl Registry {
    /// Keys of each association vector are unique, so every lookup agrees
    /// with the denoted map.
    pub closed spec fn inv(&self) -> bool {
        &&& addr_keys_unique(self.originals@)
        &&& addr_keys_unique(self.mirrors@)
        &&& record_keys_unique(self.records@)
    }

    /// An empty store under the given controlling authority, with the
    /// allocator at zero.
    pub fn new(controller: String, cw721_code_id: u64) -> (r: Registry)
        ensures
            r.inv(),
            r@ == (RegistryView {
                controller: controller@,
                cw721_code_id,
                originals: Map::<Seq<char>, u64>::empty(),
                mirrors: Map::<Seq<char>, u64>::empty(),
                records: Map::<u64, WrapDataView>::empty(),
                total_wrapped: 0,
            }),
    {
        Registry {
            controller,
            cw721_code_id,
            originals: Vec::new(),
            mirrors: Vec::new(),
            records: Vec::new(),
            total_wrapped: 0,
        }
    }

    /// The configured controlling authority.
    pub fn controller(&self) -> (r: &String)
        ensures
            r@ == self@.controller,
    {
        &self.controller
    }

    /// The code reference used to create mirror collections.
    pub fn cw721_code_id(&self) -> (r: u64)
        ensures
            r == self@.cw721_code_id,
    {
        self.cw721_code_id
    }

    /// How many collections have been registered; the last issued record id.
    pub fn total_wrapped(&self) -> (r: u64)
        ensures
            r == self@.total_wrapped,
    {
        self.total_wrapped
    }

    /// The record id an original collection is registered under.
    pub fn original_id(&self, collection: &String) -> (r: Option<u64>)
        requires
            self.inv(),
        ensures
            match r {
                Some(id) => self@.originals.contains_key(collection@)
                    && self@.originals[collection@] == id,
                None => !self@.originals.contains_key(collection@),
            },
    {
        lookup_addr(&self.originals, collection)
    }

    /// The record id a mirror collection is published under.
    pub fn mirror_id(&self, collection: &String) -> (r: Option<u64>)
        requires
            self.inv(),
        ensures
            match r {
                Some(id) => self@.mirrors.contains_key(collection@) && self@.mirrors[collection@]
                    == id,
                None => !self@.mirrors.contains_key(collection@),
            },
    {
        lookup_addr(&self.mirrors, collection)
    }

    /// The record stored under an id.
    pub fn record(&self, id: u64) -> (r: Option<&WrapData>)
        requires
            self.inv(),
        ensures
            match r {
                Some(d) => self@.records.contains_key(id) && d@ == self@.records[id],
                None => !self@.records.contains_key(id),
            },
    {
        match self.record_index(id) {
            Some(i) => Some(&self.records[i].1),
            None => None,
        }
    }

    /// Where the record with this id sits in the association vector.
    fn record_index(&self, id: u64) -> (r: Option<usize>)
        requires
            self.inv(),
        ensures
            match r {
                Some(i) => i < self.records_len_for_spec() && self.record_key_at(i as int) == id
                    && self@.records.contains_key(id) && self@.records[id] == self.record_at(
                    i as int,
                ),
                None => !self@.records.contains_key(id),
            },
    {
        let n = self.records.len();
        let mut i: usize = 0;
        while i < n
            invariant
                i <= n,
                n == self.records@.len(),
                self.inv(),
                forall|j: int| 0 <= j < i ==> self.records@[j].0 != id,
            decreases n - i,
        {
            if self.records[i].0 == id {
                proof {
                    lemma_record_map_index(self.records@, i as int);
                }
                return Some(i);
            }
            i += 1;
        }
        proof {
            lemma_record_map_absent(self.records@, id);
        }
        None
    }

    /// Length of the record vector, for contracts of this module.
    closed spec fn records_len_for_spec(&self) -> nat {
        self.records@.len()
    }

    /// Key of the record entry at a position, for contracts of this module.
    closed spec fn record_key_at(&self, i: int) -> u64 {
        self.records@[i].0
    }

    /// Model of the record entry at a position, for contracts of this module.
    closed spec fn record_at(&self, i: int) -> WrapDataView {
        self.records@[i].1@
    }

    /// Allocates the next record id, maps the original collection to it and
    /// files the record under it. The caller supplies a record that is not
    /// yet active; freshness of the id is the caller's obligation, discharged
    /// from well-formedness of the store.
    pub fn register_record(&mut self, collection: String, data: WrapData) -> (id: u64)
        requires
            old(self).inv(),
            old(self)@.total_wrapped < u64::MAX,
            !old(self)@.originals.contains_key(collection@),
            !old(self)@.records.contains_key((old(self)@.total_wrapped + 1) as u64),
        ensures
            final(self).inv(),
            id == old(self)@.total_wrapped + 1,
            final(self)@ == (RegistryView {
                originals: old(self)@.originals.insert(collection@, id),
                records: old(self)@.records.insert(id, data@),
                total_wrapped: id,
                ..old(self)@
            }),
    {
        let id = self.total_wrapped + 1;
        proof {
            assert forall|i: int| 0 <= i < self.originals@.len() implies self.originals@[i].0@
                != collection@ by {
                if self.originals@[i].0@ == collection@ {
                    lemma_addr_map_mem(self.originals@, i);
                }
            }
            assert forall|i: int| 0 <= i < self.records@.len() implies self.records@[i].0 != id by {
                if self.records@[i].0 == id {
                    lemma_record_map_mem(self.records@, i);
                }
            }
            lemma_addr_map_push(self.originals@, collection, id);
            lemma_record_map_push(self.records@, id, data);
        }
        self.total_wrapped = id;
        self.originals.push((collection, id));
        self.records.push((id, data));
        id
    }

    /// Finalizes a record: stores the mirror identity, marks it active, and
    /// publishes the mirror-to-record mapping. The mirror identity must not
    /// be published yet.
    pub fn activate_record(&mut self, id: u64, mirror: String)
        requires
            old(self).inv(),
            old(self)@.records.contains_key(id),
            !old(self)@.mirrors.contains_key(mirror@),
        ensures
            final(self).inv(),
            final(self)@ == (RegistryView {
                records: old(self)@.records.insert(
                    id,
                    WrapDataView {
                        mirrored_collection: mirror@,
                        active: true,
                        ..old(self)@.records[id]
                    },
                ),
                mirrors: old(self)@.mirrors.insert(mirror@, id),
                ..old(self)@
            }),
    {
        let i = match self.record_index(id) {
            Some(i) => i,
            None => {
                proof {
                    assert(false);
                }
                0
            },
        };
        proof {
            assert forall|j: int| 0 <= j < self.mirrors@.len() implies self.mirrors@[j].0@
                != mirror@ by {
                if self.mirrors@[j].0@ == mirror@ {
                    lemma_addr_map_mem(self.mirrors@, j);
                }
            }
            lemma_addr_map_push(self.mirrors@, mirror, id);
        }
        let ghost pre_records = self.records@;
        let m = mirror.clone();
        self.records[i].1.mirrored_collection = mirror;
        self.records[i].1.active = true;
        proof {
            let d2 = self.records@[i as int].1;
            assert(self.records@ =~= pre_records.update(i as int, (pre_records[i as int].0, d2)));
            lemma_record_map_update(pre_records, i as int, d2);
        }
        self.mirrors.push((m, id));
    }
}

/// Scans a string-keyed association vector for a key.
fn lookup_addr(v: &Vec<(String, u64)>, k: &String) -> (r: Option<u64>)
    requires
        addr_keys_unique(v@),
    ensures
        match r {
            Some(id) => addr_map(v@).contains_key(k@) && addr_map(v@)[k@] == id,
            None => !addr_map(v@).contains_key(k@),
        },
{
    let n = v.len();
    let mut i: usize = 0;
    while i < n
        invariant
            i <= n,
            n == v@.len(),
            addr_keys_unique(v@),
            forall|j: int| 0 <= j < i ==> v@[j].0@ != k@,
        decreases n - i,
    {
        if v[i].0 == *k {
            proof {
                lemma_addr_map_index(v@, i as int);
            }
            return Some(v[i].1);
        }
        i += 1;
    }
    proof {
        lemma_addr_map_absent(v@, k@);
    }
    None
}

} // verus!
