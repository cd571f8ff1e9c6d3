//! The entry store: records kept at their content address, written once.
use vstd::prelude::*;
use crate::address::Address;
use crate::record::{Record, RecordKind, record_address};

verus! {

/// The model of a store: each address maps to the record kept there.
pub type StoreView = Map<Seq<char>, (RecordKind, Seq<char>)>;

/// Why a lookup failed.
#[derive(Debug, Clone, Copy, PartialEq, Eq, Structural)]
pub enum StoreError {
    /// An entry is stored at the address, but not of the requested shape.
    DecodeError,
}

/// The store after `put` of record `r`: unchanged where an entry already
/// stands at its address, otherwise with `r` added there.
pub open spec fn spec_put(m: StoreView, r: (RecordKind, Seq<char>)) -> StoreView {
    let a = record_address(r);
    if m.contains_key(a) {
        m
    } else {
        m.insert(a, r)
    }
}

/// The outcome of looking up address `a` as a record of kind `k`.
pub open spec fn spec_get(m: StoreView, a: Seq<char>, k: RecordKind) -> Result<Option<Seq<char>>, StoreError> {
    if !m.contains_key(a) {
        Ok(None)
    } else if m[a].0 == k {
        Ok(Some(m[a].1))
    } else {
        Err(StoreError::DecodeError)
    }
}

/// The model of a lookup's result.
pub open spec fn lookup_view(r: Result<Option<String>, StoreError>) -> Result<Option<Seq<char>>, StoreError> {
    match r {
        Ok(Some(s)) => Ok(Some(s@)),
        Ok(None) => Ok(None),
        Err(e) => Err(e),
    }
}

/// The model of an optional record.
pub open spec fn record_option_view(r: Option<Record>) -> Option<(RecordKind, Seq<char>)> {
    match r {
        Some(rec) => Some(rec@),
        None => None,
    }
}

/// One stored entry.
struct StoredEntry {
    address: Address,
    record: Record,
}

/// Records kept at their content addresses.
pub struct EntryStore {
    entries: Vec<StoredEntry>,
    model: Ghost<StoreView>,
}

impl View for EntryStore {
    type V = StoreView;

    closed spec fn view(&self) -> StoreView {
        self.model@
    }
}

impl EntryStore {
    /// The store's invariant: one entry per address, and the model holds
    /// exactly the stored entries.
    pub closed spec fn wf(&self) -> bool {
        &&& forall|i: int, j: int|
            0 <= i < self.entries@.len() && 0 <= j < self.entries@.len() && i != j
                ==> #[trigger] self.entries@[i].address@ != #[trigger] self.entries@[j].address@
        &&& forall|i: int| 0 <= i < self.entries@.len() ==> {
            &&& self.model@.contains_key(#[trigger] self.entries@[i].address@)
            &&& self.model@[self.entries@[i].address@] == self.entries@[i].record@
        }
        &&& forall|a: Seq<char>| #[trigger] self.model@.contains_key(a) ==>
            exists|i: int| 0 <= i < self.entries@.len() && self.entries@[i].address@ == a
    }

    /// The number of entries held.
    pub closed spec fn entry_count(&self) -> nat {
        self.entries@.len()
    }

    /// An empty store.
    pub fn new() -> (s: EntryStore)
        ensures
            s.wf(),
            s@ == Map::<Seq<char>, (RecordKind, Seq<char>)>::empty(),
            s.entry_count() == 0,
    {
        EntryStore { entries: Vec::new(), model: Ghost(Map::empty()) }
    }

    /// The number of entries held.
    pub fn len(&self) -> (n: usize)
        ensures
            n == self.entry_count(),
    {
        self.entries.len()
    }

    /// The index of the entry at address `a`, if there is one.
    fn find(&self, a: &Address) -> (r: Option<usize>)
        requires
            self.wf(),
        ensures
            match r {
                Some(i) => i < self.entries@.len() && self.entries@[i as int].address@ == a@
                    && self@.contains_key(a@) && self@[a@] == self.entries@[i as int].record@,
                None => !self@.contains_key(a@),
            },
    {
        let mut i: usize = 0;
        while i < self.entries.len()
            invariant
                self.wf(),
                i <= self.entries@.len(),
                forall|j: int| 0 <= j < i ==> self.entries@[j].address@ != a@,
            decreases self.entries@.len() - i,
        {
            if self.entries[i].address.same_as(a) {
                return Some(i);
            }
            i = i + 1;
        }
        None
    }

    /// Stores `r` at its address unless an entry already stands there, and
    /// returns the address either way.
    pub fn put(&mut self, r: &Record) -> (a: Address)
        requires
            old(self).wf(),
        ensures
            final(self).wf(),
            a@ == record_address(r@),
            final(self)@ == spec_put(old(self)@, r@),
            final(self).entry_count() == old(self).entry_count()
                + if old(self)@.contains_key(a@) { 0nat } else { 1nat },
    {
        let a = r.address();
        match self.find(&a) {
            Some(_) => a,
            None => {
                let ghost old_model = self.model@;
                let ghost old_entries = self.entries@;
                self.entries.push(StoredEntry { address: a.duplicate(), record: r.duplicate() });
                self.model = Ghost(old_model.insert(a@, r@));
                assert forall|i: int| 0 <= i < self.entries@.len() implies {
                    &&& self.model@.contains_key(#[trigger] self.entries@[i].address@)
                    &&& self.model@[self.entries@[i].address@] == self.entries@[i].record@
                } by {
                    if i < old_entries.len() {
                        assert(old_model.contains_key(old_entries[i].address@));
                    }
                }
                assert forall|b: Seq<char>| #[trigger] self.model@.contains_key(b) implies
                    exists|i: int| 0 <= i < self.entries@.len() && self.entries@[i].address@ == b by {
                    if b == a@ {
                        assert(self.entries@[old_entries.len() as int].address@ == b);
                    } else {
                        assert(old_model.contains_key(b));
                        let i = choose|i: int| 0 <= i < old_entries.len() && old_entries[i].address@ == b;
                        assert(self.entries@[i].address@ == b);
                    }
                }
                a
            },
        }
    }

    /// The record at address `a` read as kind `k`: `None` where nothing is
    /// stored there, `DecodeError` where the stored record has another shape.
    pub fn get(&self, a: &Address, k: RecordKind) -> (r: Result<Option<String>, StoreError>)
        requires
            self.wf(),
        ensures
            lookup_view(r) == spec_get(self@, a@, k),
    {
        match self.find(a) {
            None => Ok(None),
            Some(i) => {
                if self.entries[i].record.kind == k {
                    Ok(Some(self.entries[i].record.value.clone()))
                } else {
                    Err(StoreError::DecodeError)
                }
            },
        }
    }

    /// The record at address `a`, of whatever kind.
    pub fn get_record(&self, a: &Address) -> (r: Option<Record>)
        requires
            self.wf(),
        ensures
            record_option_view(r) == (if self@.contains_key(a@) { Some(self@[a@]) } else { None }),
    {
        match self.find(a) {
            None => None,
            Some(i) => Some(self.entries[i].record.duplicate()),
        }
    }
}

} // verus!
