//! The record resolver: reads a list of addresses as records of one kind,
//! dropping the addresses that hold nothing or a record of another shape.
use vstd::prelude::*;
use crate::address::Address;
use crate::links::addresses_view;
use crate::record::RecordKind;
use crate::store::{EntryStore, StoreView, spec_get};

verus! {

/// The values of the records of kind `k` found at `addrs`, in the order of
/// `addrs`; addresses that are empty or hold another shape are left out.
pub open spec fn resolved(m: StoreView, addrs: Seq<Seq<char>>, k: RecordKind) -> Seq<Seq<char>>
    decreases addrs.len(),
{
    if addrs.len() == 0 {
        Seq::empty()
    } else {
        let rest = resolved(m, addrs.drop_last(), k);
        match spec_get(m, addrs.last(), k) {
            Ok(Some(v)) => rest.push(v),
            _ => rest,
        }
    }
}

/// The model of a list of strings.
pub open spec fn strings_view(v: Seq<String>) -> Seq<Seq<char>> {
    v.map_values(|s: String| s@)
}

/// Reads each address of `addrs` as a record of kind `k` and keeps the
/// values that resolve, in order. No address makes the whole call fail.
pub fn resolve_all(store: &EntryStore, addrs: &Vec<Address>, k: RecordKind) -> (r: Vec<String>)
    requires
        store.wf(),
    ensures
        strings_view(r@) == resolved(store@, addresses_view(addrs@), k),
{
    let mut out: Vec<String> = Vec::new();
    let mut i: usize = 0;
    while i < addrs.len()
        invariant
            store.wf(),
            i <= addrs@.len(),
            strings_view(out@) == resolved(store@, addresses_view(addrs@).subrange(0, i as int), k),
        decreases addrs@.len() - i,
    {
        let ghost all = addresses_view(addrs@);
        assert(all.subrange(0, i + 1).drop_last() =~= all.subrange(0, i as int));
        assert(all.subrange(0, i + 1).last() == addrs@[i as int]@);
        let found = store.get(&addrs[i], k);
        match found {
            Ok(Some(v)) => {
                let ghost before = out@;
                out.push(v);
                assert(strings_view(out@) =~= strings_view(before).push(out@.last()@));
            },
            _ => {},
        }
        i = i + 1;
    }
    assert(addresses_view(addrs@).subrange(0, addrs@.len() as int) =~= addresses_view(addrs@));
    out
}

} // verus!
