//! Laws of the store, the link index and the resolver, proved over their
//! models.
use vstd::prelude::*;
use crate::links::{LinkView, targets_of};
use crate::record::{RecordKind, record_address};
use crate::resolve::resolved;
use crate::store::{StoreError, StoreView, spec_get, spec_put};
use crate::zome::{anchor_address, users_tag};

verus! {

/// A record's address depends on the record alone: equal records get equal
/// addresses, and `put` files a record under that address in any store.
pub proof fn address_is_deterministic(
    r1: (RecordKind, Seq<char>),
    r2: (RecordKind, Seq<char>),
    m1: StoreView,
    m2: StoreView,
)
    requires
        r1 == r2,
    ensures
        record_address(r1) == record_address(r2),
        spec_put(m1, r1).contains_key(record_address(r1)),
        spec_put(m2, r2).contains_key(record_address(r1)),
{
}

/// Putting a record twice is the same as putting it once, and adds at most
/// one entry.
pub proof fn put_is_idempotent(m: StoreView, r: (RecordKind, Seq<char>))
    requires
        m.dom().finite(),
    ensures
        spec_put(spec_put(m, r), r) == spec_put(m, r),
        spec_put(m, r).contains_key(record_address(r)),
        spec_put(m, r).dom().len() == m.dom().len()
            + if m.contains_key(record_address(r)) { 0nat } else { 1nat },
{
    let a = record_address(r);
    if !m.contains_key(a) {
        assert(spec_put(m, r).dom() =~= m.dom().insert(a));
    }
}

/// A record read back from its own address, as its own kind, is the record
/// that was put, unless another record already stood at that address.
pub proof fn get_after_put(m: StoreView, r: (RecordKind, Seq<char>))
    requires
        m.contains_key(record_address(r)) ==> m[record_address(r)] == r,
    ensures
        spec_get(spec_put(m, r), record_address(r), r.0) == Ok::<Option<Seq<char>>, StoreError>(Some(r.1)),
{
}

/// A link from `s` under `x` adds its target at the end of the targets of
/// `s` under `x`.
pub proof fn link_appends_target(links: Seq<LinkView>, s: Seq<char>, x: Seq<char>, t: Seq<char>)
    ensures
        targets_of(links.push((s, x, t)), s, x) == targets_of(links, s, x).push(t),
{
    assert(links.push((s, x, t)).drop_last() =~= links);
}

/// Linking `t1`, `t2`, `t3` in turn from `s` under `x` lists them after the
/// earlier targets, in that order; from an empty index they are all there is.
pub proof fn link_fan_out_keeps_order(
    links: Seq<LinkView>,
    s: Seq<char>,
    x: Seq<char>,
    t1: Seq<char>,
    t2: Seq<char>,
    t3: Seq<char>,
)
    ensures
        targets_of(links.push((s, x, t1)).push((s, x, t2)).push((s, x, t3)), s, x)
            == targets_of(links, s, x) + seq![t1, t2, t3],
        targets_of(Seq::<LinkView>::empty().push((s, x, t1)).push((s, x, t2)).push((s, x, t3)), s, x)
            == seq![t1, t2, t3],
{
    link_appends_target(links, s, x, t1);
    link_appends_target(links.push((s, x, t1)), s, x, t2);
    link_appends_target(links.push((s, x, t1)).push((s, x, t2)), s, x, t3);
    assert(targets_of(links, s, x).push(t1).push(t2).push(t3) =~= targets_of(links, s, x) + seq![t1, t2, t3]);
    let e = Seq::<LinkView>::empty();
    link_appends_target(e, s, x, t1);
    link_appends_target(e.push((s, x, t1)), s, x, t2);
    link_appends_target(e.push((s, x, t1)).push((s, x, t2)), s, x, t3);
    assert(targets_of(e, s, x).push(t1).push(t2).push(t3) =~= seq![t1, t2, t3]);
}

/// A link under tag `x` never shows among the targets under another tag `y`.
pub proof fn tags_are_isolated(links: Seq<LinkView>, s: Seq<char>, x: Seq<char>, y: Seq<char>, t: Seq<char>)
    requires
        x != y,
    ensures
        targets_of(links.push((s, x, t)), s, y) == targets_of(links, s, y),
{
    assert(links.push((s, x, t)).drop_last() =~= links);
}

/// No source has targets in an empty index.
pub proof fn no_targets_without_links(s: Seq<char>, x: Seq<char>)
    ensures
        targets_of(Seq::<LinkView>::empty(), s, x) == Seq::<Seq<char>>::empty(),
{
}

/// Resolving an address that holds a record of the wanted kind, then one
/// that holds nothing, gives that record's value alone.
pub proof fn resolve_skips_missing(m: StoreView, found: Seq<char>, missing: Seq<char>, k: RecordKind)
    requires
        m.contains_key(found),
        m[found].0 == k,
        !m.contains_key(missing),
    ensures
        resolved(m, seq![found, missing], k) == seq![m[found].1],
{
    let e = Seq::<Seq<char>>::empty();
    assert(seq![found, missing] =~= e.push(found).push(missing));
    assert(e.push(found).push(missing).drop_last() =~= e.push(found));
    resolve_appends(m, e, found, k);
    assert(resolved(m, e, k).push(m[found].1) =~= seq![m[found].1]);
}

/// Resolving a list with one more address at its end adds that address's
/// value at the end, where it holds a record of the wanted kind.
pub proof fn resolve_appends(m: StoreView, addrs: Seq<Seq<char>>, a: Seq<char>, k: RecordKind)
    requires
        m.contains_key(a),
        m[a].0 == k,
    ensures
        resolved(m, addrs.push(a), k) == resolved(m, addrs, k).push(m[a].1),
{
    assert(addrs.push(a).drop_last() =~= addrs);
}

/// A user stored and linked from the anchor, as the user handler does, comes
/// last in the list of users read back from the anchor, whichever call
/// computed the anchor's address; unless another record already stood at the
/// user's address.
pub proof fn created_user_is_listed_last(m: StoreView, links: Seq<LinkView>, name: Seq<char>)
    requires
        m.contains_key(record_address((RecordKind::User, name)))
            ==> m[record_address((RecordKind::User, name))] == (RecordKind::User, name),
    ensures
        ({
            let a = record_address((RecordKind::User, name));
            let listed = resolved(
                spec_put(m, (RecordKind::User, name)),
                targets_of(links.push((anchor_address(), users_tag(), a)), anchor_address(), users_tag()),
                RecordKind::User,
            );
            listed.len() > 0 && listed.last() == name
        }),
{
    let a = record_address((RecordKind::User, name));
    let m2 = spec_put(m, (RecordKind::User, name));
    link_appends_target(links, anchor_address(), users_tag(), a);
    resolve_appends(m2, targets_of(links, anchor_address(), users_tag()), a, RecordKind::User);
}

} // verus!
