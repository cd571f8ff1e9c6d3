use zome_store::address::{address_of_content, Address};
use zome_store::links::LinkIndex;
use zome_store::record::{Commitment, MyEntry, Record, RecordKind, User};
use zome_store::resolve::resolve_all;
use zome_store::store::{EntryStore, StoreError};
use zome_store::zome::{
    anchor_address_of, handle_create_anchor, handle_create_commitment, handle_create_my_entry,
    handle_create_user, handle_get_my_entry, handle_get_user_commitments, handle_get_users, Zome,
};

fn user(name: &str) -> Record {
    Record { kind: RecordKind::User, value: name.to_string() }
}

fn addr(s: &str) -> Address {
    Address::from_string(s.to_string())
}

#[test]
fn content_address_is_base58_multihash() {
    let a = address_of_content("hello");
    assert_eq!(a.as_str(), "QmRN6wdp1S2A5EtjW9A3M1vKSBuQQGcgvuhoMUoEz4iiT5");
}

#[test]
fn record_json_is_canonical() {
    let r = user("alice");
    assert_eq!(r.value_json(), "{\"name\":\"alice\"}");
    assert_eq!(r.entry_json(), "{\"App\":[\"user\",\"{\\\"name\\\":\\\"alice\\\"}\"]}");
    assert_eq!(Record::anchor().entry_json(), "{\"App\":[\"anchor\",\"\\\"anchor\\\"\"]}");
    let c = Record { kind: RecordKind::Commitment, value: "say \"hi\"".to_string() };
    assert_eq!(c.value_json(), "{\"title\":\"say \\\"hi\\\"\"}");
    let e = Record { kind: RecordKind::MyEntry, value: "x".to_string() };
    assert_eq!(e.value_json(), "{\"content\":\"x\"}");
}

#[test]
fn record_address_matches_known_value() {
    assert_eq!(user("alice").address().as_str(), "QmPrvw9fGUZrHZiv9k7Ys6vNmKRn4CGM3neniqJQK7R9Ek");
    assert_eq!(anchor_address_of().as_str(), "QmTBvC1WjEPzJqmksgpyeUe3WMwBMtFvxhG2MmThmgMQPi");
}

#[test]
fn address_is_deterministic() {
    let a1 = user("alice").address();
    let a2 = user("alice").address();
    assert_eq!(a1, a2);
    let mut s1 = EntryStore::new();
    let mut s2 = EntryStore::new();
    s2.put(&user("bob"));
    assert_eq!(s1.put(&user("alice")), s2.put(&user("alice")));
    assert_ne!(user("alice").address(), user("bob").address());
    let c = Record { kind: RecordKind::Commitment, value: "alice".to_string() };
    assert_ne!(user("alice").address(), c.address());
}

#[test]
fn put_is_idempotent() {
    let mut s = EntryStore::new();
    let a1 = s.put(&user("alice"));
    let a2 = s.put(&user("alice"));
    assert_eq!(a1, a2);
    assert_eq!(s.len(), 1);
    s.put(&user("bob"));
    assert_eq!(s.len(), 2);
}

#[test]
fn get_after_put_round_trips() {
    let mut s = EntryStore::new();
    let a = s.put(&user("alice"));
    assert_eq!(s.get(&a, RecordKind::User), Ok(Some("alice".to_string())));
    assert_eq!(s.get_record(&a), Some(user("alice")));
}

#[test]
fn get_of_missing_address_is_none() {
    let s = EntryStore::new();
    assert_eq!(s.get(&addr("QmNothing"), RecordKind::User), Ok(None));
    assert_eq!(s.get_record(&addr("QmNothing")), None);
}

#[test]
fn get_as_other_shape_is_decode_error() {
    let mut s = EntryStore::new();
    let a = s.put(&user("alice"));
    assert_eq!(s.get(&a, RecordKind::Commitment), Err(StoreError::DecodeError));
}

#[test]
fn anchor_address_is_stable() {
    let mut z = Zome::new();
    let first = anchor_address_of();
    let second = anchor_address_of();
    assert_eq!(first, second);
    assert_eq!(handle_create_anchor(&mut z), first);
    assert_eq!(handle_create_anchor(&mut z), first);
    assert_eq!(z.entries.len(), 1);
}

#[test]
fn link_fan_out_keeps_order() {
    let mut l = LinkIndex::new();
    let s = addr("src");
    l.link(&s, &addr("t1"), "x");
    l.link(&s, &addr("t2"), "x");
    l.link(&s, &addr("t3"), "x");
    assert_eq!(l.get_targets(&s, "x"), vec![addr("t1"), addr("t2"), addr("t3")]);
}

#[test]
fn duplicate_links_are_kept() {
    let mut l = LinkIndex::new();
    let s = addr("src");
    l.link(&s, &addr("t1"), "x");
    l.link(&s, &addr("t1"), "x");
    assert_eq!(l.get_targets(&s, "x"), vec![addr("t1"), addr("t1")]);
}

#[test]
fn tags_are_isolated() {
    let mut l = LinkIndex::new();
    let s = addr("src");
    l.link(&s, &addr("t1"), "x");
    l.link(&addr("other"), &addr("t2"), "y");
    assert_eq!(l.get_targets(&s, "y"), Vec::<Address>::new());
    assert_eq!(l.get_targets(&s, "X"), Vec::<Address>::new());
    assert_eq!(l.get_targets(&s, "x"), vec![addr("t1")]);
}

#[test]
fn resolver_drops_missing_addresses() {
    let mut s = EntryStore::new();
    let a = s.put(&user("alice"));
    let r = resolve_all(&s, &vec![a, addr("QmMissing")], RecordKind::User);
    assert_eq!(r, vec!["alice".to_string()]);
}

#[test]
fn resolver_drops_other_shapes() {
    let mut s = EntryStore::new();
    let c = s.put(&Record { kind: RecordKind::Commitment, value: "c".to_string() });
    let a = s.put(&user("alice"));
    let r = resolve_all(&s, &vec![c, a], RecordKind::User);
    assert_eq!(r, vec!["alice".to_string()]);
}

#[test]
fn users_listed_in_link_order() {
    let mut s = EntryStore::new();
    let mut l = LinkIndex::new();
    let anchor = anchor_address_of();
    let a = s.put(&user("alice"));
    l.link(&anchor, &a, "users");
    let b = s.put(&user("bob"));
    l.link(&anchor, &b, "users");
    let r = resolve_all(&s, &l.get_targets(&anchor, "users"), RecordKind::User);
    assert_eq!(r, vec!["alice".to_string(), "bob".to_string()]);
}

#[test]
fn fresh_store_has_no_commitments() {
    let l = LinkIndex::new();
    assert_eq!(l.get_targets(&anchor_address_of(), "commitments"), Vec::<Address>::new());
    let z = Zome::new();
    let r = handle_get_user_commitments(&z, anchor_address_of());
    assert_eq!(r.name, "commitments");
    assert!(r.items.is_empty());
}

#[test]
fn handlers_list_users_and_commitments() {
    let mut z = Zome::new();
    let a = handle_create_user(&mut z, User { name: "alice".to_string() });
    let b = handle_create_user(&mut z, User { name: "bob".to_string() });
    assert_ne!(a, b);
    let users = handle_get_users(&z);
    assert_eq!(users.name, "users");
    assert_eq!(users.items, vec![User { name: "alice".to_string() }, User { name: "bob".to_string() }]);
    let c1 = handle_create_commitment(&mut z, Commitment { title: "run".to_string() }, a.clone());
    handle_create_commitment(&mut z, Commitment { title: "swim".to_string() }, a.clone());
    handle_create_commitment(&mut z, Commitment { title: "read".to_string() }, b.clone());
    let mine = handle_get_user_commitments(&z, a.clone());
    assert_eq!(mine.name, "commitments");
    assert_eq!(
        mine.items,
        vec![Commitment { title: "run".to_string() }, Commitment { title: "swim".to_string() }]
    );
    let theirs = handle_get_user_commitments(&z, b);
    assert_eq!(theirs.items, vec![Commitment { title: "read".to_string() }]);
    assert_eq!(
        handle_get_my_entry(&z, c1),
        Some(Record { kind: RecordKind::Commitment, value: "run".to_string() })
    );
}

#[test]
fn my_entry_is_stored_and_read_back() {
    let mut z = Zome::new();
    let a = handle_create_my_entry(&mut z, MyEntry { content: "hello".to_string() });
    assert_eq!(
        handle_get_my_entry(&z, a),
        Some(Record { kind: RecordKind::MyEntry, value: "hello".to_string() })
    );
    assert_eq!(handle_get_my_entry(&z, addr("QmNothing")), None);
}

#[test]
fn users_not_stored_are_skipped() {
    let mut z = Zome::new();
    z.links.link(&anchor_address_of(), &addr("QmGhost"), "users");
    handle_create_user(&mut z, User { name: "carol".to_string() });
    let users = handle_get_users(&z);
    assert_eq!(users.items, vec![User { name: "carol".to_string() }]);
}
