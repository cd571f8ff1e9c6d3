//! The zome's handlers: users listed under an anchor, commitments linked
//! from their user, and free-standing entries.
use vstd::prelude::*;
use crate::address::Address;
use crate::links::{LinkIndex, LinkView, targets_of};
use crate::record::{
    Commitment, GetCommitmentsResponse, GetUsersResponse, MyEntry, Record, RecordKind, User,
    anchor_view, record_address,
};
use crate::resolve::{resolve_all, resolved, strings_view};
use crate::store::{EntryStore, StoreView, record_option_view, spec_put};

verus! {

/// The tag of the links from the anchor to each user.
pub open spec fn users_tag() -> Seq<char> {
    "users"@
}

/// The tag of the links from a user to each of their commitments.
pub open spec fn commitments_tag() -> Seq<char> {
    "commitments"@
}

/// The address of the anchor that roots the list of users.
pub open spec fn anchor_address() -> Seq<char> {
    record_address(anchor_view())
}

/// The names of a list of users.
pub open spec fn user_names(v: Seq<User>) -> Seq<Seq<char>> {
    v.map_values(|u: User| u.name@)
}

/// The titles of a list of commitments.
pub open spec fn commitment_titles(v: Seq<Commitment>) -> Seq<Seq<char>> {
    v.map_values(|c: Commitment| c.title@)
}

/// The state the handlers work on: the entries and the links between them.
pub struct Zome {
    pub entries: EntryStore,
    pub links: LinkIndex,
}

impl Zome {
    /// The zome's invariant: that of its entry store.
    pub open spec fn wf(&self) -> bool {
        self.entries.wf()
    }

    /// A zome with no entries and no links.
    pub fn new() -> (z: Zome)
        ensures
            z.wf(),
            z.entries@ == StoreView::empty(),
            z.links@ == Seq::<LinkView>::empty(),
    {
        Zome { entries: EntryStore::new(), links: LinkIndex::new() }
    }
}

/// The address of the anchor, computed without storing it.
pub fn anchor_address_of() -> (r: Address)
    ensures
        r@ == anchor_address(),
{
    Record::anchor().address()
}

/// Stores `entry` and returns its address.
pub fn handle_create_my_entry(zome: &mut Zome, entry: MyEntry) -> (r: Address)
    requires
        old(zome).wf(),
    ensures
        final(zome).wf(),
        r@ == record_address((RecordKind::MyEntry, entry.content@)),
        final(zome).entries@ == spec_put(old(zome).entries@, (RecordKind::MyEntry, entry.content@)),
        final(zome).links@ == old(zome).links@,
{
    zome.entries.put(&entry.to_record())
}

/// Stores the anchor and returns its address.
pub fn handle_create_anchor(zome: &mut Zome) -> (r: Address)
    requires
        old(zome).wf(),
    ensures
        final(zome).wf(),
        r@ == anchor_address(),
        final(zome).entries@ == spec_put(old(zome).entries@, anchor_view()),
        final(zome).links@ == old(zome).links@,
{
    zome.entries.put(&Record::anchor())
}

/// Stores `user` and links it from the anchor under the users tag; returns
/// the user's address. The anchor itself need not be stored.
pub fn handle_create_user(zome: &mut Zome, user: User) -> (r: Address)
    requires
        old(zome).wf(),
    ensures
        final(zome).wf(),
        r@ == record_address((RecordKind::User, user.name@)),
        final(zome).entries@ == spec_put(old(zome).entries@, (RecordKind::User, user.name@)),
        final(zome).links@ == old(zome).links@.push((anchor_address(), users_tag(), r@)),
{
    let anchor = anchor_address_of();
    let user_address = zome.entries.put(&user.to_record());
    zome.links.link(&anchor, &user_address, "users");
    user_address
}

/// Stores `commitment` and links it from `user_addr` under the commitments
/// tag; returns the commitment's address. Nothing need be stored at `user_addr`.
pub fn handle_create_commitment(zome: &mut Zome, commitment: Commitment, user_addr: Address) -> (r: Address)
    requires
        old(zome).wf(),
    ensures
        final(zome).wf(),
        r@ == record_address((RecordKind::Commitment, commitment.title@)),
        final(zome).entries@ == spec_put(old(zome).entries@, (RecordKind::Commitment, commitment.title@)),
        final(zome).links@ == old(zome).links@.push((user_addr@, commitments_tag(), r@)),
{
    let commitment_address = zome.entries.put(&commitment.to_record());
    zome.links.link(&user_addr, &commitment_address, "commitments");
    commitment_address
}

/// The record stored at `address`, of whatever kind.
pub fn handle_get_my_entry(zome: &Zome, address: Address) -> (r: Option<Record>)
    requires
        zome.wf(),
    ensures
        record_option_view(r) == (if zome.entries@.contains_key(address@) {
            Some(zome.entries@[address@])
        } else {
            None
        }),
{
    zome.entries.get_record(&address)
}

/// The users linked from the anchor, in the order they were linked; targets
/// that hold no user are left out.
pub fn handle_get_users(zome: &Zome) -> (r: GetUsersResponse)
    requires
        zome.wf(),
    ensures
        r.name@ == users_tag(),
        user_names(r.items@) == resolved(
            zome.entries@,
            targets_of(zome.links@, anchor_address(), users_tag()),
            RecordKind::User,
        ),
{
    let anchor = anchor_address_of();
    let targets = zome.links.get_targets(&anchor, "users");
    let names = resolve_all(&zome.entries, &targets, RecordKind::User);
    let mut items: Vec<User> = Vec::new();
    let mut i: usize = 0;
    while i < names.len()
        invariant
            i <= names@.len(),
            items@.len() == i,
            forall|j: int| 0 <= j < i ==> #[trigger] items@[j].name@ == names@[j]@,
        decreases names@.len() - i,
    {
        items.push(User { name: names[i].clone() });
        i = i + 1;
    }
    assert(user_names(items@) =~= strings_view(names@));
    GetUsersResponse { name: "users".to_owned(), items }
}

/// The commitments linked from `user_addr`, in the order they were linked;
/// targets that hold no commitment are left out.
pub fn handle_get_user_commitments(zome: &Zome, user_addr: Address) -> (r: GetCommitmentsResponse)
    requires
        zome.wf(),
    ensures
        r.name@ == commitments_tag(),
        commitment_titles(r.items@) == resolved(
            zome.entries@,
            targets_of(zome.links@, user_addr@, commitments_tag()),
            RecordKind::Commitment,
        ),
{
    let targets = zome.links.get_targets(&user_addr, "commitments");
    let titles = resolve_all(&zome.entries, &targets, RecordKind::Commitment);
    let mut items: Vec<Commitment> = Vec::new();
    let mut i: usize = 0;
    while i < titles.len()
        invariant
            i <= titles@.len(),
            items@.len() == i,
            forall|j: int| 0 <= j < i ==> #[trigger] items@[j].title@ == titles@[j]@,
        decreases titles@.len() - i,
    {
        items.push(Commitment { title: titles[i].clone() });
        i = i + 1;
    }
    assert(commitment_titles(items@) =~= strings_view(titles@));
    GetCommitmentsResponse { name: "commitments".to_owned(), items }
}

} // verus!
