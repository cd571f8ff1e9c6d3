//! The shapes of records kept in the store and their canonical JSON.
use vstd::prelude::*;
use vstd::string::*;
use crate::address::{Address, address_of_content, content_address, json_quoted, quote_json};

verus! {

/// The entry type a record is stored under. It fixes the record's shape.
#[derive(Debug, Clone, Copy, PartialEq, Eq, Structural)]
pub enum RecordKind {
    MyEntry,
    Anchor,
    User,
    Commitment,
}

/// A record as stored: its entry type and the text of its one field.
#[derive(Debug, Clone, PartialEq, Eq)]
pub struct Record {
    pub kind: RecordKind,
    pub value: String,
}

impl View for Record {
    type V = (RecordKind, Seq<char>);

    open spec fn view(&self) -> (RecordKind, Seq<char>) {
        (self.kind, self.value@)
    }
}

/// The entry type name of a kind.
pub open spec fn kind_name(k: RecordKind) -> Seq<char> {
    match k {
        RecordKind::MyEntry => "my_entry"@,
        RecordKind::Anchor => "anchor"@,
        RecordKind::User => "user"@,
        RecordKind::Commitment => "commitment"@,
    }
}

/// The JSON of a record's value: a bare string for an anchor, an object with
/// one named field for the other kinds.
pub open spec fn value_json(r: (RecordKind, Seq<char>)) -> Seq<char> {
    match r.0 {
        RecordKind::Anchor => json_quoted(r.1),
        RecordKind::MyEntry => "{\"content\":"@ + json_quoted(r.1) + "}"@,
        RecordKind::User => "{\"name\":"@ + json_quoted(r.1) + "}"@,
        RecordKind::Commitment => "{\"title\":"@ + json_quoted(r.1) + "}"@,
    }
}

/// The canonical JSON of an application entry: its type name and the JSON of
/// its value, the latter as a string.
pub open spec fn entry_json(r: (RecordKind, Seq<char>)) -> Seq<char> {
    "{\"App\":["@ + json_quoted(kind_name(r.0)) + ","@ + json_quoted(value_json(r)) + "]}"@
}

/// The address a record is stored at.
pub open spec fn record_address(r: (RecordKind, Seq<char>)) -> Seq<char> {
    content_address(entry_json(r))
}

/// The anchor sentinel: the record whose address roots the list of users.
pub open spec fn anchor_view() -> (RecordKind, Seq<char>) {
    (RecordKind::Anchor, "anchor"@)
}

fn kind_name_text(k: RecordKind) -> (r: String)
    ensures
        r@ == kind_name(k),
{
    match k {
        RecordKind::MyEntry => "my_entry".to_owned(),
        RecordKind::Anchor => "anchor".to_owned(),
        RecordKind::User => "user".to_owned(),
        RecordKind::Commitment => "commitment".to_owned(),
    }
}

fn field_object(open: &str, quoted: &String) -> (r: String)
    ensures
        r@ == open@ + quoted@ + "}"@,
{
    let mut s = open.to_owned();
    s.append(quoted.as_str());
    s.append("}");
    s
}

impl Record {
    /// The anchor sentinel record.
    pub fn anchor() -> (r: Record)
        ensures
            r@ == anchor_view(),
    {
        Record { kind: RecordKind::Anchor, value: "anchor".to_owned() }
    }

    /// A second value of the same record.
    pub fn duplicate(&self) -> (r: Record)
        ensures
            r@ == self@,
    {
        Record { kind: self.kind, value: self.value.clone() }
    }

    /// The JSON of the record's value.
    pub fn value_json(&self) -> (r: String)
        ensures
            r@ == value_json(self@),
    {
        let quoted = quote_json(self.value.as_str());
        match self.kind {
            RecordKind::Anchor => quoted,
            RecordKind::MyEntry => field_object("{\"content\":", &quoted),
            RecordKind::User => field_object("{\"name\":", &quoted),
            RecordKind::Commitment => field_object("{\"title\":", &quoted),
        }
    }

    /// The canonical JSON of the record as an application entry.
    pub fn entry_json(&self) -> (r: String)
        ensures
            r@ == entry_json(self@),
    {
        let name = kind_name_text(self.kind);
        let value = self.value_json();
        let mut s = "{\"App\":[".to_owned();
        s.append(quote_json(name.as_str()).as_str());
        s.append(",");
        s.append(quote_json(value.as_str()).as_str());
        s.append("]}");
        s
    }

    /// The record's content address. It depends on the record alone.
    pub fn address(&self) -> (r: Address)
        ensures
            r@ == record_address(self@),
    {
        let json = self.entry_json();
        address_of_content(json.as_str())
    }
}

/// An entry of kind `my_entry`.
#[derive(Debug, Clone, PartialEq, Eq)]
pub struct MyEntry {
    pub content: String,
}

/// A user, stored under the kind `user`.
#[derive(Debug, Clone, PartialEq, Eq)]
pub struct User {
    pub name: String,
}

/// A commitment, stored under the kind `commitment`.
#[derive(Debug, Clone, PartialEq, Eq)]
pub struct Commitment {
    pub title: String,
}

/// The users listed under the anchor.
#[derive(Debug, Clone, PartialEq, Eq)]
pub struct GetUsersResponse {
    pub name: String,
    pub items: Vec<User>,
}

/// The commitments linked from a user.
#[derive(Debug, Clone, PartialEq, Eq)]
pub struct GetCommitmentsResponse {
    pub name: String,
    pub items: Vec<Commitment>,
}

impl MyEntry {
    pub fn to_record(&self) -> (r: Record)
        ensures
            r@ == (RecordKind::MyEntry, self.content@),
    {
        Record { kind: RecordKind::MyEntry, value: self.content.clone() }
    }
}

impl User {
    pub fn to_record(&self) -> (r: Record)
        ensures
            r@ == (RecordKind::User, self.name@),
    {
        Record { kind: RecordKind::User, value: self.name.clone() }
    }
}

impl Commitment {
    pub fn to_record(&self) -> (r: Record)
        ensures
            r@ == (RecordKind::Commitment, self.title@),
    {
        Record { kind: RecordKind::Commitment, value: self.title.clone() }
    }
}

} // verus!
