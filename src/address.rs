//! Content addresses: the base58 text of the SHA2-256 multihash of an
//! entry's canonical JSON.
use vstd::prelude::*;

verus! {

/// What `serde_json` writes for a string: the JSON string literal.
pub uninterp spec fn json_quoted(s: Seq<char>) -> Seq<char>;

/// The SHA2-256 multihash (code, length, digest) of the UTF-8 bytes of `s`.
pub uninterp spec fn sha256_multihash(s: Seq<char>) -> Seq<u8>;

/// The base58 (bitcoin alphabet) text of the bytes `b`.
pub uninterp spec fn base58_of(b: Seq<u8>) -> Seq<char>;

/// Relies on `serde_json::to_string` on a `str`: the JSON string literal for
/// `s`. Writing a string into a `Vec` cannot fail, so the error arm is never taken.
#[verifier::external_body]
pub(crate) fn quote_json(s: &str) -> (r: String)
    ensures
        r@ == json_quoted(s@),
{
    serde_json::to_string(s).expect("a string always serialises")
}

/// Relies on `multihash::encode` with `Hash::SHA2256` over the UTF-8 bytes of
/// `s`: two header bytes and the 32-byte digest. SHA2-256 is a supported
/// code, so `encode` returns `Ok`.
#[verifier::external_body]
fn multihash_sha256(s: &str) -> (r: Vec<u8>)
    ensures
        r@ == sha256_multihash(s@),
        r@.len() == 34,
{
    multihash::encode(multihash::Hash::SHA2256, s.as_bytes()).expect("SHA2-256 is supported")
}

/// Relies on `rust_base58::ToBase58::to_base58` on a byte slice.
#[verifier::external_body]
fn base58(b: &Vec<u8>) -> (r: String)
    ensures
        r@ == base58_of(b@),
{
    rust_base58::ToBase58::to_base58(b.as_slice())
}

/// The address of some content: base58 of its SHA2-256 multihash.
pub open spec fn content_address(content: Seq<char>) -> Seq<char> {
    base58_of(sha256_multihash(content))
}

/// A content address. Equal content always gives an equal address.
#[derive(Debug, Clone, PartialEq, Eq, Hash, PartialOrd, Ord)]
pub struct Address {
    pub hash: String,
}

impl View for Address {
    type V = Seq<char>;

    open spec fn view(&self) -> Seq<char> {
        self.hash@
    }
}

impl Address {
    /// An address from its base58 text, as handed out by a caller.
    pub fn from_string(hash: String) -> (r: Address)
        ensures
            r@ == hash@,
    {
        Address { hash }
    }

    /// The base58 text of the address.
    pub fn as_str(&self) -> (r: &str)
        ensures
            r@ == self@,
    {
        self.hash.as_str()
    }

    /// A second value of the same address.
    pub fn duplicate(&self) -> (r: Address)
        ensures
            r@ == self@,
    {
        Address { hash: self.hash.clone() }
    }

    /// Whether two addresses are the same.
    pub fn same_as(&self, other: &Address) -> (r: bool)
        ensures
            r == (self@ == other@),
    {
        self.hash == other.hash
    }
}

/// Computes the address of some content.
pub fn address_of_content(content: &str) -> (r: Address)
    ensures
        r@ == content_address(content@),
{
    let digest = multihash_sha256(content);
    Address { hash: base58(&digest) }
}

} // verus!
