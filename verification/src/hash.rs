//! Addresses: content is found again by the hash of itself.

use rust_base58::ToBase58;
use vstd::prelude::*;

verus! {

/// The multihash code of SHA2-256, the one hash that addresses are made with.
pub const SHA2_256: u8 = 0x12;

/// The error of the multihash crate, carried through and never looked into.
#[verifier::external_type_specification]
#[verifier::external_body]
pub struct ExMultihashError(multihash::Error);

/// The bytes that `multihash::encode` gives for the hash with this code over
/// these bytes, where it gives any.
pub uninterp spec fn multihash_bytes(code: u8, input: Seq<u8>) -> Seq<u8>;

/// The text that `to_base58` of the rust-base58 crate gives for these bytes.
pub uninterp spec fn base58_text(bytes: Seq<u8>) -> Seq<char>;

/// Calls `multihash::Hash::from_code` and `multihash::encode`. Trusted: the
/// bytes that come back are the same for the same code and input, and the
/// code of SHA2-256 is known to the crate and supported by its encoder, so
/// that call does not fail.
#[verifier::external_body]
fn multihash_encode(code: u8, input: &[u8]) -> (encoded: Result<Vec<u8>, multihash::Error>)
    ensures
        encoded matches Ok(bytes) ==> bytes@ == multihash_bytes(code, input@),
        code == SHA2_256 ==> encoded is Ok,
{
    multihash::encode(multihash::Hash::from_code(code)?, input)
}

/// Calls `to_base58` of the rust-base58 crate. Trusted: the text is the same
/// for the same bytes.
#[verifier::external_body]
fn base58_encode(bytes: &[u8]) -> (text: String)
    ensures
        text@ == base58_text(bytes@),
{
    bytes.to_base58()
}

/// The address of a piece of content: its SHA2-256 multihash in base 58.
pub open spec fn content_address(content: Seq<char>) -> Seq<char> {
    base58_text(multihash_bytes(SHA2_256, vstd::utf8::encode_utf8(content)))
}

/// Where content lives. Two addresses are the same when their text is.
#[derive(Debug, PartialEq, Eq, Hash, PartialOrd, Ord)]
pub struct Address {
    pub hash: String,
}

impl View for Address {
    type V = Seq<char>;

    open spec fn view(&self) -> Seq<char> {
        self.hash@
    }
}

impl Clone for Address {
    fn clone(&self) -> (copy: Self)
        ensures
            copy == *self,
    {
        Address { hash: self.hash.clone() }
    }
}

impl Address {
    /// The address written as `text`.
    pub fn new(text: &str) -> (address: Address)
        ensures
            address@ == text@,
    {
        Address { hash: String::from_str(text) }
    }

    /// The address under which `content` is stored.
    pub fn encode_from_str(content: &str) -> (address: Address)
        ensures
            address@ == content_address(content@),
    {
        match multihash_encode(SHA2_256, content.as_bytes()) {
            Ok(bytes) => Address { hash: base58_encode(bytes.as_slice()) },
            Err(_) => unreached(),
        }
    }

    /// Whether both are the same address.
    pub fn same(&self, other: &Address) -> (equal: bool)
        ensures
            equal == (self@ == other@),
    {
        self.hash == other.hash
    }

    /// The address as text.
    pub fn to_string(&self) -> (text: String)
        ensures
            text@ == self@,
    {
        self.hash.clone()
    }
}

} // verus!
