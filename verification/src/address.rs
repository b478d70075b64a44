//! Content addresses: the base58 text of the SHA2-256 multihash of a content
//! text.

use rust_base58::ToBase58;
use vstd::prelude::*;

verus! {

/// The address of an entry or header: a content hash, as text. Two addresses
/// are the same address exactly when their texts are equal.
pub type Address = String;

/// The bytes that `multihash::encode` returns for the hash type SHA2-256 and
/// the given input.
pub uninterp spec fn sha2_256_multihash(input: Seq<u8>) -> Seq<u8>;

/// The text that `rust_base58::ToBase58::to_base58` returns for the given
/// bytes.
pub uninterp spec fn base58_text(bytes: Seq<u8>) -> Seq<char>;

/// Calls `multihash::encode` with `multihash::Hash::SHA2256`, which fails
/// only for a hash type that it does not support; SHA2-256 is supported.
/// Nothing is claimed of the digest but that it depends on the input alone.
#[verifier::external_body]
fn multihash_sha2_256(input: &[u8]) -> (digest: Vec<u8>)
    ensures
        digest@ == sha2_256_multihash(input@),
{
    multihash::encode(multihash::Hash::SHA2256, input).unwrap_or_default()
}

/// Calls `rust_base58::ToBase58::to_base58` on a byte slice. Nothing is
/// claimed of the text but that it depends on the bytes alone.
#[verifier::external_body]
fn base58_encode(bytes: &[u8]) -> (text: String)
    ensures
        text@ == base58_text(bytes@),
{
    bytes.to_base58()
}

/// The address at which a content text is stored: the base58 text of the
/// SHA2-256 multihash of its UTF-8 bytes.
pub open spec fn content_address(content: Seq<char>) -> Seq<char> {
    base58_text(sha2_256_multihash(vstd::utf8::encode_utf8(content)))
}

/// Computes the address of a content text.
pub fn address_of_content(content: &str) -> (address: Address)
    ensures
        address@ == content_address(content@),
{
    let digest = multihash_sha2_256(content.as_bytes());
    base58_encode(digest.as_slice())
}

/// Whether two addresses are the same address.
pub fn same_address(a: &Address, b: &Address) -> (same: bool)
    ensures
        same == (a@ == b@),
{
    *a == *b
}

} // verus!
