//! Derivation of the pseudonymous address under which the custody protocol
//! knows a principal: the base-58 text of the SHA-256 digest of the
//! principal's account identifier.

use sha2::Digest;
use vstd::prelude::*;
use vstd::utf8::encode_utf8;

verus! {

/// Number of bytes in a SHA-256 digest.
pub const DIGEST_LEN: usize = 32;

/// The SHA-256 digest of `data`.
pub uninterp spec fn sha256_digest(data: Seq<u8>) -> Seq<u8>;

/// The base-58 text of `data` in the Bitcoin alphabet.
pub uninterp spec fn base58_text(data: Seq<u8>) -> Seq<char>;

/// The digest that an account identifier is reduced to before it is encoded.
pub open spec fn omni_digest(account_id: Seq<char>) -> Seq<u8> {
    sha256_digest(encode_utf8(account_id))
}

/// The pseudonymous address of an account identifier.
pub open spec fn omni_address(account_id: Seq<char>) -> Seq<char> {
    base58_text(omni_digest(account_id))
}

/// Calls `sha2::Sha256::digest`. Trusted: the 32 bytes returned are the
/// SHA-256 digest of `data`, a function of `data` alone.
#[verifier::external_body]
fn sha256(data: &[u8]) -> (digest: [u8; 32])
    ensures
        digest@ == sha256_digest(data@),
{
    sha2::Sha256::digest(data).into()
}

/// Calls `bs58::encode(..).into_string()`. Trusted: the string returned is
/// the base-58 text of `data` in the crate's default (Bitcoin) alphabet, a
/// function of `data` alone. The encoder sizes its buffer as
/// `len + (len + 1) / 2`, which must not overflow.
#[verifier::external_body]
fn base58(data: &[u8]) -> (text: String)
    requires
        data@.len() + (data@.len() + 1) / 2 <= usize::MAX,
    ensures
        text@ == base58_text(data@),
{
    bs58::encode(data).into_string()
}

/// Derives the pseudonymous address of `account_id`.
///
/// The result is a function of the identifier alone: its UTF-8 bytes are
/// hashed to a digest of [`DIGEST_LEN`] bytes, and the digest is encoded.
pub fn get_omni_address(account_id: String) -> (address: String)
    ensures
        address@ == omni_address(account_id@),
        omni_digest(account_id@).len() == DIGEST_LEN,
{
    let digest = sha256(account_id.as_str().as_bytes());
    base58(digest.as_slice())
}

/// Derivation is deterministic: equal identifiers have equal addresses,
/// and the address is the encoding of the identifier's digest.
pub proof fn omni_address_deterministic(a: Seq<char>, b: Seq<char>)
    requires
        a == b,
    ensures
        omni_address(a) == omni_address(b),
        omni_address(a) == base58_text(sha256_digest(encode_utf8(a))),
{
}

} // verus!
