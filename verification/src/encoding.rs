//! Digests and base64, computed by the `sha2` and `base64` crates.

use base64::engine::general_purpose::STANDARD;
use base64::Engine;
use sha2::{Digest, Sha256, Sha384};
use vstd::prelude::*;

verus! {

/// The SHA-384 digest of `data`.
pub uninterp spec fn sha384_digest(data: Seq<u8>) -> Seq<u8>;

/// The SHA-256 digest of `data`.
pub uninterp spec fn sha256_digest(data: Seq<u8>) -> Seq<u8>;

/// `data` in base64 (standard alphabet, padded).
pub uninterp spec fn base64_text(data: Seq<u8>) -> Seq<char>;

/// Whether the base64 form of `len` bytes, four characters for every three
/// bytes begun, fits into a single allocation.
pub open spec fn encodable(len: nat) -> bool {
    len <= isize::MAX / 4 * 3
}

/// Calls `sha2::Sha384::digest`. Believed: the result is a function of `data`
/// alone and has 48 bytes.
#[verifier::external_body]
pub(crate) fn sha384(data: &[u8]) -> (digest: Vec<u8>)
    ensures
        digest@ == sha384_digest(data@),
        digest@.len() == 48,
{
    Sha384::digest(data).to_vec()
}

/// Calls `sha2::Sha256::digest`. Believed: the result is a function of `data`
/// alone and has 32 bytes.
#[verifier::external_body]
pub(crate) fn sha256(data: &[u8]) -> (digest: Vec<u8>)
    ensures
        digest@ == sha256_digest(data@),
        digest@.len() == 32,
{
    Sha256::digest(data).to_vec()
}

/// Whether `text` is the base64 form of no bytes but `data`.
pub open spec fn identifies(text: Seq<char>, data: Seq<u8>) -> bool {
    forall|other: Seq<u8>| #[trigger]
        base64_text(other) == text && encodable(other.len()) ==> other == data
}

/// Calls `base64::Engine::encode` of `STANDARD`. Believed: the result is a
/// function of `data` alone, and no other bytes have the same form, since each
/// symbol of the alphabet stands for six bits of its own and the padding tells
/// how many bytes the last group holds. The call panics where the text would not
/// fit into an allocation, which `requires` leaves out.
#[verifier::external_body]
pub(crate) fn base64(data: &[u8]) -> (text: String)
    requires
        encodable(data@.len()),
    ensures
        text@ == base64_text(data@),
        identifies(text@, data@),
{
    STANDARD.encode(data)
}

} // verus!
