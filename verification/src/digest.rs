//! Hashing and randomness taken from outside crates: SHA-256 (`sha2`),
//! hexadecimal text (`hex`) and operating-system randomness (`getrandom`).

use vstd::prelude::*;
use sha2::Digest;

verus! {

/// The SHA-256 digest of a byte sequence, as `sha2::Sha256` computes it.
pub uninterp spec fn sha256_digest(data: Seq<u8>) -> Seq<u8>;

/// `sha2::Sha256::digest`: the SHA-256 digest of `data`, named by
/// `sha256_digest`; it is 32 bytes long (the hasher's output size `U32`).
#[verifier::external_body]
pub(crate) fn sha256(data: &[u8]) -> (res: Vec<u8>)
    ensures
        res@ == sha256_digest(data@),
        res@.len() == 32,
{
    sha2::Sha256::digest(data).to_vec()
}

/// `hex::encode`: two lowercase hexadecimal digits per byte, high nibble
/// first (the crate's `HEX_CHARS_LOWER` table indexed by each nibble).
#[verifier::external_body]
pub(crate) fn hex_encode(data: &[u8]) -> (res: String)
    ensures
        res@ == crate::text::hex_of(data@),
{
    hex::encode(data)
}

/// `getrandom::getrandom` on a buffer of `n` bytes: `Some` of the bytes when
/// the operating system supplied them, `None` when it reported an error.
/// The bytes are random; only their number is stated.
#[verifier::external_body]
pub(crate) fn random_bytes(n: usize) -> (res: Option<Vec<u8>>)
    ensures
        res matches Some(v) ==> v@.len() == n,
{
    let mut buf = vec![0u8; n];
    match getrandom::getrandom(&mut buf) {
        Ok(()) => Some(buf),
        Err(_) => None,
    }
}

} // verus!
