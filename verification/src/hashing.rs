//! Content digests for duplicate detection: SHA-256, hex-encoded.
//!
//! The digest is computed over the file's bytes alone, so two files with
//! identical content hash alike whatever their paths; reading the bytes is
//! the caller's business.

use vstd::prelude::*;

use sha2::Digest;

use crate::text::hex_char;

verus! {

/// The SHA-256 digest of a byte sequence; a function of the content alone.
pub uninterp spec fn sha256_of(data: Seq<u8>) -> Seq<u8>;

/// The lower-case hex encoding: two digits per byte, high nibble first.
pub open spec fn hex_of(bytes: Seq<u8>) -> Seq<char>
    decreases bytes.len(),
{
    if bytes.len() == 0 {
        Seq::empty()
    } else {
        hex_of(bytes.drop_last()) + seq![
            hex_char(bytes.last() as int / 16),
            hex_char(bytes.last() as int % 16),
        ]
    }
}

/// The hex encoding is two characters per byte.
pub proof fn lemma_hex_len(bytes: Seq<u8>)
    ensures
        hex_of(bytes).len() == 2 * bytes.len(),
    decreases bytes.len(),
{
    if bytes.len() > 0 {
        lemma_hex_len(bytes.drop_last());
    }
}

/// Relies on sha2's Sha256 (through Digest::digest): the SHA-256 digest of
/// the input, 32 bytes, a function of the input bytes alone.
#[verifier::external_body]
fn sha256_digest(data: &[u8]) -> (r: Vec<u8>)
    ensures
        r@ == sha256_of(data@),
        r@.len() == 32,
{
    sha2::Sha256::digest(data).to_vec()
}

/// Relies on hex::encode: two lower-case hex digits per byte, high nibble
/// first.
#[verifier::external_body]
fn hex_encode(data: &[u8]) -> (r: String)
    ensures
        r@ == hex_of(data@),
{
    hex::encode(data)
}

/// The hex-encoded SHA-256 digest of `data`: 64 hex characters determined
/// by the byte content alone.
pub fn hash_bytes(data: &[u8]) -> (r: String)
    ensures
        r@ == hex_of(sha256_of(data@)),
        r@.len() == 64,
{
    let digest = sha256_digest(data);
    let r = hex_encode(digest.as_slice());
    proof {
        lemma_hex_len(sha256_of(data@));
    }
    r
}

/// The digest depends on the byte content alone: two inputs with the same
/// bytes — read from different paths, or delivered in different chunks —
/// yield the identical hex digest.  (That different content yields
/// different digests is SHA-256's collision resistance, assumed of the
/// outside implementation, not proved here.)
pub proof fn lemma_hash_content_determined(a: Seq<u8>, b: Seq<u8>)
    requires
        a == b,
    ensures
        hex_of(sha256_of(a)) == hex_of(sha256_of(b)),
{
}

} // verus!
