//! The write gate: every mutating entry point is authorized by comparing a
//! one-way hash of the supplied credential against the configured secret
//! hash.

use sha2::Digest;
use vstd::prelude::*;

verus! {

/// The lowercase hexadecimal SHA-256 digest of a credential string's bytes:
/// a fixed function of the string alone.
pub uninterp spec fn sha256_hex_of(data: Seq<char>) -> Seq<char>;

/// Relies on `sha2::Sha256`: the digest depends on the input bytes alone,
/// and the lower-hex rendering of the 256-bit (32-byte) output depends on
/// the digest alone and is always 64 digits.
#[verifier::external_body]
pub fn sha256_hex(data: &str) -> (r: String)
    ensures
        r@ == sha256_hex_of(data@),
        r@.len() == 64,
{
    let mut hasher = sha2::Sha256::new();
    hasher.update(data.as_bytes());
    format!("{:x}", hasher.finalize())
}

/// Whether a supplied credential authorizes a mutating operation: present,
/// and its hash equals the configured secret hash.
pub open spec fn spec_authorized(credential: Option<Seq<char>>, key_hash: Seq<char>) -> bool {
    match credential {
        Some(c) => sha256_hex_of(c) == key_hash,
        None => false,
    }
}

/// Decides the write gate: a missing credential is refused outright; a
/// present one is hashed and compared against the configured secret hash.
/// No rate limiting and no per-identity distinction: one shared secret
/// authorizes all mutating operations uniformly.
pub fn authorize(credential: Option<&String>, key_hash: &String) -> (r: bool)
    ensures
        r == spec_authorized(credential.deep_view(), key_hash@),
{
    match credential {
        Option::Some(c) => {
            let hashed = sha256_hex(c.as_str());
            hashed == *key_hash
        },
        Option::None => false,
    }
}

} // verus!
