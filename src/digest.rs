//! Content digests and identifiers: sha256 digests rendered as `sha256:<hex>`,
//! gzip decoding of layer blobs, and the numeric identifier derived from a
//! manifest digest.

use std::hash::Hash;
use std::hash::Hasher;
use std::io::Read;
use sha2::Digest;
use vstd::prelude::*;
use vstd::string::*;
use crate::text::{append_decimal, append_hex, decimal_of, hex_of};

verus! {

/// The sha256 digest of a byte string.
pub uninterp spec fn sha256_of(data: Seq<u8>) -> Seq<u8>;

/// What gzip decoding makes of a byte string (its first gzip member): `None`
/// where that is not a valid gzip stream.
pub uninterp spec fn gunzip_of(data: Seq<u8>) -> Option<Seq<u8>>;

/// The 64-bit hash that a fresh `DefaultHasher` gives for a string.
pub uninterp spec fn default_hash_of(s: Seq<char>) -> u64;

/// The textual form of a sha256 digest: `sha256:` followed by its lower-case hex.
pub open spec fn digest_text(digest: Seq<u8>) -> Seq<char> {
    seq!['s', 'h', 'a', '2', '5', '6', ':'] + hex_of(digest)
}

/// The identifier derived from a string: the decimal form of its hash.
pub open spec fn uid_of(s: Seq<char>) -> Seq<char> {
    decimal_of(default_hash_of(s) as nat)
}

/// Relies on `sha2::Sha256::digest`: the digest of the bytes, 32 bytes long.
#[verifier::external_body]
fn sha256(data: &Vec<u8>) -> (r: Vec<u8>)
    ensures
        r@ == sha256_of(data@),
        r@.len() == 32,
{
    sha2::Sha256::digest(data.as_slice()).to_vec()
}

/// Relies on `flate2::read::GzDecoder`: decodes the first gzip member of the
/// bytes, `None` when it is not valid gzip.
#[verifier::external_body]
pub(crate) fn gunzip(data: &Vec<u8>) -> (r: Option<Vec<u8>>)
    ensures
        match r {
            Some(v) => gunzip_of(data@) == Some(v@),
            None => gunzip_of(data@) is None,
        },
{
    let mut out: Vec<u8> = Vec::new();
    match flate2::read::GzDecoder::new(data.as_slice()).read_to_end(&mut out) {
        Ok(_) => Some(out),
        Err(_) => None,
    }
}

/// Relies on `std::collections::hash_map::DefaultHasher`: a fresh hasher fed
/// with the string, then finished.
#[verifier::external_body]
fn default_hash(s: &str) -> (r: u64)
    ensures
        r == default_hash_of(s@),
{
    let mut hasher = std::collections::hash_map::DefaultHasher::new();
    s.hash(&mut hasher);
    hasher.finish()
}

/// The `sha256:<hex>` digest of a byte string.
pub fn sha256_digest(data: &Vec<u8>) -> (r: String)
    ensures
        r@ == digest_text(sha256_of(data@)),
{
    let digest = sha256(data);
    let mut r = String::from_str("sha256:");
    proof {
        reveal_strlit("sha256:");
    }
    append_hex(&mut r, &digest);
    assert(r@ =~= digest_text(sha256_of(data@)));
    r
}

/// Generates an identifier from a string: the decimal form of its hash.
pub fn to_uid(param: &str) -> (r: String)
    ensures
        r@ == uid_of(param@),
{
    let mut r = String::new();
    append_decimal(&mut r, default_hash(param));
    assert(r@ =~= uid_of(param@));
    r
}

} // verus!
