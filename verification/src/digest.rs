//! The integrity tag: a truncated SHA-256 digest over the packet counter,
//! the payload, and the raw key bytes.

use vstd::prelude::*;
use sha2::Digest;
use crate::bytes::{counter_le_bytes, counter_bytes, append_bytes, bytes_equal};

verus! {

/// The 32-byte SHA-256 digest of `data`. The outside crate computes it; only
/// its name is stated here.
pub uninterp spec fn sha256_of(data: Seq<u8>) -> Seq<u8>;

/// Relies on sha2::Sha256::digest: the SHA-256 digest, 32 bytes, a function
/// of the input bytes alone.
#[verifier::external_body]
fn sha256(data: &Vec<u8>) -> (r: Vec<u8>)
    ensures
        r@ == sha256_of(data@),
        r@.len() == 32,
{
    sha2::Sha256::digest(data.as_slice()).to_vec()
}

/// The 8-byte integrity tag of a packet: the first eight bytes of the
/// SHA-256 digest of the little-endian counter, then the payload, then the
/// key bytes.
pub open spec fn tag_bytes(counter: i64, payload: Seq<u8>, key: Seq<u8>) -> Seq<u8> {
    sha256_of(counter_le_bytes(counter) + payload + key).take(8)
}

/// Computes the 8-byte integrity tag over (counter, payload, key).
pub fn compute_tag(counter: i64, payload: &Vec<u8>, key: &Vec<u8>) -> (r: Vec<u8>)
    ensures
        r@ == tag_bytes(counter, payload@, key@),
        r@.len() == 8,
{
    let mut m: Vec<u8> = counter_bytes(counter);
    append_bytes(&mut m, payload);
    append_bytes(&mut m, key);
    let mut h = sha256(&m);
    h.truncate(8);
    proof {
        assert(h@ =~= tag_bytes(counter, payload@, key@));
    }
    h
}

/// Compares a received tag against the expected one.
pub fn verify_tag(expected: &Vec<u8>, actual: &Vec<u8>) -> (r: bool)
    ensures
        r <==> expected@ == actual@,
{
    bytes_equal(expected, actual)
}

} // verus!
