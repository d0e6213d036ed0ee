//! Byte-level helpers: little-endian encoding of the packet counter and
//! constant-structure byte comparison.

use vstd::prelude::*;

verus! {

/// The eight bytes of `n`, least significant first.
pub open spec fn le64(n: u64) -> Seq<u8> {
    seq![
        (n & 0xff) as u8,
        ((n >> 8) & 0xff) as u8,
        ((n >> 16) & 0xff) as u8,
        ((n >> 24) & 0xff) as u8,
        ((n >> 32) & 0xff) as u8,
        ((n >> 40) & 0xff) as u8,
        ((n >> 48) & 0xff) as u8,
        ((n >> 56) & 0xff) as u8,
    ]
}

/// The wire encoding of the signed packet counter: its two's-complement
/// bits, little-endian.
pub open spec fn counter_le_bytes(n: i64) -> Seq<u8> {
    le64(n as u64)
}

/// Encodes the packet counter as eight little-endian bytes.
pub fn counter_bytes(n: i64) -> (r: Vec<u8>)
    ensures
        r@ == counter_le_bytes(n),
        r@.len() == 8,
{
    let u: u64 = n as u64;
    let mut r: Vec<u8> = Vec::new();
    r.push((u & 0xff) as u8);
    r.push(((u >> 8) & 0xff) as u8);
    r.push(((u >> 16) & 0xff) as u8);
    r.push(((u >> 24) & 0xff) as u8);
    r.push(((u >> 32) & 0xff) as u8);
    r.push(((u >> 40) & 0xff) as u8);
    r.push(((u >> 48) & 0xff) as u8);
    r.push(((u >> 56) & 0xff) as u8);
    proof {
        assert(r@ =~= counter_le_bytes(n));
    }
    r
}

/// Appends every byte of `src` to `dst`, in order.
pub fn append_bytes(dst: &mut Vec<u8>, src: &Vec<u8>)
    ensures
        final(dst)@ == old(dst)@ + src@,
{
    let mut i: usize = 0;
    while i < src.len()
        invariant
            i <= src@.len(),
            dst@ == old(dst)@ + src@.subrange(0, i as int),
        decreases src@.len() - i,
    {
        dst.push(src[i]);
        proof {
            assert(old(dst)@ + src@.subrange(0, i as int) + seq![src@[i as int]]
                =~= old(dst)@ + src@.subrange(0, i + 1));
        }
        i += 1;
    }
    proof {
        assert(src@.subrange(0, src@.len() as int) =~= src@);
    }
}

/// A fresh copy of a byte string.
pub fn copy_bytes(src: &Vec<u8>) -> (r: Vec<u8>)
    ensures
        r@ == src@,
{
    let mut r: Vec<u8> = Vec::new();
    append_bytes(&mut r, src);
    r
}

/// Compares two byte strings; walks the whole common length rather than
/// branching on content early.
pub fn bytes_equal(a: &Vec<u8>, b: &Vec<u8>) -> (r: bool)
    ensures
        r <==> a@ == b@,
{
    if a.len() != b.len() {
        return false;
    }
    let mut same: bool = true;
    let mut i: usize = 0;
    while i < a.len()
        invariant
            i <= a@.len(),
            a@.len() == b@.len(),
            same <==> (forall|j: int| 0 <= j < i ==> a@[j] == b@[j]),
        decreases a@.len() - i,
    {
        same = same && (a[i] == b[i]);
        i += 1;
    }
    if same {
        proof {
            assert(a@ =~= b@);
        }
    }
    same
}

} // verus!
