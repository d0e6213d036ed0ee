//! Bulk DEFLATE compression and decompression over pre-sized buffers. The
//! outside library's encoder is deterministic at a fixed level, so its
//! output is named `deflate_of`; decompression either recovers the unique
//! encoded content, `inflate_of`, or reports failure.

use vstd::prelude::*;

verus! {

#[verifier::external_type_specification]
#[verifier::external_body]
pub struct ExCompressor(libdeflater::Compressor);

#[verifier::external_type_specification]
#[verifier::external_body]
pub struct ExDecompressor(libdeflater::Decompressor);

#[verifier::external_type_specification]
#[verifier::external_body]
pub struct ExCompressionLvl(libdeflater::CompressionLvl);

#[verifier::external_type_specification]
#[verifier::external_body]
pub struct ExCompressionError(libdeflater::CompressionError);

#[verifier::external_type_specification]
#[verifier::external_body]
pub struct ExDecompressionError(libdeflater::DecompressionError);

/// The DEFLATE encoding of `data` at the library's default level; the
/// outside crate computes it, so only its name is stated here.
pub uninterp spec fn deflate_of(data: Seq<u8>) -> Seq<u8>;

/// The content a DEFLATE stream decodes to, or `None` for a malformed
/// stream.
pub uninterp spec fn inflate_of(data: Seq<u8>) -> Option<Seq<u8>>;

/// The worst-case size of the DEFLATE encoding of any `n`-byte input.
pub uninterp spec fn deflate_bound_of(n: int) -> int;

/// Relies on libdeflater::CompressionLvl::default: the library's default
/// compression level.
#[verifier::external_body]
fn default_compression_level() -> libdeflater::CompressionLvl {
    libdeflater::CompressionLvl::default()
}

/// Relies on libdeflater::Compressor::new.
#[verifier::external_body]
fn new_raw_compressor(lvl: libdeflater::CompressionLvl) -> libdeflater::Compressor {
    libdeflater::Compressor::new(lvl)
}

/// Relies on libdeflater::Decompressor::new.
#[verifier::external_body]
fn new_raw_decompressor() -> libdeflater::Decompressor {
    libdeflater::Decompressor::new()
}

/// Relies on libdeflater::Compressor::deflate_compress_bound: a hard upper
/// bound on the size of the DEFLATE encoding of any `n`-byte input, at the
/// worst possible compression ratio.
#[verifier::external_body]
fn deflate_bound_raw(c: &mut libdeflater::Compressor, n: usize) -> (r: usize)
    ensures
        r as int == deflate_bound_of(n as int),
        forall|d: Seq<u8>| d.len() == n ==> (#[trigger] deflate_of(d)).len() <= r as int,
{
    c.deflate_compress_bound(n)
}

/// Relies on libdeflater::Compressor::deflate_compress: writes the DEFLATE
/// encoding of `data` into the front of `out` and returns its length;
/// reports insufficient space (a zero return from the underlying library,
/// so a successful encoding is never empty) when `out` cannot hold it.
#[verifier::external_body]
fn deflate_compress_raw(
    c: &mut libdeflater::Compressor,
    data: &Vec<u8>,
    out: &mut Vec<u8>,
) -> (r: Result<usize, libdeflater::CompressionError>)
    ensures
        final(out)@.len() == old(out)@.len(),
        deflate_of(data@).len() <= old(out)@.len() ==> r is Ok,
        r is Ok ==> (1 <= r->Ok_0 && r->Ok_0 as int == deflate_of(data@).len()
            && r->Ok_0 <= final(out)@.len()
            && final(out)@.subrange(0, r->Ok_0 as int) == deflate_of(data@)),
{
    c.deflate_compress(data.as_slice(), out.as_mut_slice())
}

/// Relies on libdeflater::Decompressor::deflate_decompress: decodes a
/// DEFLATE stream into the front of `out` and returns the decoded length;
/// fails exactly on a malformed stream or insufficient space, never with
/// partial output reported as success. Decoding what the encoder produced
/// yields the original content.
#[verifier::external_body]
fn deflate_decompress_raw(
    d: &mut libdeflater::Decompressor,
    data: &Vec<u8>,
    out: &mut Vec<u8>,
) -> (r: Result<usize, libdeflater::DecompressionError>)
    ensures
        final(out)@.len() == old(out)@.len(),
        r is Ok ==> (inflate_of(data@) is Some
            && r->Ok_0 as int == inflate_of(data@)->0.len()
            && r->Ok_0 <= final(out)@.len()
            && final(out)@.subrange(0, r->Ok_0 as int) == inflate_of(data@)->0),
        r is Err ==> (inflate_of(data@) is None
            || inflate_of(data@)->0.len() > old(out)@.len()),
        (inflate_of(data@) is Some && inflate_of(data@)->0.len() <= old(out)@.len())
            ==> r is Ok,
        forall|p: Seq<u8>| (data@ == #[trigger] deflate_of(p) && p.len() <= old(out)@.len())
            ==> (r is Ok && r->Ok_0 as int == p.len()
                && final(out)@.subrange(0, p.len() as int) == p),
        forall|p: Seq<u8>| (data@ == #[trigger] deflate_of(p) && p.len() > old(out)@.len())
            ==> r is Err,
{
    d.deflate_decompress(data.as_slice(), out.as_mut_slice())
}

/// What `decompress` hands back: the decoded content where the stream is
/// well formed and fits the preallocated capacity, and the empty failure
/// sentinel otherwise.
pub open spec fn decompressed_or_empty(data: Seq<u8>, capacity: int) -> Seq<u8> {
    if inflate_of(data) is Some && inflate_of(data)->0.len() <= capacity {
        inflate_of(data)->0
    } else {
        Seq::<u8>::empty()
    }
}

/// The compression and decompression engines of one context.
pub struct BulkCompressor {
    compressor: libdeflater::Compressor,
    decompressor: libdeflater::Decompressor,
}

impl BulkCompressor {
    /// Creates engines at the library's default compression level.
    pub fn new() -> BulkCompressor {
        BulkCompressor {
            compressor: new_raw_compressor(default_compression_level()),
            decompressor: new_raw_decompressor(),
        }
    }

    /// The worst-case compressed size for an `n`-byte input; compressing
    /// never produces more than this many bytes.
    pub fn compress_bound(&mut self, n: usize) -> (r: usize)
        ensures
            r as int == deflate_bound_of(n as int),
            forall|d: Seq<u8>| d.len() == n ==> (#[trigger] deflate_of(d)).len() <= r as int,
    {
        deflate_bound_raw(&mut self.compressor, n)
    }

    /// Compresses `data`, sizing the buffer by the worst-case bound and
    /// truncating it to the bytes actually written. The result is never
    /// empty and never exceeds the bound.
    pub fn compress(&mut self, data: &Vec<u8>) -> (r: Vec<u8>)
        ensures
            r@ == deflate_of(data@),
            1 <= r@.len(),
            r@.len() as int <= deflate_bound_of(data@.len() as int),
    {
        let bound = self.compress_bound(data.len());
        let mut out: Vec<u8> = Vec::new();
        out.resize(bound, 0u8);
        let written = deflate_compress_raw(&mut self.compressor, data, &mut out);
        match written {
            Ok(n) => {
                out.truncate(n);
                out
            },
            Err(_) => vstd::pervasive::unreached(),
        }
    }

    /// Decompresses `data` into a buffer of `capacity` bytes. A malformed
    /// stream, or content larger than `capacity`, gives the empty failure
    /// sentinel, never partial output.
    pub fn decompress(&mut self, data: &Vec<u8>, capacity: usize) -> (r: Vec<u8>)
        ensures
            r@ == decompressed_or_empty(data@, capacity as int),
            forall|p: Seq<u8>| (data@ == #[trigger] deflate_of(p) && p.len() <= capacity)
                ==> r@ == p,
            forall|p: Seq<u8>| (data@ == #[trigger] deflate_of(p) && p.len() > capacity)
                ==> r@ == Seq::<u8>::empty(),
    {
        let mut out: Vec<u8> = Vec::new();
        out.resize(capacity, 0u8);
        let written = deflate_decompress_raw(&mut self.decompressor, data, &mut out);
        match written {
            Ok(n) => {
                out.truncate(n);
                proof {
                    assert(out@ =~= decompressed_or_empty(data@, capacity as int));
                }
                out
            },
            Err(_) => Vec::new(),
        }
    }
}

} // verus!
