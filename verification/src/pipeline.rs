//! The per-connection context: the packet codec and the bulk compressor
//! composed into the two end-to-end operations. An encoding endpoint
//! compresses and then encodes; a decoding endpoint decodes and then
//! decompresses, handing back the empty sentinel when either stage rejects
//! the packet.

use vstd::prelude::*;
use crate::cipher::KeyInitError;
use crate::codec::{Mode, PacketCodec, encoded_packet, decoded_packet};
use crate::compression::{BulkCompressor, deflate_of, deflate_bound_of, decompressed_or_empty};

verus! {

/// The default size of the decompression output buffer.
pub const DEFAULT_PREALLOCATE_SIZE: usize = 2 * 1024 * 1024;

/// What an active encoding context puts on the wire for `plain`: the
/// compressed payload, tagged and encrypted at the current position.
pub open spec fn encoded_wire(
    key: Seq<u8>,
    iv: Seq<u8>,
    hist: Seq<u8>,
    counter: i64,
    plain: Seq<u8>,
) -> Seq<u8> {
    encoded_packet(key, iv, hist, counter, deflate_of(plain))
}

/// What an active decoding context hands back for the wire bytes `data`:
/// the empty sentinel when authentication rejects the packet or the
/// decoded payload is the empty rejection value, and otherwise the
/// decompressed content, itself empty on a malformed or oversized stream.
pub open spec fn decoded_wire(
    key: Seq<u8>,
    iv: Seq<u8>,
    hist: Seq<u8>,
    counter: i64,
    capacity: int,
    data: Seq<u8>,
) -> Seq<u8> {
    let payload = decoded_packet(key, iv, hist, counter, data);
    if payload.len() == 0 {
        Seq::<u8>::empty()
    } else {
        decompressed_or_empty(payload, capacity)
    }
}

/// One connection's processing context, fixed at creation as an encoding
/// or a decoding endpoint.
pub struct Context {
    codec: PacketCodec,
    compressor: BulkCompressor,
    preallocate_size: usize,
    debug: bool,
}

impl Context {
    /// The context's fixed direction.
    pub closed spec fn mode(self) -> Mode {
        self.codec.mode()
    }

    /// The packet counter.
    pub closed spec fn counter(self) -> i64 {
        self.codec.counter()
    }

    /// Whether encryption has been successfully enabled.
    pub closed spec fn is_active(self) -> bool {
        self.codec.is_active()
    }

    /// The key of the active cipher.
    pub closed spec fn key(self) -> Seq<u8> {
        self.codec.key()
    }

    /// The initialization vector of the active cipher.
    pub closed spec fn iv(self) -> Seq<u8> {
        self.codec.iv()
    }

    /// The ciphertext transcript of the active cipher.
    pub closed spec fn hist(self) -> Seq<u8> {
        self.codec.hist()
    }

    /// The decompression buffer capacity.
    pub closed spec fn capacity(self) -> int {
        self.preallocate_size as int
    }

    /// The observational debug flag; it never changes behaviour.
    pub closed spec fn debug(self) -> bool {
        self.debug
    }

    /// The context's well-formedness: its codec's.
    pub closed spec fn wf(self) -> bool {
        self.codec.wf()
    }

    /// Creates a context for one connection direction: an encoding endpoint
    /// when `encrypting` is set, else a decoding endpoint. Encryption is
    /// off until `enable` succeeds, the counter starts at zero, and the
    /// decompression buffer gets the default capacity.
    pub fn create(encrypting: bool) -> (r: Context)
        ensures
            r.wf(),
            r.mode() == (if encrypting {
                Mode::Encoding
            } else {
                Mode::Decoding
            }),
            r.counter() == 0,
            !r.is_active(),
            r.capacity() == DEFAULT_PREALLOCATE_SIZE as int,
            !r.debug(),
    {
        let mode = if encrypting {
            Mode::Encoding
        } else {
            Mode::Decoding
        };
        Context {
            codec: PacketCodec::new(mode),
            compressor: BulkCompressor::new(),
            preallocate_size: DEFAULT_PREALLOCATE_SIZE,
            debug: false,
        }
    }

    /// Enables encryption with the given key and initialization vector. A
    /// key that is not 32 bytes, or an initialization vector that is not 16
    /// bytes, is rejected and leaves the context in passthrough mode; the
    /// counter and the rest of the context are untouched either way.
    pub fn enable(&mut self, key: &Vec<u8>, iv: &Vec<u8>) -> (r: Result<(), KeyInitError>)
        requires
            old(self).wf(),
        ensures
            final(self).wf(),
            final(self).mode() == old(self).mode(),
            final(self).counter() == old(self).counter(),
            final(self).capacity() == old(self).capacity(),
            final(self).debug() == old(self).debug(),
            r is Ok <==> (key@.len() == 32 && iv@.len() == 16),
            r is Ok ==> (final(self).is_active() && final(self).key() == key@
                && final(self).iv() == iv@ && final(self).hist() == Seq::<u8>::empty()),
            r is Err ==> !final(self).is_active(),
            r is Err ==> (r->Err_0 is InvalidKeyLength <==> key@.len() != 32),
    {
        self.codec.init_state(key, iv)
    }

    /// Sets the observational debug flag; nothing else changes.
    pub fn set_debug(&mut self, debug: bool)
        requires
            old(self).wf(),
        ensures
            final(self).wf(),
            final(self).debug() == debug,
            final(self).mode() == old(self).mode(),
            final(self).counter() == old(self).counter(),
            final(self).is_active() == old(self).is_active(),
            old(self).is_active() ==> (final(self).key() == old(self).key()
                && final(self).iv() == old(self).iv()
                && final(self).hist() == old(self).hist()),
            final(self).capacity() == old(self).capacity(),
    {
        self.debug = debug;
    }

    /// Sets the decompression buffer capacity; nothing else changes.
    pub fn set_preallocate_size(&mut self, preallocate_size: usize)
        requires
            old(self).wf(),
        ensures
            final(self).wf(),
            final(self).capacity() == preallocate_size as int,
            final(self).mode() == old(self).mode(),
            final(self).counter() == old(self).counter(),
            final(self).is_active() == old(self).is_active(),
            old(self).is_active() ==> (final(self).key() == old(self).key()
                && final(self).iv() == old(self).iv()
                && final(self).hist() == old(self).hist()),
            final(self).debug() == old(self).debug(),
    {
        self.preallocate_size = preallocate_size;
    }

    /// The context's direction, readable at run time.
    pub fn current_mode(&self) -> (r: Mode)
        ensures
            r == self.mode(),
    {
        self.codec.current_mode()
    }

    /// The counter value, readable at run time.
    pub fn counter_value(&self) -> (r: i64)
        ensures
            r == self.counter(),
    {
        self.codec.counter_value()
    }

    /// Whether encryption is active, readable at run time.
    pub fn is_enabled(&self) -> (r: bool)
        ensures
            r == self.is_active(),
    {
        self.codec.is_enabled()
    }

    /// The decompression buffer capacity, readable at run time.
    pub fn preallocate_size_value(&self) -> (r: usize)
        ensures
            r as int == self.capacity(),
    {
        self.preallocate_size
    }

    /// Processes one packet end to end in this context's direction. The
    /// counter advances by exactly one on every call.
    ///
    /// An encoding endpoint compresses, then (when active) tags and
    /// encrypts; with encryption off the compressed bytes pass through
    /// unchanged. A decoding endpoint (when active) decrypts and
    /// authenticates, treats the empty payload as the rejection sentinel,
    /// and then decompresses; what an encoding endpoint with the same key,
    /// initialization vector, and transcript produced at the same counter
    /// comes back exactly, provided its plaintext fits the configured
    /// capacity.
    pub fn process(&mut self, data: Vec<u8>) -> (r: Vec<u8>)
        requires
            old(self).wf(),
            old(self).counter() < i64::MAX,
            (old(self).is_active() && old(self).mode() is Decoding) ==> data@.len() >= 8,
        ensures
            final(self).wf(),
            final(self).mode() == old(self).mode(),
            final(self).counter() == old(self).counter() + 1,
            final(self).is_active() == old(self).is_active(),
            final(self).capacity() == old(self).capacity(),
            final(self).debug() == old(self).debug(),
            old(self).is_active() ==> (final(self).key() == old(self).key()
                && final(self).iv() == old(self).iv()),
            old(self).mode() is Encoding ==> (
                1 <= deflate_of(data@).len()
                && deflate_of(data@).len() <= deflate_bound_of(data@.len() as int)
            ),
            (old(self).mode() is Encoding && !old(self).is_active()) ==> r@ == deflate_of(data@),
            (old(self).mode() is Encoding && old(self).is_active()) ==> (
                r@ == encoded_wire(old(self).key(), old(self).iv(), old(self).hist(),
                    old(self).counter(), data@)
                && r@.len() == deflate_of(data@).len() + 8
                && final(self).hist() == old(self).hist() + r@
            ),
            (old(self).mode() is Decoding && !old(self).is_active()) ==> (
                if data@.len() == 0 {
                    r@ == Seq::<u8>::empty()
                } else {
                    r@ == decompressed_or_empty(data@, old(self).capacity())
                }
            ),
            (old(self).mode() is Decoding && old(self).is_active()) ==> (
                r@ == decoded_wire(old(self).key(), old(self).iv(), old(self).hist(),
                    old(self).counter(), old(self).capacity(), data@)
                && final(self).hist() == old(self).hist() + data@
            ),
            (old(self).mode() is Decoding && old(self).is_active()) ==> forall|p: Seq<u8>|
                (1 <= deflate_of(p).len()
                    && deflate_of(p).len() + 8 == data@.len()
                    && p.len() <= old(self).capacity()
                    && data@ == #[trigger] encoded_wire(old(self).key(), old(self).iv(),
                        old(self).hist(), old(self).counter(), p))
                ==> r@ == p,
    {
        if matches!(self.codec.current_mode(), Mode::Encoding) {
            let compressed = self.compressor.compress(&data);
            self.codec.process(compressed)
        } else {
            let ghost input = data@;
            let ghost key0 = old(self).key();
            let ghost iv0 = old(self).iv();
            let ghost hist0 = old(self).hist();
            let ghost counter0 = old(self).counter();
            let ghost active0 = old(self).is_active();
            let processed = self.codec.process(data);
            proof {
                if active0 {
                    assert forall|p: Seq<u8>|
                        1 <= deflate_of(p).len()
                            && deflate_of(p).len() + 8 == input.len()
                            && p.len() <= old(self).capacity()
                            && input == #[trigger] encoded_wire(key0, iv0, hist0, counter0, p)
                        implies processed@ == deflate_of(p) by {
                        assert(input == encoded_packet(key0, iv0, hist0, counter0, deflate_of(p)));
                    }
                }
            }
            if processed.is_empty() {
                Vec::new()
            } else {
                self.compressor.decompress(&processed, self.preallocate_size)
            }
        }
    }
}

} // verus!

