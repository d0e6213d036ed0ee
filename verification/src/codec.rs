//! The packet codec: owns the counter and the optional cipher state, tags
//! and encrypts outbound payloads, and decrypts and verifies inbound ones.
//!
//! With no cipher enabled the codec is an explicit passthrough: `process`
//! returns its input unchanged while the counter still advances. Once a
//! cipher is active, an outbound packet is `payload || tag` encrypted as a
//! whole, and an inbound packet is decrypted as a whole, split, and
//! rejected with the empty sentinel when the recomputed tag differs.

use vstd::prelude::*;
use crate::cipher::{StreamCipherState, KeyInitError, cfb8_encrypt_stream, cfb8_decrypt_stream};
use crate::digest::{tag_bytes, compute_tag, verify_tag};
use crate::bytes::{append_bytes, copy_bytes};

verus! {

/// The fixed direction of a codec: it either encodes outbound packets or
/// decodes inbound ones.
#[derive(Clone, Copy, Debug, PartialEq, Eq, Structural)]
pub enum Mode {
    Encoding,
    Decoding,
}

/// What an active codec turns an outbound payload into: the payload with
/// its 8-byte tag appended, encrypted as one buffer at the current
/// transcript position.
pub open spec fn encoded_packet(
    key: Seq<u8>,
    iv: Seq<u8>,
    hist: Seq<u8>,
    counter: i64,
    payload: Seq<u8>,
) -> Seq<u8> {
    cfb8_encrypt_stream(key, iv, hist, payload + tag_bytes(counter, payload, key))
}

/// What an active codec hands back for an inbound packet: the decrypted
/// payload when the recomputed tag matches the received one, and the empty
/// rejection sentinel otherwise.
pub open spec fn decoded_packet(
    key: Seq<u8>,
    iv: Seq<u8>,
    hist: Seq<u8>,
    counter: i64,
    data: Seq<u8>,
) -> Seq<u8> {
    let plain = cfb8_decrypt_stream(key, iv, hist, data);
    let payload = plain.take(data.len() - 8);
    let received_tag = plain.skip(data.len() - 8);
    if received_tag == tag_bytes(counter, payload, key) {
        payload
    } else {
        Seq::<u8>::empty()
    }
}

/// One direction's packet codec: the counter, and the cipher state with its
/// retained key bytes once encryption has been enabled.
pub struct PacketCodec {
    mode: Mode,
    counter: i64,
    cipher_state: Option<StreamCipherState>,
    key_material: Option<Vec<u8>>,
}

impl PacketCodec {
    /// The codec's fixed direction.
    pub closed spec fn mode(self) -> Mode {
        self.mode
    }

    /// The packet counter: how many packets this codec has processed.
    pub closed spec fn counter(self) -> i64 {
        self.counter
    }

    /// Whether a cipher has been successfully enabled.
    pub closed spec fn is_active(self) -> bool {
        self.cipher_state is Some
    }

    /// The key of the active cipher, also used as digest input.
    pub closed spec fn key(self) -> Seq<u8> {
        self.cipher_state->0.key()
    }

    /// The initialization vector of the active cipher.
    pub closed spec fn iv(self) -> Seq<u8> {
        self.cipher_state->0.iv()
    }

    /// The ciphertext transcript of the active cipher.
    pub closed spec fn hist(self) -> Seq<u8> {
        self.cipher_state->0.hist()
    }

    /// The counter never runs backwards, and the retained key bytes are the
    /// ones the active cipher was initialized with.
    pub closed spec fn wf(self) -> bool {
        &&& 0 <= self.counter
        &&& self.cipher_state is Some ==> (self.key_material is Some
            && self.key_material->0@ == self.cipher_state->0.key())
    }

    /// The codec's direction, readable at run time.
    pub fn current_mode(&self) -> (r: Mode)
        ensures
            r == self.mode(),
    {
        self.mode
    }

    /// The counter value, readable at run time.
    pub fn counter_value(&self) -> (r: i64)
        ensures
            r == self.counter(),
    {
        self.counter
    }

    /// Whether a cipher is active, readable at run time.
    pub fn is_enabled(&self) -> (r: bool)
        ensures
            r == self.is_active(),
    {
        self.cipher_state.is_some()
    }

    /// A fresh codec: passthrough, counter at zero.
    pub fn new(mode: Mode) -> (r: PacketCodec)
        ensures
            r.wf(),
            r.mode() == mode,
            r.counter() == 0,
            !r.is_active(),
    {
        PacketCodec { mode, counter: 0, cipher_state: None, key_material: None }
    }

    /// Enables the cipher with the given key and initialization vector.
    /// A key that is not 32 bytes, or an initialization vector that is not
    /// 16 bytes, is rejected and leaves the codec in passthrough mode; the
    /// counter is untouched either way.
    pub fn init_state(&mut self, key: &Vec<u8>, iv: &Vec<u8>) -> (r: Result<(), KeyInitError>)
        requires
            old(self).wf(),
        ensures
            final(self).wf(),
            final(self).mode() == old(self).mode(),
            final(self).counter() == old(self).counter(),
            r is Ok <==> (key@.len() == 32 && iv@.len() == 16),
            r is Ok ==> (final(self).is_active() && final(self).key() == key@
                && final(self).iv() == iv@ && final(self).hist() == Seq::<u8>::empty()),
            r is Err ==> !final(self).is_active(),
            r is Err ==> (r->Err_0 is InvalidKeyLength <==> key@.len() != 32),
    {
        match StreamCipherState::initialize(key, iv) {
            Ok(state) => {
                self.cipher_state = Some(state);
                self.key_material = Some(copy_bytes(key));
                Ok(())
            },
            Err(e) => {
                self.cipher_state = None;
                self.key_material = Some(copy_bytes(key));
                Err(e)
            },
        }
    }

    /// Processes one packet in this codec's direction. The counter advances
    /// by exactly one on every call. Passthrough returns the input
    /// unchanged. An active encoder returns the tagged, encrypted packet;
    /// an active decoder returns the authenticated payload, or the empty
    /// sentinel on a tag mismatch — and in particular returns exactly the
    /// original payload when handed what an encoder with the same key,
    /// initialization vector, and transcript produced at the same counter.
    pub fn process(&mut self, data: Vec<u8>) -> (r: Vec<u8>)
        requires
            old(self).wf(),
            old(self).counter() < i64::MAX,
            (old(self).is_active() && old(self).mode() is Decoding) ==> data@.len() >= 8,
        ensures
            final(self).wf(),
            final(self).mode() == old(self).mode(),
            final(self).counter() == old(self).counter() + 1,
            final(self).is_active() == old(self).is_active(),
            !old(self).is_active() ==> r@ == data@,
            old(self).is_active() ==> (final(self).key() == old(self).key()
                && final(self).iv() == old(self).iv()),
            (old(self).is_active() && old(self).mode() is Encoding) ==> (
                r@ == encoded_packet(old(self).key(), old(self).iv(), old(self).hist(),
                    old(self).counter(), data@)
                && r@.len() == data@.len() + 8
                && final(self).hist() == old(self).hist() + r@
            ),
            (old(self).is_active() && old(self).mode() is Decoding) ==> (
                r@ == decoded_packet(old(self).key(), old(self).iv(), old(self).hist(),
                    old(self).counter(), data@)
                && final(self).hist() == old(self).hist() + data@
            ),
            (old(self).is_active() && old(self).mode() is Decoding) ==> forall|p: Seq<u8>|
                (p.len() + 8 == data@.len()
                    && data@ == #[trigger] encoded_packet(old(self).key(), old(self).iv(),
                        old(self).hist(), old(self).counter(), p))
                ==> r@ == p,
    {
        if self.cipher_state.is_none() {
            self.counter = self.counter + 1;
            return data;
        }

        let current = self.counter;
        self.counter = self.counter + 1;

        let key = match &self.key_material {
            Some(k) => k,
            None => vstd::pervasive::unreached(),
        };
        let state = match &mut self.cipher_state {
            Some(s) => s,
            None => vstd::pervasive::unreached(),
        };

        if matches!(self.mode, Mode::Encoding) {
            let tag = compute_tag(current, &data, key);
            let mut buffer = data;
            append_bytes(&mut buffer, &tag);
            state.encrypt_in_place(&mut buffer);
            buffer
        } else {
            let ghost input = data@;
            let ghost key0 = old(self).key();
            let ghost iv0 = old(self).iv();
            let ghost hist0 = old(self).hist();
            let mut buffer = data;
            state.decrypt_in_place(&mut buffer);
            proof {
                assert forall|p: Seq<u8>|
                    p.len() + 8 == input.len()
                        && input == #[trigger] encoded_packet(key0, iv0, hist0, current, p)
                    implies buffer@.take(input.len() - 8) == p
                        && buffer@.skip(input.len() - 8) == tag_bytes(current, p, key0) by {
                    let whole = p + tag_bytes(current, p, key0);
                    assert(input == cfb8_encrypt_stream(key0, iv0, hist0, whole));
                    assert(buffer@ == whole);
                    assert(whole.take(p.len() as int) =~= p);
                    assert(whole.skip(p.len() as int) =~= tag_bytes(current, p, key0));
                }
            }

            let offset = buffer.len() - 8;
            let mut payload = buffer;
            let mut received_tag: Vec<u8> = Vec::new();
            let mut i: usize = offset;
            while i < payload.len()
                invariant
                    offset <= i <= payload@.len(),
                    received_tag@ == payload@.subrange(offset as int, i as int),
                decreases payload@.len() - i,
            {
                received_tag.push(payload[i]);
                proof {
                    assert(payload@.subrange(offset as int, i as int).push(payload@[i as int])
                        =~= payload@.subrange(offset as int, i + 1));
                }
                i += 1;
            }
            proof {
                assert(received_tag@ =~= payload@.skip(offset as int));
            }
            payload.truncate(offset);

            let expected_tag = compute_tag(current, &payload, key);
            if verify_tag(&expected_tag, &received_tag) {
                payload
            } else {
                Vec::new()
            }
        }
    }
}

} // verus!
