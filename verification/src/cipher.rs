//! The per-direction stream-cipher state: AES-256 in 8-bit cipher feedback
//! mode. The cipher's internal state is a function of the key, the
//! initialization vector, and the ciphertext bytes processed since
//! initialization, so the contracts speak of that transcript.

use vstd::prelude::*;
use cfb8::cipher::stream::{NewStreamCipher, StreamCipher};

verus! {

/// Holds the outside crate's cipher value; its generic signature keeps it
/// from being declared to the verifier directly, so it sits opaque in this
/// one-field struct and the functions below state what its methods do.
#[verifier::external_body]
pub struct CipherInner {
    inner: cfb8::Cfb8<aesni::Aes256>,
}

/// The key a cipher value was initialized with.
pub uninterp spec fn cipher_key(c: CipherInner) -> Seq<u8>;

/// The initialization vector a cipher value was initialized with.
pub uninterp spec fn cipher_iv(c: CipherInner) -> Seq<u8>;

/// The ciphertext bytes a cipher value has processed since initialization
/// (output when encrypting, input when decrypting); together with the key
/// and the initialization vector this determines its feedback register.
pub uninterp spec fn cipher_hist(c: CipherInner) -> Seq<u8>;

/// The ciphertext that AES-256-CFB8 produces for `data` under `key` and
/// `iv` after `hist` ciphertext bytes have already been processed.
pub uninterp spec fn cfb8_encrypt_stream(
    key: Seq<u8>,
    iv: Seq<u8>,
    hist: Seq<u8>,
    data: Seq<u8>,
) -> Seq<u8>;

/// The plaintext that AES-256-CFB8 recovers from `data` under `key` and
/// `iv` after `hist` ciphertext bytes have already been processed.
pub uninterp spec fn cfb8_decrypt_stream(
    key: Seq<u8>,
    iv: Seq<u8>,
    hist: Seq<u8>,
    data: Seq<u8>,
) -> Seq<u8>;

/// Relies on cfb8::Cfb8::<aesni::Aes256>::new_var: succeeds exactly when the
/// key is 32 bytes and the nonce is one 16-byte block, and starts with an
/// empty transcript.
#[verifier::external_body]
fn cfb8_new(key: &Vec<u8>, iv: &Vec<u8>) -> (r: Option<CipherInner>)
    ensures
        r is Some <==> (key@.len() == 32 && iv@.len() == 16),
        r is Some ==> (cipher_key(r->0) == key@ && cipher_iv(r->0) == iv@
            && cipher_hist(r->0) == Seq::<u8>::empty()),
{
    cfb8::Cfb8::<aesni::Aes256>::new_var(key.as_slice(), iv.as_slice())
        .ok()
        .map(|inner| CipherInner { inner })
}

/// Relies on cfb8::Cfb8::<aesni::Aes256>::encrypt (StreamCipher): encrypts
/// in place, one byte of output per byte of input, each output byte a
/// function of the key, the register, and the byte; the register then takes
/// in the output byte, so the transcript grows by the ciphertext produced.
#[verifier::external_body]
fn cfb8_encrypt(c: &mut CipherInner, data: &mut Vec<u8>)
    ensures
        final(data)@.len() == old(data)@.len(),
        final(data)@ == cfb8_encrypt_stream(
            cipher_key(*old(c)), cipher_iv(*old(c)), cipher_hist(*old(c)), old(data)@),
        cipher_key(*final(c)) == cipher_key(*old(c)),
        cipher_iv(*final(c)) == cipher_iv(*old(c)),
        cipher_hist(*final(c)) == cipher_hist(*old(c)) + final(data)@,
{
    c.inner.encrypt(data.as_mut_slice());
}

/// Relies on cfb8::Cfb8::<aesni::Aes256>::decrypt (StreamCipher): decrypts
/// in place, one byte per byte; the register takes in each input
/// (ciphertext) byte, so the transcript grows by the input. Decrypting what
/// encryption produced at the same transcript position yields the plaintext
/// back, byte for byte.
#[verifier::external_body]
fn cfb8_decrypt(c: &mut CipherInner, data: &mut Vec<u8>)
    ensures
        final(data)@.len() == old(data)@.len(),
        final(data)@ == cfb8_decrypt_stream(
            cipher_key(*old(c)), cipher_iv(*old(c)), cipher_hist(*old(c)), old(data)@),
        cipher_key(*final(c)) == cipher_key(*old(c)),
        cipher_iv(*final(c)) == cipher_iv(*old(c)),
        cipher_hist(*final(c)) == cipher_hist(*old(c)) + old(data)@,
        forall|p: Seq<u8>|
            old(data)@ == #[trigger] cfb8_encrypt_stream(
                cipher_key(*old(c)), cipher_iv(*old(c)), cipher_hist(*old(c)), p)
            ==> final(data)@ == p,
{
    c.inner.decrypt(data.as_mut_slice());
}

/// Why a cipher could not be initialized.
#[derive(Clone, Copy, Debug, PartialEq, Eq, Structural)]
pub enum KeyInitError {
    /// The key is not exactly 32 bytes.
    InvalidKeyLength,
    /// The initialization vector is not exactly 16 bytes.
    InvalidIvLength,
}

/// One direction's running keystream state.
pub struct StreamCipherState {
    cipher: CipherInner,
}

impl StreamCipherState {
    /// The key this state was initialized with.
    pub closed spec fn key(self) -> Seq<u8> {
        cipher_key(self.cipher)
    }

    /// The initialization vector this state was initialized with.
    pub closed spec fn iv(self) -> Seq<u8> {
        cipher_iv(self.cipher)
    }

    /// The ciphertext transcript this state has processed so far.
    pub closed spec fn hist(self) -> Seq<u8> {
        cipher_hist(self.cipher)
    }

    /// Sets up a fresh keystream state; rejects a key that is not 32 bytes
    /// or an initialization vector that is not 16 bytes.
    pub fn initialize(key: &Vec<u8>, iv: &Vec<u8>) -> (r: Result<StreamCipherState, KeyInitError>)
        ensures
            r is Ok <==> key@.len() == 32 && iv@.len() == 16,
            r is Ok ==> r->Ok_0.key() == key@ && r->Ok_0.iv() == iv@
                && r->Ok_0.hist() == Seq::<u8>::empty(),
            r is Err ==> (r->Err_0 is InvalidKeyLength <==> key@.len() != 32),
    {
        if key.len() != 32 {
            return Err(KeyInitError::InvalidKeyLength);
        }
        if iv.len() != 16 {
            return Err(KeyInitError::InvalidIvLength);
        }
        match cfb8_new(key, iv) {
            Some(cipher) => Ok(StreamCipherState { cipher }),
            None => vstd::pervasive::unreached(),
        }
    }

    /// Encrypts the buffer in place and advances the keystream by its length.
    pub fn encrypt_in_place(&mut self, buffer: &mut Vec<u8>)
        ensures
            final(buffer)@.len() == old(buffer)@.len(),
            final(buffer)@ == cfb8_encrypt_stream(
                old(self).key(), old(self).iv(), old(self).hist(), old(buffer)@),
            final(self).key() == old(self).key(),
            final(self).iv() == old(self).iv(),
            final(self).hist() == old(self).hist() + final(buffer)@,
    {
        cfb8_encrypt(&mut self.cipher, buffer);
    }

    /// Decrypts the buffer in place and advances the keystream by its
    /// length; inverts `encrypt_in_place` at the same transcript position.
    pub fn decrypt_in_place(&mut self, buffer: &mut Vec<u8>)
        ensures
            final(buffer)@.len() == old(buffer)@.len(),
            final(buffer)@ == cfb8_decrypt_stream(
                old(self).key(), old(self).iv(), old(self).hist(), old(buffer)@),
            final(self).key() == old(self).key(),
            final(self).iv() == old(self).iv(),
            final(self).hist() == old(self).hist() + old(buffer)@,
            forall|p: Seq<u8>|
                old(buffer)@ == #[trigger] cfb8_encrypt_stream(
                    old(self).key(), old(self).iv(), old(self).hist(), p)
                ==> final(buffer)@ == p,
    {
        cfb8_decrypt(&mut self.cipher, buffer);
    }
}

} // verus!
