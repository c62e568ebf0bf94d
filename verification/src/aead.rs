//! The symmetric primitives used for note encryption: ChaCha20-Poly1305 with
//! a zero nonce and empty associated data, and the raw ChaCha20 keystream
//! used by compact decryption.
//!
//! ChaCha20-Poly1305 derives its Poly1305 key from block 0 of the ChaCha20
//! keystream and encrypts the payload starting at block 1 (byte offset 64) of
//! the same stream; compact decryption therefore seeks the raw stream to
//! byte 64. Both facts are reflected in the contracts below, which share the
//! [`chacha20_keystream_byte`] model between the AEAD and the raw cipher.

use chacha20::ChaCha20;
use cipher::{KeyIvInit, StreamCipher, StreamCipherSeek};
use chacha20poly1305::aead::AeadInPlace;
use chacha20poly1305::{ChaCha20Poly1305, KeyInit};
use vstd::prelude::*;

verus! {

/// The byte at position `i` of the ChaCha20 keystream for `key` under the
/// all-zero 12-byte nonce. This names the output of `chacha20::ChaCha20`,
/// which is also the stream that `chacha20poly1305` applies to its payload
/// (its cipher is built from the very same `ChaCha20` instance).
pub uninterp spec fn chacha20_keystream_byte(key: Seq<u8>, i: nat) -> u8;

/// The 16-byte Poly1305 authentication tag that ChaCha20-Poly1305 computes
/// over `ciphertext` under `key`, with the all-zero nonce and empty
/// associated data. It is a function of the key and the ciphertext alone.
pub uninterp spec fn poly1305_tag(key: Seq<u8>, ciphertext: Seq<u8>) -> [u8; 16];

/// `data` XORed against the ChaCha20 keystream for `key`, starting at stream
/// position `offset`.
pub open spec fn xor_keystream(key: Seq<u8>, offset: nat, data: Seq<u8>) -> Seq<u8> {
    Seq::new(data.len(), |i: int| data[i] ^ chacha20_keystream_byte(key, (offset + i) as nat))
}

/// The sealed form of `plaintext` under `key`: the payload XORed from stream
/// block 1 onwards, followed by the 16-byte tag over that ciphertext.
pub open spec fn aead_seal(key: Seq<u8>, plaintext: Seq<u8>) -> Seq<u8> {
    let body = xor_keystream(key, 64, plaintext);
    body + poly1305_tag(key, body)@
}

/// Applying the keystream twice at the same offset gives the data back.
pub proof fn lemma_xor_keystream_involutive(key: Seq<u8>, offset: nat, data: Seq<u8>)
    ensures
        xor_keystream(key, offset, xor_keystream(key, offset, data)) == data,
{
    let twice = xor_keystream(key, offset, xor_keystream(key, offset, data));
    assert forall|i: int| 0 <= i < data.len() implies twice[i] == data[i] by {
        let d = data[i];
        let k = chacha20_keystream_byte(key, (offset + i) as nat);
        assert((d ^ k) ^ k == d) by (bit_vector);
    }
    assert(twice =~= data);
}

/// A prefix of the keystream-XORed data is the keystream-XOR of the prefix.
pub proof fn lemma_xor_keystream_take(key: Seq<u8>, offset: nat, data: Seq<u8>, n: int)
    requires
        0 <= n <= data.len(),
    ensures
        xor_keystream(key, offset, data).take(n) == xor_keystream(key, offset, data.take(n)),
{
    assert(xor_keystream(key, offset, data).take(n) =~= xor_keystream(key, offset, data.take(n)));
}

/// Relies on `chacha20poly1305::ChaCha20Poly1305::encrypt_in_place_detached`
/// with the all-zero nonce and empty associated data: it XORs the buffer with
/// the ChaCha20 keystream starting at block 1, and returns the Poly1305 tag
/// computed over the resulting ciphertext. It fails only when the buffer is
/// longer than the ChaCha20 counter allows, which the precondition rules out.
#[verifier::external_body]
pub(crate) fn aead_encrypt_detached(key: &[u8; 32], buf: &mut Vec<u8>) -> (tag: [u8; 16])
    requires
        old(buf)@.len() <= 0xffff_ffff,
    ensures
        final(buf)@ == xor_keystream(key@, 64, old(buf)@),
        tag == poly1305_tag(key@, final(buf)@),
{
    let tag = ChaCha20Poly1305::new(key.into())
        .encrypt_in_place_detached([0u8; 12][..].into(), &[], buf.as_mut_slice())
        .expect("the buffer fits within the ChaCha20 counter range");
    tag.into()
}

/// Relies on `chacha20poly1305::ChaCha20Poly1305::decrypt_in_place_detached`
/// with the all-zero nonce and empty associated data: it recomputes the
/// Poly1305 tag over the ciphertext exactly as encryption does, compares it
/// against `tag` in constant time, and only on success XORs the buffer with
/// the same keystream; on failure the buffer is left untouched.
#[verifier::external_body]
pub(crate) fn aead_decrypt_detached(key: &[u8; 32], buf: &mut Vec<u8>, tag: &[u8; 16]) -> (ok: bool)
    requires
        old(buf)@.len() <= 0xffff_ffff,
    ensures
        ok == (tag@ == poly1305_tag(key@, old(buf)@)@),
        ok ==> final(buf)@ == xor_keystream(key@, 64, old(buf)@),
        !ok ==> final(buf)@ == old(buf)@,
{
    ChaCha20Poly1305::new(key.into())
        .decrypt_in_place_detached([0u8; 12][..].into(), &[], buf.as_mut_slice(), tag.into())
        .is_ok()
}

/// Relies on `chacha20::ChaCha20` with the all-zero nonce: after seeking to
/// byte 64 (stream block 1), `apply_keystream` XORs the buffer with the
/// keystream from that position, the same bytes the AEAD applies to its
/// payload.
#[verifier::external_body]
pub(crate) fn chacha20_xor_from_block_one(key: &[u8; 32], buf: &mut Vec<u8>)
    requires
        old(buf)@.len() <= 0xffff_ffff,
    ensures
        final(buf)@.len() == old(buf)@.len(),
        forall|i: int|
            0 <= i < old(buf)@.len() ==> final(buf)@[i] == (old(buf)@[i] ^ chacha20_keystream_byte(
                key@,
                (64 + i) as nat,
            )),
        final(buf)@ == xor_keystream(key@, 64, old(buf)@),
{
    let mut cipher = ChaCha20::new(key.into(), [0u8; 12][..].into());
    cipher.seek(64u64);
    cipher.apply_keystream(buf.as_mut_slice());
}

} // verus!
