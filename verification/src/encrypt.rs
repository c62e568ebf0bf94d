//! The note encryption context.

use vstd::prelude::*;

use crate::aead::{aead_encrypt_detached, aead_seal};
use crate::domain::Domain;
use crate::note_bytes::NoteBytes;
use crate::{OutPlaintextBytes, OutgoingCipherKey, AEAD_TAG_SIZE, OUT_CIPHERTEXT_SIZE, OUT_PLAINTEXT_SIZE};

verus! {

/// The symmetric key under which a note plaintext is sealed: the KDF applied
/// to the sender-side shared secret and the encoding of `epk`.
pub open spec fn note_encryption_key<D: Domain>(
    note: D::Note,
    esk: D::EphemeralSecretKey,
    epk: D::EphemeralPublicKey,
) -> Seq<u8> {
    D::s_kdf(D::s_ka_agree_enc(esk, D::s_pk_d(note)), D::s_epk_bytes(epk))
}

/// A context that binds a fresh ephemeral keypair to a specific note, memo
/// and optional outgoing viewing key, and produces the two ciphertexts of a
/// shielded output.
#[verifier::reject_recursive_types(D)]
pub struct NoteEncryption<D: Domain> {
    epk: D::EphemeralPublicKey,
    esk: D::EphemeralSecretKey,
    note: D::Note,
    memo: D::Memo,
    /// `None` represents the absent outgoing viewing key.
    ovk: Option<D::OutgoingViewingKey>,
}

impl<D: Domain> NoteEncryption<D> {
    /// The ephemeral public key bound to this context.
    pub closed spec fn epk_spec(self) -> D::EphemeralPublicKey {
        self.epk
    }

    /// The ephemeral secret key bound to this context.
    pub closed spec fn esk_spec(self) -> D::EphemeralSecretKey {
        self.esk
    }

    /// The note this context encrypts.
    pub closed spec fn note_spec(self) -> D::Note {
        self.note
    }

    /// The memo this context encrypts.
    pub closed spec fn memo_spec(self) -> D::Memo {
        self.memo
    }

    /// The outgoing viewing key held by this context, if any.
    pub closed spec fn ovk_spec(self) -> Option<D::OutgoingViewingKey> {
        self.ovk
    }

    /// Constructs a new note encryption context for the given note,
    /// recipient and memo.
    ///
    /// The note must carry a deterministic ephemeral secret key (ZIP 212);
    /// for earlier notes use [`Self::new_with_esk`].
    pub fn new(ovk: Option<D::OutgoingViewingKey>, note: D::Note, memo: D::Memo) -> (r: Self)
        requires
            D::s_derive_esk(note) is Some,
        ensures
            r.note_spec() == note,
            r.memo_spec() == memo,
            r.ovk_spec() == ovk,
            Some(r.esk_spec()) == D::s_derive_esk(note),
            r.epk_spec() == D::s_ka_derive_public(note, r.esk_spec()),
    {
        let esk = D::derive_esk(&note).unwrap();
        let epk = D::ka_derive_public(&note, &esk);
        NoteEncryption { epk, esk, note, memo, ovk }
    }

    /// Constructs a note encryption context with an externally supplied
    /// ephemeral secret key, to exercise decryption of notes that predate
    /// ZIP 212.
    pub fn new_with_esk(
        esk: D::EphemeralSecretKey,
        ovk: Option<D::OutgoingViewingKey>,
        note: D::Note,
        memo: D::Memo,
    ) -> (r: Self)
        ensures
            r.note_spec() == note,
            r.memo_spec() == memo,
            r.ovk_spec() == ovk,
            r.esk_spec() == esk,
            r.epk_spec() == D::s_ka_derive_public(note, esk),
    {
        let epk = D::ka_derive_public(&note, &esk);
        NoteEncryption { epk, esk, note, memo, ovk }
    }

    /// Exposes the ephemeral secret key being used to encrypt this note.
    pub fn esk(&self) -> (r: &D::EphemeralSecretKey)
        ensures
            *r == self.esk_spec(),
    {
        &self.esk
    }

    /// Exposes the ephemeral public key being used to encrypt this note.
    pub fn epk(&self) -> (r: &D::EphemeralPublicKey)
        ensures
            *r == self.epk_spec(),
    {
        &self.epk
    }

    /// Generates `encCiphertext` for this note: the encoded note plaintext,
    /// sealed under the key agreed between `esk` and the recipient's
    /// transmission key.
    pub fn encrypt_note_plaintext(&self) -> (r: D::NoteCiphertextBytes)
        ensures
            r.bytes() == aead_seal(
                note_encryption_key::<D>(self.note_spec(), self.esk_spec(), self.epk_spec()),
                D::s_note_plaintext_bytes(self.note_spec(), self.memo_spec()),
            ),
    {
        proof {
            D::law_sizes();
        }
        let pk_d = D::get_pk_d(&self.note);
        let shared_secret = D::ka_agree_enc(&self.esk, &pk_d);
        let epk_bytes = D::epk_bytes(&self.epk);
        let key = D::kdf(shared_secret, &epk_bytes);
        let input = D::note_plaintext_bytes(&self.note, &self.memo);
        let mut buf = vstd::slice::slice_to_vec(input.as_slice());
        let tag = aead_encrypt_detached(&key, &mut buf);
        D::parse_note_ciphertext_bytes(buf.as_slice(), &tag).unwrap()
    }

    /// Generates `outCiphertext` for this note.
    ///
    /// When the context holds an outgoing viewing key, the outgoing
    /// plaintext is sealed under the derived outgoing cipher key, so the
    /// result is a deterministic function of the context and the output's
    /// public data. When it holds none, both the cipher key and the
    /// plaintext are drawn from the caller's generator, which preserves the
    /// shape of the output while making it unrecoverable.
    pub fn encrypt_outgoing_plaintext<R: rand_core::RngCore>(
        &self,
        cv: &D::ValueCommitment,
        cmstar: &D::ExtractedCommitment,
        rng: &mut R,
    ) -> (r: [u8; OUT_CIPHERTEXT_SIZE])
        ensures
            self.ovk_spec() matches Some(ovk) ==> r@ == aead_seal(
                D::s_derive_ock(
                    ovk,
                    *cv,
                    D::s_cmstar_bytes(*cmstar),
                    D::s_epk_bytes(self.epk_spec()),
                ),
                D::s_outgoing_plaintext_bytes(self.note_spec(), self.esk_spec()),
            ),
    {
        let (ock, input): (OutgoingCipherKey, OutPlaintextBytes) = match &self.ovk {
            Some(ovk) => {
                let cmstar_bytes = D::cmstar_to_bytes(cmstar);
                let epk_bytes = D::epk_bytes(&self.epk);
                (
                    D::derive_ock(ovk, cv, &cmstar_bytes, &epk_bytes),
                    D::outgoing_plaintext_bytes(&self.note, &self.esk),
                )
            },
            None => {
                let mut ock_bytes: Vec<u8> = vec![0u8; 32];
                rng_fill_bytes(rng, &mut ock_bytes);
                let mut input_bytes: Vec<u8> = vec![0u8; OUT_PLAINTEXT_SIZE];
                rng_fill_bytes(rng, &mut input_bytes);
                let mut ock_arr = [0u8; 32];
                for i in 0..32
                    invariant
                        ock_bytes@.len() == 32,
                        ock_arr@.len() == 32,
                {
                    ock_arr[i] = ock_bytes[i];
                }
                let mut input_arr = [0u8; OUT_PLAINTEXT_SIZE];
                for i in 0..OUT_PLAINTEXT_SIZE
                    invariant
                        input_bytes@.len() == OUT_PLAINTEXT_SIZE,
                        input_arr@.len() == OUT_PLAINTEXT_SIZE,
                {
                    input_arr[i] = input_bytes[i];
                }
                (OutgoingCipherKey(ock_arr), OutPlaintextBytes(input_arr))
            },
        };
        let mut buf = vstd::slice::slice_to_vec(input.0.as_slice());
        let tag = aead_encrypt_detached(&ock.0, &mut buf);
        let mut output = [0u8; OUT_CIPHERTEXT_SIZE];
        for i in 0..OUT_PLAINTEXT_SIZE
            invariant
                buf@.len() == OUT_PLAINTEXT_SIZE,
                output@.len() == OUT_CIPHERTEXT_SIZE,
                forall|j: int| 0 <= j < i ==> output@[j] == buf@[j],
        {
            output[i] = buf[i];
        }
        for i in 0..AEAD_TAG_SIZE
            invariant
                buf@.len() == OUT_PLAINTEXT_SIZE,
                tag@.len() == AEAD_TAG_SIZE,
                output@.len() == OUT_CIPHERTEXT_SIZE,
                forall|j: int| 0 <= j < OUT_PLAINTEXT_SIZE ==> output@[j] == buf@[j],
                forall|j: int| 0 <= j < i ==> output@[OUT_PLAINTEXT_SIZE + j] == tag@[j],
        {
            output[OUT_PLAINTEXT_SIZE + i] = tag[i];
        }
        proof {
            assert(output@ =~= buf@ + tag@);
        }
        output
    }
}

/// Relies on `rand_core::RngCore::fill_bytes`: it overwrites the buffer with
/// bytes from the caller's generator. Nothing can be promised of their
/// values, only that the buffer keeps its length.
#[verifier::external_body]
fn rng_fill_bytes<R: rand_core::RngCore>(rng: &mut R, buf: &mut Vec<u8>)
    ensures
        final(buf)@.len() == old(buf)@.len(),
{
    rng.fill_bytes(buf.as_mut_slice());
}

} // verus!
