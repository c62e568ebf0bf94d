//! The protocol-polymorphism seam: everything that differs between the
//! Sapling and Orchard instantiations of note encryption.
//!
//! Each executable capability of [`Domain`] is paired with a spec-level
//! model function; implementations must make the executable method agree
//! with the model, and the note encryption and trial decryption logic in
//! this crate is verified against the models alone.

use vstd::prelude::*;

use crate::note_bytes::NoteBytes;
use crate::{EphemeralKeyBytes, ExtractedCommitmentBytes, OutPlaintextBytes, OutgoingCipherKey};

verus! {

/// Protocol-specific note encryption types and logic.
///
/// The spec functions (`s_*`) form the mathematical model of the protocol;
/// each executable method promises to compute its model, so everything
/// proved about the encryption and decryption entrypoints holds for any
/// implementation that keeps those promises. Each model function defaults
/// to an unspecified value; a verified implementation overrides the models
/// with its own definitions (the method contracts are unprovable against
/// the defaults). Implementations must also establish
/// [`Domain::law_sizes`], which ties the widths of the four byte-buffer
/// types together.
pub trait Domain: Sized {
    type EphemeralSecretKey;

    type EphemeralPublicKey;

    type PreparedEphemeralPublicKey;

    type SharedSecret;

    type Note;

    type Recipient;

    type DiversifiedTransmissionKey;

    type IncomingViewingKey;

    type OutgoingViewingKey;

    type ValueCommitment;

    type ExtractedCommitment;

    type Memo;

    type NotePlaintextBytes: NoteBytes;

    type NoteCiphertextBytes: NoteBytes;

    type CompactNotePlaintextBytes: NoteBytes;

    type CompactNoteCiphertextBytes: NoteBytes;

    /// Model of [`Self::derive_esk`].
    open spec fn s_derive_esk(note: Self::Note) -> Option<Self::EphemeralSecretKey> {
        arbitrary()
    }

    /// Model of [`Self::get_pk_d`].
    open spec fn s_pk_d(note: Self::Note) -> Self::DiversifiedTransmissionKey {
        arbitrary()
    }

    /// Model of [`Self::prepare_epk`].
    open spec fn s_prepare_epk(epk: Self::EphemeralPublicKey) -> Self::PreparedEphemeralPublicKey {
        arbitrary()
    }

    /// Model of [`Self::ka_derive_public`].
    open spec fn s_ka_derive_public(
        note: Self::Note,
        esk: Self::EphemeralSecretKey,
    ) -> Self::EphemeralPublicKey {
        arbitrary()
    }

    /// Model of [`Self::ka_agree_enc`].
    open spec fn s_ka_agree_enc(
        esk: Self::EphemeralSecretKey,
        pk_d: Self::DiversifiedTransmissionKey,
    ) -> Self::SharedSecret {
        arbitrary()
    }

    /// Model of [`Self::ka_agree_dec`].
    open spec fn s_ka_agree_dec(
        ivk: Self::IncomingViewingKey,
        epk: Self::PreparedEphemeralPublicKey,
    ) -> Self::SharedSecret {
        arbitrary()
    }

    /// Model of [`Self::kdf`].
    open spec fn s_kdf(secret: Self::SharedSecret, ephemeral_key: Seq<u8>) -> Seq<u8> {
        arbitrary()
    }

    /// Model of [`Self::note_plaintext_bytes`].
    open spec fn s_note_plaintext_bytes(note: Self::Note, memo: Self::Memo) -> Seq<u8> {
        arbitrary()
    }

    /// Model of [`Self::derive_ock`].
    open spec fn s_derive_ock(
        ovk: Self::OutgoingViewingKey,
        cv: Self::ValueCommitment,
        cmstar_bytes: Seq<u8>,
        ephemeral_key: Seq<u8>,
    ) -> Seq<u8> {
        arbitrary()
    }

    /// Model of [`Self::outgoing_plaintext_bytes`].
    open spec fn s_outgoing_plaintext_bytes(
        note: Self::Note,
        esk: Self::EphemeralSecretKey,
    ) -> Seq<u8> {
        arbitrary()
    }

    /// Model of [`Self::epk_bytes`].
    open spec fn s_epk_bytes(epk: Self::EphemeralPublicKey) -> Seq<u8> {
        arbitrary()
    }

    /// Model of [`Self::epk`].
    open spec fn s_epk(ephemeral_key: Seq<u8>) -> Option<Self::EphemeralPublicKey> {
        arbitrary()
    }

    /// Model of [`Self::cmstar`].
    open spec fn s_cmstar(note: Self::Note) -> Self::ExtractedCommitment {
        arbitrary()
    }

    /// Model of [`Self::cmstar_to_bytes`].
    open spec fn s_cmstar_bytes(cmstar: Self::ExtractedCommitment) -> Seq<u8> {
        arbitrary()
    }

    /// Model of [`Self::parse_note_plaintext_without_memo_ivk`].
    open spec fn s_parse_note_plaintext_without_memo_ivk(
        self,
        ivk: Self::IncomingViewingKey,
        plaintext: Seq<u8>,
    ) -> Option<(Self::Note, Self::Recipient)> {
        arbitrary()
    }

    /// Model of [`Self::parse_note_plaintext_without_memo_ovk`].
    open spec fn s_parse_note_plaintext_without_memo_ovk(
        self,
        pk_d: Self::DiversifiedTransmissionKey,
        plaintext: Seq<u8>,
    ) -> Option<(Self::Note, Self::Recipient)> {
        arbitrary()
    }

    /// Model of [`Self::split_plaintext_at_memo`].
    open spec fn s_split_plaintext_at_memo(self, plaintext: Seq<u8>) -> Option<
        (Seq<u8>, Self::Memo),
    > {
        arbitrary()
    }

    /// Model of [`Self::extract_pk_d`].
    open spec fn s_extract_pk_d(out_plaintext: Seq<u8>) -> Option<Self::DiversifiedTransmissionKey> {
        arbitrary()
    }

    /// Model of [`Self::extract_esk`].
    open spec fn s_extract_esk(out_plaintext: Seq<u8>) -> Option<Self::EphemeralSecretKey> {
        arbitrary()
    }

    /// The widths of the byte-buffer types are coherent: a note ciphertext
    /// is a note plaintext plus the 16-byte tag, a compact ciphertext is as
    /// wide as a compact plaintext, the compact plaintext is no wider than
    /// the full one, and everything fits comfortably in memory.
    proof fn law_sizes()
        ensures
            <Self::NoteCiphertextBytes as NoteBytes>::spec_len()
                == <Self::NotePlaintextBytes as NoteBytes>::spec_len() + 16,
            <Self::CompactNoteCiphertextBytes as NoteBytes>::spec_len()
                == <Self::CompactNotePlaintextBytes as NoteBytes>::spec_len(),
            <Self::CompactNotePlaintextBytes as NoteBytes>::spec_len()
                <= <Self::NotePlaintextBytes as NoteBytes>::spec_len(),
            <Self::NotePlaintextBytes as NoteBytes>::spec_len() + 16 <= 0xffff_ffff,
    ;

    /// Derives the ephemeral secret key corresponding to this note.
    ///
    /// Returns `None` when the note predates ZIP 212 and has no
    /// deterministic ephemeral secret key.
    fn derive_esk(note: &Self::Note) -> (r: Option<Self::EphemeralSecretKey>)
        ensures
            r == Self::s_derive_esk(*note),
    ;

    /// Extracts the diversified transmission key from the note.
    fn get_pk_d(note: &Self::Note) -> (r: Self::DiversifiedTransmissionKey)
        ensures
            r == Self::s_pk_d(*note),
    ;

    /// Prepares an ephemeral public key for repeated scalar multiplication.
    fn prepare_epk(epk: Self::EphemeralPublicKey) -> (r: Self::PreparedEphemeralPublicKey)
        ensures
            r == Self::s_prepare_epk(epk),
    ;

    /// Derives the ephemeral public key from `esk` and the note's
    /// diversifier.
    fn ka_derive_public(note: &Self::Note, esk: &Self::EphemeralSecretKey) -> (r:
        Self::EphemeralPublicKey)
        ensures
            r == Self::s_ka_derive_public(*note, *esk),
    ;

    /// Derives the shared secret from the sender's information.
    fn ka_agree_enc(esk: &Self::EphemeralSecretKey, pk_d: &Self::DiversifiedTransmissionKey) -> (r:
        Self::SharedSecret)
        ensures
            r == Self::s_ka_agree_enc(*esk, *pk_d),
    ;

    /// Derives the shared secret from the recipient's information.
    fn ka_agree_dec(
        ivk: &Self::IncomingViewingKey,
        epk: &Self::PreparedEphemeralPublicKey,
    ) -> (r: Self::SharedSecret)
        ensures
            r == Self::s_ka_agree_dec(*ivk, *epk),
    ;

    /// Derives the 32-byte symmetric key used to encrypt the note plaintext.
    fn kdf(secret: Self::SharedSecret, ephemeral_key: &EphemeralKeyBytes) -> (r: [u8; 32])
        ensures
            r@ == Self::s_kdf(secret, ephemeral_key@),
    ;

    /// Encodes the given note and memo as a note plaintext.
    fn note_plaintext_bytes(note: &Self::Note, memo: &Self::Memo) -> (r: Self::NotePlaintextBytes)
        ensures
            r.bytes() == Self::s_note_plaintext_bytes(*note, *memo),
    ;

    /// Derives the outgoing cipher key for an encrypted note.
    fn derive_ock(
        ovk: &Self::OutgoingViewingKey,
        cv: &Self::ValueCommitment,
        cmstar_bytes: &ExtractedCommitmentBytes,
        ephemeral_key: &EphemeralKeyBytes,
    ) -> (r: OutgoingCipherKey)
        ensures
            r@ == Self::s_derive_ock(*ovk, *cv, cmstar_bytes@, ephemeral_key@),
    ;

    /// Encodes the outgoing plaintext (`pk_d` followed by `esk`) for the
    /// given note.
    fn outgoing_plaintext_bytes(note: &Self::Note, esk: &Self::EphemeralSecretKey) -> (r:
        OutPlaintextBytes)
        ensures
            r@ == Self::s_outgoing_plaintext_bytes(*note, *esk),
    ;

    /// Returns the canonical byte encoding of the ephemeral public key.
    fn epk_bytes(epk: &Self::EphemeralPublicKey) -> (r: EphemeralKeyBytes)
        ensures
            r@ == Self::s_epk_bytes(*epk),
    ;

    /// Attempts to parse `ephemeral_key` as an ephemeral public key,
    /// rejecting invalid encodings.
    fn epk(ephemeral_key: &EphemeralKeyBytes) -> (r: Option<Self::EphemeralPublicKey>)
        ensures
            r == Self::s_epk(ephemeral_key@),
    ;

    /// Derives the extracted commitment for this note.
    fn cmstar(note: &Self::Note) -> (r: Self::ExtractedCommitment)
        ensures
            r == Self::s_cmstar(*note),
    ;

    /// Returns the 32-byte representation of an extracted commitment.
    fn cmstar_to_bytes(cmstar: &Self::ExtractedCommitment) -> (r: ExtractedCommitmentBytes)
        ensures
            r@ == Self::s_cmstar_bytes(*cmstar),
    ;

    /// Parses the given compact note plaintext from the recipient's
    /// perspective, rejecting malformed or contextually invalid encodings.
    ///
    /// `&self` carries the decryption context, so that rules that become
    /// active at a given block height (such as ZIP 212) can be enforced.
    fn parse_note_plaintext_without_memo_ivk(
        &self,
        ivk: &Self::IncomingViewingKey,
        plaintext: &Self::CompactNotePlaintextBytes,
    ) -> (r: Option<(Self::Note, Self::Recipient)>)
        ensures
            r == self.s_parse_note_plaintext_without_memo_ivk(*ivk, plaintext.bytes()),
    ;

    /// Parses the given compact note plaintext from the sender's
    /// perspective, rejecting malformed or contextually invalid encodings.
    fn parse_note_plaintext_without_memo_ovk(
        &self,
        pk_d: &Self::DiversifiedTransmissionKey,
        plaintext: &Self::CompactNotePlaintextBytes,
    ) -> (r: Option<(Self::Note, Self::Recipient)>)
        ensures
            r == self.s_parse_note_plaintext_without_memo_ovk(*pk_d, plaintext.bytes()),
    ;

    /// Splits a note plaintext into its compact part (holding the note) and
    /// the memo field.
    fn split_plaintext_at_memo(&self, plaintext: &Self::NotePlaintextBytes) -> (r: Option<
        (Self::CompactNotePlaintextBytes, Self::Memo),
    >)
        ensures
            r is Some <==> self.s_split_plaintext_at_memo(plaintext.bytes()) is Some,
            r matches Some((compact, memo)) ==> match self.s_split_plaintext_at_memo(
                plaintext.bytes(),
            ) {
                Some((compact_s, memo_s)) => compact.bytes() == compact_s && memo == memo_s,
                None => false,
            },
    ;

    /// Parses the diversified transmission key field of an outgoing
    /// plaintext.
    fn extract_pk_d(out_plaintext: &OutPlaintextBytes) -> (r: Option<
        Self::DiversifiedTransmissionKey,
    >)
        ensures
            r == Self::s_extract_pk_d(out_plaintext@),
    ;

    /// Parses the ephemeral secret key field of an outgoing plaintext.
    fn extract_esk(out_plaintext: &OutPlaintextBytes) -> (r: Option<Self::EphemeralSecretKey>)
        ensures
            r == Self::s_extract_esk(out_plaintext@),
    ;

    /// Compares two ephemeral secret keys in constant time.
    fn esk_ct_eq(a: &Self::EphemeralSecretKey, b: &Self::EphemeralSecretKey) -> (r: bool)
        ensures
            r == (*a == *b),
    ;

    /// Parses the given note plaintext bytes, enforcing the exact width.
    fn parse_note_plaintext_bytes(plaintext: &[u8]) -> (r: Option<Self::NotePlaintextBytes>)
        ensures
            r is Some <==> plaintext@.len() == <Self::NotePlaintextBytes as NoteBytes>::spec_len(),
            r matches Some(b) ==> b.bytes() == plaintext@,
    {
        <Self::NotePlaintextBytes as NoteBytes>::from_slice(plaintext)
    }

    /// Parses the given note ciphertext body and authentication tag,
    /// enforcing the exact width.
    fn parse_note_ciphertext_bytes(output: &[u8], tag: &[u8; 16]) -> (r: Option<
        Self::NoteCiphertextBytes,
    >)
        ensures
            r is Some <==> output@.len() + 16 == <Self::NoteCiphertextBytes as NoteBytes>::spec_len(),
            r matches Some(b) ==> b.bytes() == output@ + tag@,
    {
        <Self::NoteCiphertextBytes as NoteBytes>::from_slice_with_tag(output, tag)
    }

    /// Parses the given compact note plaintext bytes, enforcing the exact
    /// width.
    fn parse_compact_note_plaintext_bytes(plaintext: &[u8]) -> (r: Option<
        Self::CompactNotePlaintextBytes,
    >)
        ensures
            r is Some <==> plaintext@.len() == <Self::CompactNotePlaintextBytes as NoteBytes>::spec_len(),
            r matches Some(b) ==> b.bytes() == plaintext@,
    {
        <Self::CompactNotePlaintextBytes as NoteBytes>::from_slice(plaintext)
    }
}

/// Protocol-specific batch trial decryption logic.
///
/// Each batchable operation has a default implementation that calls through
/// to the non-batched one; domains may override whichever operations benefit
/// from amortization, but every implementation is bound to the same
/// contract: outputs align positionally with inputs, and a `None` input
/// yields a `None` output at the same position.
pub trait BatchDomain: Domain {
    /// Computes [`Domain::kdf`] on a batch of items.
    fn batch_kdf(items: Vec<(Option<Self::SharedSecret>, EphemeralKeyBytes)>) -> (r: Vec<
        Option<[u8; 32]>,
    >)
        ensures
            r@.len() == items@.len(),
            forall|i: int|
                0 <= i < items@.len() ==> match (#[trigger] r@[i], items@[i].0) {
                    (Some(key), Some(secret)) => key@ == Self::s_kdf(secret, items@[i].1@),
                    (None, None) => true,
                    _ => false,
                },
    {
        let mut rest = items;
        let ghost all = rest@;
        let mut out: Vec<Option<[u8; 32]>> = Vec::new();
        while rest.len() > 0
            invariant
                out@.len() + rest@.len() == all.len(),
                rest@ == all.skip(out@.len() as int),
                forall|i: int|
                    0 <= i < out@.len() ==> match (#[trigger] out@[i], all[i].0) {
                        (Some(key), Some(secret)) => key@ == Self::s_kdf(secret, all[i].1@),
                        (None, None) => true,
                        _ => false,
                    },
            decreases rest@.len(),
        {
            let ghost done = out@.len() as int;
            let (secret, ephemeral_key) = rest.remove(0);
            proof {
                assert(all.skip(done).remove(0) =~= all.skip(done + 1));
            }
            match secret {
                Some(secret) => {
                    let key = Self::kdf(secret, &ephemeral_key);
                    out.push(Some(key));
                },
                None => {
                    out.push(None);
                },
            }
        }
        proof {
            assert(out@.len() == items@.len());
        }
        out
    }

    /// Computes [`Domain::epk`] followed by [`Domain::prepare_epk`] on a
    /// batch of ephemeral keys, returning each key beside the result of
    /// parsing it.
    fn batch_epk(ephemeral_keys: Vec<EphemeralKeyBytes>) -> (r: Vec<
        (Option<Self::PreparedEphemeralPublicKey>, EphemeralKeyBytes),
    >)
        ensures
            r@.len() == ephemeral_keys@.len(),
            forall|i: int|
                0 <= i < ephemeral_keys@.len() ==> (#[trigger] r@[i]).1 == ephemeral_keys@[i],
            forall|i: int|
                0 <= i < ephemeral_keys@.len() ==> match (
                    (#[trigger] r@[i]).0,
                    Self::s_epk(ephemeral_keys@[i]@),
                ) {
                    (Some(prepared), Some(epk)) => prepared == Self::s_prepare_epk(epk),
                    (None, None) => true,
                    _ => false,
                },
    {
        let n = ephemeral_keys.len();
        let mut out: Vec<(Option<Self::PreparedEphemeralPublicKey>, EphemeralKeyBytes)> =
            Vec::new();
        for idx in 0..n
            invariant
                n == ephemeral_keys@.len(),
                out@.len() == idx,
                forall|i: int| 0 <= i < idx ==> (#[trigger] out@[i]).1 == ephemeral_keys@[i],
                forall|i: int|
                    0 <= i < idx ==> match ((#[trigger] out@[i]).0, Self::s_epk(
                        ephemeral_keys@[i]@,
                    )) {
                        (Some(prepared), Some(epk)) => prepared == Self::s_prepare_epk(epk),
                        (None, None) => true,
                        _ => false,
                    },
        {
            let ephemeral_key = ephemeral_keys[idx];
            let prepared = match Self::epk(&ephemeral_key) {
                Some(epk) => Some(Self::prepare_epk(epk)),
                None => None,
            };
            out.push((prepared, ephemeral_key));
        }
        out
    }
}

/// Read-only access to the components of an encrypted transaction output.
pub trait ShieldedOutput<D: Domain>: Sized {
    /// Model of [`Self::ephemeral_key`].
    open spec fn s_ephemeral_key(&self) -> Seq<u8> {
        arbitrary()
    }

    /// Model of [`Self::cmstar`].
    open spec fn s_cmstar(&self) -> D::ExtractedCommitment {
        arbitrary()
    }

    /// Model of [`Self::enc_ciphertext`]: `None` exactly when the output is
    /// in compact form.
    open spec fn s_enc_ciphertext(&self) -> Option<Seq<u8>> {
        arbitrary()
    }

    /// Model of [`Self::enc_ciphertext_compact`].
    open spec fn s_enc_ciphertext_compact(&self) -> Seq<u8> {
        arbitrary()
    }

    /// Exposes the `ephemeral_key` field of the output.
    fn ephemeral_key(&self) -> (r: EphemeralKeyBytes)
        ensures
            r@ == self.s_ephemeral_key(),
    ;

    /// Exposes the `cmu` or `cmx` field of the output.
    fn cmstar(&self) -> (r: &D::ExtractedCommitment)
        ensures
            *r == self.s_cmstar(),
    ;

    /// Exposes the note ciphertext of the output, or `None` if the output
    /// is compact.
    fn enc_ciphertext(&self) -> (r: Option<&D::NoteCiphertextBytes>)
        ensures
            r is Some <==> self.s_enc_ciphertext() is Some,
            r matches Some(c) ==> Some(c.bytes()) == self.s_enc_ciphertext(),
    ;

    /// Exposes the compact note ciphertext of the output.
    fn enc_ciphertext_compact(&self) -> (r: D::CompactNoteCiphertextBytes)
        ensures
            r.bytes() == self.s_enc_ciphertext_compact(),
    ;

    /// Exposes the 32-byte representation of the output's commitment field.
    fn cmstar_bytes(&self) -> (r: ExtractedCommitmentBytes)
        ensures
            r@ == D::s_cmstar_bytes(self.s_cmstar()),
    {
        D::cmstar_to_bytes(self.cmstar())
    }

    /// Splits the trailing 16-byte authentication tag from the note
    /// ciphertext. Returns `None` if the output is compact.
    fn split_ciphertext_at_tag(&self) -> (r: Option<(D::NotePlaintextBytes, [u8; 16])>)
        ensures
            r is Some <==> self.s_enc_ciphertext() is Some,
            r matches Some((plaintext, tag)) ==> match self.s_enc_ciphertext() {
                Some(ct) => {
                    &&& ct.len() == <D::NoteCiphertextBytes as NoteBytes>::spec_len()
                    &&& plaintext.bytes() == ct.take(ct.len() - 16)
                    &&& tag@ == ct.skip(ct.len() - 16)
                },
                None => false,
            },
    {
        proof {
            D::law_sizes();
        }
        match self.enc_ciphertext() {
            None => None,
            Some(ciphertext) => {
                let s = ciphertext.as_slice();
                let tag_loc = s.len() - 16;
                let body = vstd::slice::slice_subrange(s, 0, tag_loc);
                let mut tag = [0u8; 16];
                for i in 0..16
                    invariant
                        s@.len() == tag_loc + 16,
                        s@.len() <= 0xffff_ffff,
                        tag@.len() == 16,
                        forall|j: int| 0 <= j < i ==> tag@[j] == s@[tag_loc + j],
                {
                    tag[i] = *vstd::slice::slice_index_get(s, tag_loc + i);
                }
                let plaintext = D::parse_note_plaintext_bytes(body);
                proof {
                    assert(tag@ =~= s@.skip(tag_loc as int));
                }
                Some((plaintext.unwrap(), tag))
            },
        }
    }
}

impl<D: Domain, O: ShieldedOutput<D>> ShieldedOutput<D> for &O {
    open spec fn s_ephemeral_key(&self) -> Seq<u8> {
        (**self).s_ephemeral_key()
    }

    open spec fn s_cmstar(&self) -> D::ExtractedCommitment {
        (**self).s_cmstar()
    }

    open spec fn s_enc_ciphertext(&self) -> Option<Seq<u8>> {
        (**self).s_enc_ciphertext()
    }

    open spec fn s_enc_ciphertext_compact(&self) -> Seq<u8> {
        (**self).s_enc_ciphertext_compact()
    }

    fn ephemeral_key(&self) -> (r: EphemeralKeyBytes)
        ensures
            r@ == self.s_ephemeral_key(),
    {
        (**self).ephemeral_key()
    }

    fn cmstar(&self) -> (r: &D::ExtractedCommitment)
        ensures
            *r == self.s_cmstar(),
    {
        (**self).cmstar()
    }

    fn enc_ciphertext(&self) -> (r: Option<&D::NoteCiphertextBytes>)
        ensures
            r is Some <==> self.s_enc_ciphertext() is Some,
            r matches Some(c) ==> Some(c.bytes()) == self.s_enc_ciphertext(),
    {
        (**self).enc_ciphertext()
    }

    fn enc_ciphertext_compact(&self) -> (r: D::CompactNoteCiphertextBytes)
        ensures
            r.bytes() == self.s_enc_ciphertext_compact(),
    {
        (**self).enc_ciphertext_compact()
    }
}

} // verus!
