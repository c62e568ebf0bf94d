//! Note encryption for Zcash-style shielded transaction outputs.
//!
//! This crate implements the in-band secret distribution scheme shared by the
//! Sapling and Orchard shielded protocols: a sender encrypts a note plus a
//! memo into a ciphertext attached to a transaction output; a recipient
//! holding an incoming viewing key trial-decrypts outputs to discover
//! payments; the sender, holding an outgoing viewing key, can later recover
//! the plaintexts of outputs it created.
//!
//! Protocol-specific logic is abstracted behind the [`Domain`] trait, whose
//! methods carry contracts over a spec-level model of the protocol; the
//! encryption context and the trial-decryption entrypoints are verified
//! against that model.
//!
//! [`Domain`]: crate::domain::Domain

use subtle::ConstantTimeEq;
use vstd::prelude::*;

pub mod aead;
pub mod decrypt;
pub mod domain;
pub mod encrypt;
pub mod laws;
pub mod note_bytes;

pub use decrypt::try_compact_note_decryption;
pub use decrypt::try_note_decryption;
pub use decrypt::try_output_recovery_with_ock;
pub use decrypt::try_output_recovery_with_ovk;
pub use decrypt::try_output_recovery_with_pkd_esk;
pub use domain::BatchDomain;
pub use domain::Domain;
pub use domain::ShieldedOutput;
pub use encrypt::NoteEncryption;

verus! {

/// The size of an encoded outgoing plaintext: 32 bytes of `pk_d` followed by
/// 32 bytes of `esk`.
pub const OUT_PLAINTEXT_SIZE: usize = 32 + 32;

/// The size of a ChaCha20-Poly1305 authentication tag.
pub const AEAD_TAG_SIZE: usize = 16;

/// The size of an encrypted outgoing plaintext.
pub const OUT_CIPHERTEXT_SIZE: usize = OUT_PLAINTEXT_SIZE + AEAD_TAG_SIZE;

/// A symmetric key that can be used to recover a single shielded output.
pub struct OutgoingCipherKey(pub [u8; 32]);

impl View for OutgoingCipherKey {
    type V = Seq<u8>;

    open spec fn view(&self) -> Seq<u8> {
        self.0@
    }
}

impl From<[u8; 32]> for OutgoingCipherKey {
    fn from(ock: [u8; 32]) -> (r: OutgoingCipherKey)
        ensures
            r@ == ock@,
    {
        OutgoingCipherKey(ock)
    }
}

impl vstd::std_specs::convert::FromSpecImpl<[u8; 32]> for OutgoingCipherKey {
    open spec fn obeys_from_spec() -> bool {
        true
    }

    open spec fn from_spec(ock: [u8; 32]) -> Self {
        OutgoingCipherKey(ock)
    }
}

/// Newtype representing the byte encoding of an ephemeral public key.
#[derive(Clone, Copy)]
pub struct EphemeralKeyBytes(pub [u8; 32]);

impl View for EphemeralKeyBytes {
    type V = Seq<u8>;

    open spec fn view(&self) -> Seq<u8> {
        self.0@
    }
}

impl From<[u8; 32]> for EphemeralKeyBytes {
    fn from(value: [u8; 32]) -> (r: EphemeralKeyBytes)
        ensures
            r@ == value@,
    {
        EphemeralKeyBytes(value)
    }
}

impl vstd::std_specs::convert::FromSpecImpl<[u8; 32]> for EphemeralKeyBytes {
    open spec fn obeys_from_spec() -> bool {
        true
    }

    open spec fn from_spec(value: [u8; 32]) -> Self {
        EphemeralKeyBytes(value)
    }
}

impl EphemeralKeyBytes {
    /// Compares two ephemeral-key encodings in constant time.
    pub fn ct_eq(&self, other: &EphemeralKeyBytes) -> (r: bool)
        ensures
            r == (self@ == other@),
    {
        ct_eq_bytes32(&self.0, &other.0)
    }
}

/// Newtype representing the byte encoding of an outgoing plaintext.
pub struct OutPlaintextBytes(pub [u8; OUT_PLAINTEXT_SIZE]);

impl View for OutPlaintextBytes {
    type V = Seq<u8>;

    open spec fn view(&self) -> Seq<u8> {
        self.0@
    }
}

/// The 32-byte representation of an extracted note commitment.
pub struct ExtractedCommitmentBytes(pub [u8; 32]);

impl View for ExtractedCommitmentBytes {
    type V = Seq<u8>;

    open spec fn view(&self) -> Seq<u8> {
        self.0@
    }
}

impl ExtractedCommitmentBytes {
    /// Compares two commitment encodings in constant time.
    pub fn ct_eq(&self, other: &ExtractedCommitmentBytes) -> (r: bool)
        ensures
            r == (self@ == other@),
    {
        ct_eq_bytes32(&self.0, &other.0)
    }
}

/// Relies on `subtle::ConstantTimeEq` for byte slices: the returned `Choice`
/// is true exactly when the two slices hold the same bytes, and the
/// comparison takes time independent of their contents.
#[verifier::external_body]
fn ct_eq_bytes32(a: &[u8; 32], b: &[u8; 32]) -> (r: bool)
    ensures
        r == (a@ == b@),
{
    a.ct_eq(b).into()
}

} // verus!
