//! The laws that tie encryption and trial decryption together.
//!
//! Each proof function here states a property of the spec-level models that
//! the executable entrypoints are contracted to compute. The round-trip
//! laws hold for every domain whose capabilities cohere in the stated,
//! pointwise ways: the domain decodes its own ephemeral-key encoding, the
//! two sides of the key agreement meet, and the parsers invert the
//! encoders.

use vstd::prelude::*;

use crate::aead::{aead_seal, lemma_xor_keystream_involutive, lemma_xor_keystream_take, poly1305_tag, xor_keystream};
use crate::decrypt::{decrypt_compact_spec, decrypt_note_spec, note_validity_spec, recover_with_ock_spec, recover_with_ovk_spec, recover_with_pkd_esk_spec, trial_decryption_key};
use crate::domain::Domain;
use crate::encrypt::note_encryption_key;

verus! {

/// Round trip through the incoming viewing key: a note encrypted by the
/// encryption context decrypts, under the matching `ivk`, to exactly the
/// note, recipient and memo that went in.
///
/// The hypotheses say what it means for the domain to be valid at this
/// note: the derived ephemeral secret key is the one the context uses, the
/// ephemeral public key decodes from its own encoding, recipient-side key
/// agreement under `ivk` meets sender-side key agreement, and the parser
/// inverts the plaintext encoder.
pub proof fn lemma_note_decryption_round_trip<D: Domain>(
    domain: D,
    ivk: D::IncomingViewingKey,
    note: D::Note,
    memo: D::Memo,
    esk: D::EphemeralSecretKey,
    recipient: D::Recipient,
    compact: Seq<u8>,
)
    requires
        D::s_derive_esk(note) == Some(esk),
        D::s_epk(D::s_epk_bytes(D::s_ka_derive_public(note, esk))) == Some(
            D::s_ka_derive_public(note, esk),
        ),
        D::s_ka_agree_dec(ivk, D::s_prepare_epk(D::s_ka_derive_public(note, esk)))
            == D::s_ka_agree_enc(esk, D::s_pk_d(note)),
        domain.s_split_plaintext_at_memo(D::s_note_plaintext_bytes(note, memo)) == Some(
            (compact, memo),
        ),
        domain.s_parse_note_plaintext_without_memo_ivk(ivk, compact) == Some((note, recipient)),
    ensures
        decrypt_note_spec::<D>(
            domain,
            ivk,
            D::s_epk_bytes(D::s_ka_derive_public(note, esk)),
            Some(
                aead_seal(
                    note_encryption_key::<D>(note, esk, D::s_ka_derive_public(note, esk)),
                    D::s_note_plaintext_bytes(note, memo),
                ),
            ),
            D::s_cmstar_bytes(D::s_cmstar(note)),
        ) == Some((note, recipient, memo)),
{
    let epk = D::s_ka_derive_public(note, esk);
    let ephemeral_key = D::s_epk_bytes(epk);
    let key = note_encryption_key::<D>(note, esk, epk);
    let plaintext = D::s_note_plaintext_bytes(note, memo);
    let body = xor_keystream(key, 64, plaintext);
    let ciphertext = aead_seal(key, plaintext);
    assert(trial_decryption_key::<D>(ivk, ephemeral_key) == Some(key));
    assert(ciphertext.take(ciphertext.len() - 16) =~= body);
    assert(ciphertext.skip(ciphertext.len() - 16) =~= poly1305_tag(key, body)@);
    lemma_xor_keystream_involutive(key, 64, plaintext);
    assert(note_validity_spec::<D>(note, ephemeral_key, D::s_cmstar_bytes(D::s_cmstar(note))));
}

/// Round trip through the incoming viewing key, compact form: the
/// keystream-encrypted compact plaintext decrypts, under the matching
/// `ivk`, to exactly the note and recipient that went in (and no memo).
pub proof fn lemma_compact_note_decryption_round_trip<D: Domain>(
    domain: D,
    ivk: D::IncomingViewingKey,
    note: D::Note,
    esk: D::EphemeralSecretKey,
    recipient: D::Recipient,
    compact: Seq<u8>,
)
    requires
        D::s_derive_esk(note) == Some(esk),
        D::s_epk(D::s_epk_bytes(D::s_ka_derive_public(note, esk))) == Some(
            D::s_ka_derive_public(note, esk),
        ),
        D::s_ka_agree_dec(ivk, D::s_prepare_epk(D::s_ka_derive_public(note, esk)))
            == D::s_ka_agree_enc(esk, D::s_pk_d(note)),
        domain.s_parse_note_plaintext_without_memo_ivk(ivk, compact) == Some((note, recipient)),
    ensures
        decrypt_compact_spec::<D>(
            domain,
            ivk,
            D::s_epk_bytes(D::s_ka_derive_public(note, esk)),
            xor_keystream(
                note_encryption_key::<D>(note, esk, D::s_ka_derive_public(note, esk)),
                64,
                compact,
            ),
            D::s_cmstar_bytes(D::s_cmstar(note)),
        ) == Some((note, recipient)),
{
    let epk = D::s_ka_derive_public(note, esk);
    let ephemeral_key = D::s_epk_bytes(epk);
    let key = note_encryption_key::<D>(note, esk, epk);
    assert(trial_decryption_key::<D>(ivk, ephemeral_key) == Some(key));
    lemma_xor_keystream_involutive(key, 64, compact);
    assert(note_validity_spec::<D>(note, ephemeral_key, D::s_cmstar_bytes(D::s_cmstar(note))));
}

/// The compact ciphertext is a prefix of the full one: sealing a plaintext
/// and keeping the first `n` bytes gives the same bytes as
/// keystream-encrypting the first `n` bytes of the plaintext. Together with
/// the two round-trip laws above, full and compact decryption agree on any
/// output whose compact ciphertext is the matching prefix of its full
/// ciphertext.
pub proof fn lemma_compact_ciphertext_is_prefix(key: Seq<u8>, plaintext: Seq<u8>, n: int)
    requires
        0 <= n <= plaintext.len(),
    ensures
        aead_seal(key, plaintext).take(n) == xor_keystream(key, 64, plaintext.take(n)),
{
    let body = xor_keystream(key, 64, plaintext);
    assert(aead_seal(key, plaintext).take(n) =~= body.take(n));
    lemma_xor_keystream_take(key, 64, plaintext, n);
}

/// Round trip through the outgoing viewing key: when the outgoing
/// ciphertext was produced under `ovk`, output recovery with that same
/// `ovk` returns exactly the note, recipient and memo that were encrypted.
pub proof fn lemma_output_recovery_round_trip<D: Domain>(
    domain: D,
    ovk: D::OutgoingViewingKey,
    cv: D::ValueCommitment,
    note: D::Note,
    memo: D::Memo,
    esk: D::EphemeralSecretKey,
    recipient: D::Recipient,
    compact: Seq<u8>,
)
    requires
        match D::s_derive_esk(note) {
            Some(derived_esk) => derived_esk == esk,
            None => true,
        },
        D::s_outgoing_plaintext_bytes(note, esk).len() == 64,
        D::s_extract_pk_d(D::s_outgoing_plaintext_bytes(note, esk)) == Some(D::s_pk_d(note)),
        D::s_extract_esk(D::s_outgoing_plaintext_bytes(note, esk)) == Some(esk),
        domain.s_split_plaintext_at_memo(D::s_note_plaintext_bytes(note, memo)) == Some(
            (compact, memo),
        ),
        domain.s_parse_note_plaintext_without_memo_ovk(D::s_pk_d(note), compact) == Some(
            (note, recipient),
        ),
    ensures
        recover_with_ovk_spec::<D>(
            domain,
            ovk,
            cv,
            D::s_epk_bytes(D::s_ka_derive_public(note, esk)),
            Some(
                aead_seal(
                    note_encryption_key::<D>(note, esk, D::s_ka_derive_public(note, esk)),
                    D::s_note_plaintext_bytes(note, memo),
                ),
            ),
            D::s_cmstar_bytes(D::s_cmstar(note)),
            aead_seal(
                D::s_derive_ock(
                    ovk,
                    cv,
                    D::s_cmstar_bytes(D::s_cmstar(note)),
                    D::s_epk_bytes(D::s_ka_derive_public(note, esk)),
                ),
                D::s_outgoing_plaintext_bytes(note, esk),
            ),
        ) == Some((note, recipient, memo)),
{
    let epk = D::s_ka_derive_public(note, esk);
    let ephemeral_key = D::s_epk_bytes(epk);
    let cmstar_bytes = D::s_cmstar_bytes(D::s_cmstar(note));
    let ock = D::s_derive_ock(ovk, cv, cmstar_bytes, ephemeral_key);
    let out_plaintext = D::s_outgoing_plaintext_bytes(note, esk);
    let out_body = xor_keystream(ock, 64, out_plaintext);
    let out_ciphertext = aead_seal(ock, out_plaintext);
    assert(out_ciphertext.take(64) =~= out_body);
    assert(out_ciphertext.skip(64) =~= poly1305_tag(ock, out_body)@);
    lemma_xor_keystream_involutive(ock, 64, out_plaintext);
    let key = note_encryption_key::<D>(note, esk, epk);
    let plaintext = D::s_note_plaintext_bytes(note, memo);
    let body = xor_keystream(key, 64, plaintext);
    let ciphertext = aead_seal(key, plaintext);
    assert(ciphertext.take(ciphertext.len() - 16) =~= body);
    assert(ciphertext.skip(ciphertext.len() - 16) =~= poly1305_tag(key, body)@);
    lemma_xor_keystream_involutive(key, 64, plaintext);
    assert(note_validity_spec::<D>(note, ephemeral_key, cmstar_bytes));
}

/// Commitment binding: whichever path succeeds, the decrypted note's
/// extracted commitment matches the commitment attached to the output. An
/// output carrying a mismatched commitment is rejected by every path.
pub proof fn lemma_commitment_binding<D: Domain>(
    domain: D,
    ivk: D::IncomingViewingKey,
    pk_d: D::DiversifiedTransmissionKey,
    esk: D::EphemeralSecretKey,
    ock: Seq<u8>,
    ephemeral_key: Seq<u8>,
    enc_ciphertext: Option<Seq<u8>>,
    compact_ciphertext: Seq<u8>,
    cmstar_bytes: Seq<u8>,
    out_ciphertext: Seq<u8>,
)
    ensures
        decrypt_note_spec::<D>(domain, ivk, ephemeral_key, enc_ciphertext, cmstar_bytes)
            matches Some(r) ==> D::s_cmstar_bytes(D::s_cmstar(r.0)) == cmstar_bytes,
        decrypt_compact_spec::<D>(domain, ivk, ephemeral_key, compact_ciphertext, cmstar_bytes)
            matches Some(r) ==> D::s_cmstar_bytes(D::s_cmstar(r.0)) == cmstar_bytes,
        recover_with_pkd_esk_spec::<D>(
            domain,
            pk_d,
            esk,
            ephemeral_key,
            enc_ciphertext,
            cmstar_bytes,
        ) matches Some(r) ==> D::s_cmstar_bytes(D::s_cmstar(r.0)) == cmstar_bytes,
        recover_with_ock_spec::<D>(
            domain,
            ock,
            ephemeral_key,
            enc_ciphertext,
            cmstar_bytes,
            out_ciphertext,
        ) matches Some(r) ==> D::s_cmstar_bytes(D::s_cmstar(r.0)) == cmstar_bytes,
{
}

/// ZIP-212 ephemeral-key consistency: whichever path succeeds, a note that
/// carries a derivable ephemeral secret key re-derives the output's
/// ephemeral key; and on the recovery path the recovered `esk` is the
/// derivable one. An output whose `epk` was not produced from the note's
/// rseed-derived `esk` is rejected.
pub proof fn lemma_esk_consistency<D: Domain>(
    domain: D,
    ivk: D::IncomingViewingKey,
    pk_d: D::DiversifiedTransmissionKey,
    esk: D::EphemeralSecretKey,
    ephemeral_key: Seq<u8>,
    enc_ciphertext: Option<Seq<u8>>,
    compact_ciphertext: Seq<u8>,
    cmstar_bytes: Seq<u8>,
)
    ensures
        decrypt_note_spec::<D>(domain, ivk, ephemeral_key, enc_ciphertext, cmstar_bytes)
            matches Some(r) ==> match D::s_derive_esk(r.0) {
            Some(derived_esk) => D::s_epk_bytes(D::s_ka_derive_public(r.0, derived_esk))
                == ephemeral_key,
            None => true,
        },
        decrypt_compact_spec::<D>(domain, ivk, ephemeral_key, compact_ciphertext, cmstar_bytes)
            matches Some(r) ==> match D::s_derive_esk(r.0) {
            Some(derived_esk) => D::s_epk_bytes(D::s_ka_derive_public(r.0, derived_esk))
                == ephemeral_key,
            None => true,
        },
        recover_with_pkd_esk_spec::<D>(
            domain,
            pk_d,
            esk,
            ephemeral_key,
            enc_ciphertext,
            cmstar_bytes,
        ) matches Some(r) ==> match D::s_derive_esk(r.0) {
            Some(derived_esk) => derived_esk == esk && D::s_epk_bytes(
                D::s_ka_derive_public(r.0, derived_esk),
            ) == ephemeral_key,
            None => true,
        },
{
}

} // verus!
