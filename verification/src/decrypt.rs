//! Trial decryption of shielded outputs: recipient-side full and compact
//! decryption, and sender-side output recovery.
//!
//! Every entrypoint is a pure function of the domain, the key material and
//! the output, and its contract pins the result to a spec-level model of
//! the whole procedure. Every failure — an invalid ephemeral-key encoding,
//! an authentication failure, a malformed plaintext, a commitment or
//! ephemeral-key mismatch — collapses to a single silent `None`.

use vstd::prelude::*;

use crate::aead::{aead_decrypt_detached, chacha20_xor_from_block_one, poly1305_tag, xor_keystream};
use crate::domain::{Domain, ShieldedOutput};
use crate::note_bytes::NoteBytes;
use crate::{EphemeralKeyBytes, ExtractedCommitmentBytes, OutPlaintextBytes, OutgoingCipherKey, OUT_CIPHERTEXT_SIZE, OUT_PLAINTEXT_SIZE};

verus! {

enum NoteValidity {
    Valid,
    Invalid,
}

/// The symmetric key a recipient derives for trial decryption: `None` when
/// the ephemeral key is not a valid encoding.
pub open spec fn trial_decryption_key<D: Domain>(
    ivk: D::IncomingViewingKey,
    ephemeral_key: Seq<u8>,
) -> Option<Seq<u8>> {
    match D::s_epk(ephemeral_key) {
        Some(epk) => Some(
            D::s_kdf(D::s_ka_agree_dec(ivk, D::s_prepare_epk(epk)), ephemeral_key),
        ),
        None => None,
    }
}

/// The shared validity check: the note's extracted commitment must match
/// the output's, and for post-ZIP-212 notes the ephemeral key derived from
/// the note must match the output's.
pub open spec fn note_validity_spec<D: Domain>(
    note: D::Note,
    ephemeral_key: Seq<u8>,
    cmstar_bytes: Seq<u8>,
) -> bool {
    &&& D::s_cmstar_bytes(D::s_cmstar(note)) == cmstar_bytes
    &&& match D::s_derive_esk(note) {
        Some(esk) => D::s_epk_bytes(D::s_ka_derive_public(note, esk)) == ephemeral_key,
        None => true,
    }
}

/// Parsing a compact plaintext with the recipient-side parser, followed by
/// the validity check.
pub open spec fn parse_with_ivk_spec<D: Domain>(
    domain: D,
    ivk: D::IncomingViewingKey,
    ephemeral_key: Seq<u8>,
    cmstar_bytes: Seq<u8>,
    plaintext: Seq<u8>,
) -> Option<(D::Note, D::Recipient)> {
    match domain.s_parse_note_plaintext_without_memo_ivk(ivk, plaintext) {
        Some((note, to)) => if note_validity_spec::<D>(note, ephemeral_key, cmstar_bytes) {
            Some((note, to))
        } else {
            None
        },
        None => None,
    }
}

/// Full recipient-side decryption once the symmetric key is known: check
/// the tag over the ciphertext body, undo the keystream, split off the
/// memo, parse, and validate.
pub open spec fn decrypt_note_inner_spec<D: Domain>(
    domain: D,
    ivk: D::IncomingViewingKey,
    ephemeral_key: Seq<u8>,
    key: Seq<u8>,
    enc_ciphertext: Option<Seq<u8>>,
    cmstar_bytes: Seq<u8>,
) -> Option<(D::Note, D::Recipient, D::Memo)> {
    match enc_ciphertext {
        Some(ct) => {
            let body = ct.take(ct.len() - 16);
            let tag = ct.skip(ct.len() - 16);
            if tag != poly1305_tag(key, body)@ {
                None
            } else {
                let plaintext = xor_keystream(key, 64, body);
                match domain.s_split_plaintext_at_memo(plaintext) {
                    Some((compact, memo)) => match parse_with_ivk_spec::<D>(
                        domain,
                        ivk,
                        ephemeral_key,
                        cmstar_bytes,
                        compact,
                    ) {
                        Some((note, to)) => Some((note, to, memo)),
                        None => None,
                    },
                    None => None,
                }
            }
        },
        None => None,
    }
}

/// The full model of [`try_note_decryption`].
pub open spec fn decrypt_note_spec<D: Domain>(
    domain: D,
    ivk: D::IncomingViewingKey,
    ephemeral_key: Seq<u8>,
    enc_ciphertext: Option<Seq<u8>>,
    cmstar_bytes: Seq<u8>,
) -> Option<(D::Note, D::Recipient, D::Memo)> {
    match trial_decryption_key::<D>(ivk, ephemeral_key) {
        Some(key) => decrypt_note_inner_spec::<D>(
            domain,
            ivk,
            ephemeral_key,
            key,
            enc_ciphertext,
            cmstar_bytes,
        ),
        None => None,
    }
}

/// Compact decryption once the symmetric key is known: undo the keystream
/// from block 1 (no tag exists to check), parse, and validate.
pub open spec fn decrypt_compact_inner_spec<D: Domain>(
    domain: D,
    ivk: D::IncomingViewingKey,
    ephemeral_key: Seq<u8>,
    key: Seq<u8>,
    compact_ciphertext: Seq<u8>,
    cmstar_bytes: Seq<u8>,
) -> Option<(D::Note, D::Recipient)> {
    parse_with_ivk_spec::<D>(
        domain,
        ivk,
        ephemeral_key,
        cmstar_bytes,
        xor_keystream(key, 64, compact_ciphertext),
    )
}

/// The full model of [`try_compact_note_decryption`].
pub open spec fn decrypt_compact_spec<D: Domain>(
    domain: D,
    ivk: D::IncomingViewingKey,
    ephemeral_key: Seq<u8>,
    compact_ciphertext: Seq<u8>,
    cmstar_bytes: Seq<u8>,
) -> Option<(D::Note, D::Recipient)> {
    match trial_decryption_key::<D>(ivk, ephemeral_key) {
        Some(key) => decrypt_compact_inner_spec::<D>(
            domain,
            ivk,
            ephemeral_key,
            key,
            compact_ciphertext,
            cmstar_bytes,
        ),
        None => None,
    }
}

/// The model of [`try_output_recovery_with_pkd_esk`]: derive the key from
/// the recovered `esk` and `pk_d`, open the note ciphertext, parse with the
/// sender-side parser, check ZIP-212 `esk` consistency, and validate.
pub open spec fn recover_with_pkd_esk_spec<D: Domain>(
    domain: D,
    pk_d: D::DiversifiedTransmissionKey,
    esk: D::EphemeralSecretKey,
    ephemeral_key: Seq<u8>,
    enc_ciphertext: Option<Seq<u8>>,
    cmstar_bytes: Seq<u8>,
) -> Option<(D::Note, D::Recipient, D::Memo)> {
    let key = D::s_kdf(D::s_ka_agree_enc(esk, pk_d), ephemeral_key);
    match enc_ciphertext {
        Some(ct) => {
            let body = ct.take(ct.len() - 16);
            let tag = ct.skip(ct.len() - 16);
            if tag != poly1305_tag(key, body)@ {
                None
            } else {
                let plaintext = xor_keystream(key, 64, body);
                match domain.s_split_plaintext_at_memo(plaintext) {
                    Some((compact, memo)) => match domain.s_parse_note_plaintext_without_memo_ovk(
                        pk_d,
                        compact,
                    ) {
                        Some((note, to)) => {
                            let esk_consistent = match D::s_derive_esk(note) {
                                Some(derived_esk) => derived_esk == esk,
                                None => true,
                            };
                            if esk_consistent && note_validity_spec::<D>(
                                note,
                                ephemeral_key,
                                cmstar_bytes,
                            ) {
                                Some((note, to, memo))
                            } else {
                                None
                            }
                        },
                        None => None,
                    },
                    None => None,
                }
            }
        },
        None => None,
    }
}

/// The model of [`try_output_recovery_with_ock`]: open the 80-byte outgoing
/// ciphertext under `ock`, extract `pk_d` and `esk`, and recover.
pub open spec fn recover_with_ock_spec<D: Domain>(
    domain: D,
    ock: Seq<u8>,
    ephemeral_key: Seq<u8>,
    enc_ciphertext: Option<Seq<u8>>,
    cmstar_bytes: Seq<u8>,
    out_ciphertext: Seq<u8>,
) -> Option<(D::Note, D::Recipient, D::Memo)> {
    let body = out_ciphertext.take(OUT_PLAINTEXT_SIZE as int);
    let tag = out_ciphertext.skip(OUT_PLAINTEXT_SIZE as int);
    if tag != poly1305_tag(ock, body)@ {
        None
    } else {
        let out_plaintext = xor_keystream(ock, 64, body);
        match D::s_extract_pk_d(out_plaintext) {
            Some(pk_d) => match D::s_extract_esk(out_plaintext) {
                Some(esk) => recover_with_pkd_esk_spec::<D>(
                    domain,
                    pk_d,
                    esk,
                    ephemeral_key,
                    enc_ciphertext,
                    cmstar_bytes,
                ),
                None => None,
            },
            None => None,
        }
    }
}

/// The model of [`try_output_recovery_with_ovk`]: derive `ock` from the
/// outgoing viewing key and the output's public data, then recover.
pub open spec fn recover_with_ovk_spec<D: Domain>(
    domain: D,
    ovk: D::OutgoingViewingKey,
    cv: D::ValueCommitment,
    ephemeral_key: Seq<u8>,
    enc_ciphertext: Option<Seq<u8>>,
    cmstar_bytes: Seq<u8>,
    out_ciphertext: Seq<u8>,
) -> Option<(D::Note, D::Recipient, D::Memo)> {
    recover_with_ock_spec::<D>(
        domain,
        D::s_derive_ock(ovk, cv, cmstar_bytes, ephemeral_key),
        ephemeral_key,
        enc_ciphertext,
        cmstar_bytes,
        out_ciphertext,
    )
}

/// Trial decryption of the full note plaintext by the recipient.
///
/// Attempts to decrypt and validate the given shielded output using the
/// given incoming viewing key. If successful, returns the note and memo,
/// along with the address to which the note was sent.
pub fn try_note_decryption<D: Domain, Output: ShieldedOutput<D>>(
    domain: &D,
    ivk: &D::IncomingViewingKey,
    output: &Output,
) -> (r: Option<(D::Note, D::Recipient, D::Memo)>)
    ensures
        r == decrypt_note_spec::<D>(
            *domain,
            *ivk,
            output.s_ephemeral_key(),
            output.s_enc_ciphertext(),
            D::s_cmstar_bytes(output.s_cmstar()),
        ),
{
    let ephemeral_key = output.ephemeral_key();
    match D::epk(&ephemeral_key) {
        Some(epk) => {
            let prepared_epk = D::prepare_epk(epk);
            let shared_secret = D::ka_agree_dec(ivk, &prepared_epk);
            let key = D::kdf(shared_secret, &ephemeral_key);
            try_note_decryption_inner(domain, ivk, &ephemeral_key, output, &key)
        },
        None => None,
    }
}

fn try_note_decryption_inner<D: Domain, Output: ShieldedOutput<D>>(
    domain: &D,
    ivk: &D::IncomingViewingKey,
    ephemeral_key: &EphemeralKeyBytes,
    output: &Output,
    key: &[u8; 32],
) -> (r: Option<(D::Note, D::Recipient, D::Memo)>)
    ensures
        r == decrypt_note_inner_spec::<D>(
            *domain,
            *ivk,
            ephemeral_key@,
            key@,
            output.s_enc_ciphertext(),
            D::s_cmstar_bytes(output.s_cmstar()),
        ),
{
    proof {
        D::law_sizes();
    }
    match output.split_ciphertext_at_tag() {
        Some((plaintext_buf, tag)) => {
            let mut buf = vstd::slice::slice_to_vec(plaintext_buf.as_slice());
            if aead_decrypt_detached(key, &mut buf, &tag) {
                let plaintext = D::parse_note_plaintext_bytes(buf.as_slice()).unwrap();
                match domain.split_plaintext_at_memo(&plaintext) {
                    Some((compact, memo)) => {
                        match parse_note_plaintext_without_memo_ivk(
                            domain,
                            ivk,
                            ephemeral_key,
                            &output.cmstar_bytes(),
                            &compact,
                        ) {
                            Some((note, to)) => Some((note, to, memo)),
                            None => None,
                        }
                    },
                    None => None,
                }
            } else {
                None
            }
        },
        None => None,
    }
}

fn parse_note_plaintext_without_memo_ivk<D: Domain>(
    domain: &D,
    ivk: &D::IncomingViewingKey,
    ephemeral_key: &EphemeralKeyBytes,
    cmstar_bytes: &ExtractedCommitmentBytes,
    plaintext: &D::CompactNotePlaintextBytes,
) -> (r: Option<(D::Note, D::Recipient)>)
    ensures
        r == parse_with_ivk_spec::<D>(
            *domain,
            *ivk,
            ephemeral_key@,
            cmstar_bytes@,
            plaintext.bytes(),
        ),
{
    match domain.parse_note_plaintext_without_memo_ivk(ivk, plaintext) {
        Some((note, to)) => {
            match check_note_validity::<D>(&note, ephemeral_key, cmstar_bytes) {
                NoteValidity::Valid => Some((note, to)),
                NoteValidity::Invalid => None,
            }
        },
        None => None,
    }
}

fn check_note_validity<D: Domain>(
    note: &D::Note,
    ephemeral_key: &EphemeralKeyBytes,
    cmstar_bytes: &ExtractedCommitmentBytes,
) -> (r: NoteValidity)
    ensures
        r is Valid <==> note_validity_spec::<D>(*note, ephemeral_key@, cmstar_bytes@),
{
    let cmstar = D::cmstar(note);
    let computed_cmstar_bytes = D::cmstar_to_bytes(&cmstar);
    if computed_cmstar_bytes.ct_eq(cmstar_bytes) {
        match D::derive_esk(note) {
            Some(derived_esk) => {
                let derived_epk = D::ka_derive_public(note, &derived_esk);
                if D::epk_bytes(&derived_epk).ct_eq(ephemeral_key) {
                    NoteValidity::Valid
                } else {
                    NoteValidity::Invalid
                }
            },
            // Before ZIP 212
            None => NoteValidity::Valid,
        }
    } else {
        // Published commitment doesn't match calculated commitment
        NoteValidity::Invalid
    }
}

/// Trial decryption of the compact note plaintext by the recipient, for
/// light clients.
///
/// Attempts to decrypt and validate the given compact output using the
/// given incoming viewing key. No authentication tag exists in the compact
/// form, so the plaintext is recovered with the raw keystream, starting at
/// block 1 to skip the Poly1305 key block, and only the validity check
/// guards the result.
pub fn try_compact_note_decryption<D: Domain, Output: ShieldedOutput<D>>(
    domain: &D,
    ivk: &D::IncomingViewingKey,
    output: &Output,
) -> (r: Option<(D::Note, D::Recipient)>)
    ensures
        r == decrypt_compact_spec::<D>(
            *domain,
            *ivk,
            output.s_ephemeral_key(),
            output.s_enc_ciphertext_compact(),
            D::s_cmstar_bytes(output.s_cmstar()),
        ),
{
    let ephemeral_key = output.ephemeral_key();
    match D::epk(&ephemeral_key) {
        Some(epk) => {
            let prepared_epk = D::prepare_epk(epk);
            let shared_secret = D::ka_agree_dec(ivk, &prepared_epk);
            let key = D::kdf(shared_secret, &ephemeral_key);
            try_compact_note_decryption_inner(domain, ivk, &ephemeral_key, output, &key)
        },
        None => None,
    }
}

fn try_compact_note_decryption_inner<D: Domain, Output: ShieldedOutput<D>>(
    domain: &D,
    ivk: &D::IncomingViewingKey,
    ephemeral_key: &EphemeralKeyBytes,
    output: &Output,
    key: &[u8; 32],
) -> (r: Option<(D::Note, D::Recipient)>)
    ensures
        r == decrypt_compact_inner_spec::<D>(
            *domain,
            *ivk,
            ephemeral_key@,
            key@,
            output.s_enc_ciphertext_compact(),
            D::s_cmstar_bytes(output.s_cmstar()),
        ),
{
    proof {
        D::law_sizes();
    }
    let compact_ciphertext = output.enc_ciphertext_compact();
    let mut buf = vstd::slice::slice_to_vec(compact_ciphertext.as_slice());
    // Start from block 1 to skip over the Poly1305 keying output.
    chacha20_xor_from_block_one(key, &mut buf);
    let plaintext = D::parse_compact_note_plaintext_bytes(buf.as_slice()).unwrap();
    parse_note_plaintext_without_memo_ivk(
        domain,
        ivk,
        ephemeral_key,
        &output.cmstar_bytes(),
        &plaintext,
    )
}

/// Recovery of the full note plaintext by the sender, using the outgoing
/// viewing key.
pub fn try_output_recovery_with_ovk<D: Domain, Output: ShieldedOutput<D>>(
    domain: &D,
    ovk: &D::OutgoingViewingKey,
    output: &Output,
    cv: &D::ValueCommitment,
    out_ciphertext: &[u8; OUT_CIPHERTEXT_SIZE],
) -> (r: Option<(D::Note, D::Recipient, D::Memo)>)
    ensures
        r == recover_with_ovk_spec::<D>(
            *domain,
            *ovk,
            *cv,
            output.s_ephemeral_key(),
            output.s_enc_ciphertext(),
            D::s_cmstar_bytes(output.s_cmstar()),
            out_ciphertext@,
        ),
{
    let cmstar_bytes = output.cmstar_bytes();
    let ephemeral_key = output.ephemeral_key();
    let ock = D::derive_ock(ovk, cv, &cmstar_bytes, &ephemeral_key);
    try_output_recovery_with_ock(domain, &ock, output, out_ciphertext)
}

/// Recovery of the full note plaintext by the sender, using the outgoing
/// cipher key directly.
pub fn try_output_recovery_with_ock<D: Domain, Output: ShieldedOutput<D>>(
    domain: &D,
    ock: &OutgoingCipherKey,
    output: &Output,
    out_ciphertext: &[u8; OUT_CIPHERTEXT_SIZE],
) -> (r: Option<(D::Note, D::Recipient, D::Memo)>)
    ensures
        r == recover_with_ock_spec::<D>(
            *domain,
            ock@,
            output.s_ephemeral_key(),
            output.s_enc_ciphertext(),
            D::s_cmstar_bytes(output.s_cmstar()),
            out_ciphertext@,
        ),
{
    let s = out_ciphertext.as_slice();
    let body = vstd::slice::slice_subrange(s, 0, OUT_PLAINTEXT_SIZE);
    let mut op = vstd::slice::slice_to_vec(body);
    let mut tag = [0u8; 16];
    for i in 0..16
        invariant
            s@.len() == OUT_CIPHERTEXT_SIZE,
            tag@.len() == 16,
            forall|j: int| 0 <= j < i ==> tag@[j] == s@[OUT_PLAINTEXT_SIZE + j],
    {
        tag[i] = *vstd::slice::slice_index_get(s, OUT_PLAINTEXT_SIZE + i);
    }
    proof {
        assert(tag@ =~= out_ciphertext@.skip(OUT_PLAINTEXT_SIZE as int));
    }
    if aead_decrypt_detached(&ock.0, &mut op, &tag) {
        let mut op_arr = [0u8; OUT_PLAINTEXT_SIZE];
        for i in 0..OUT_PLAINTEXT_SIZE
            invariant
                op@.len() == OUT_PLAINTEXT_SIZE,
                op_arr@.len() == OUT_PLAINTEXT_SIZE,
                forall|j: int| 0 <= j < i ==> op_arr@[j] == op@[j],
        {
            op_arr[i] = op[i];
        }
        let out_plaintext = OutPlaintextBytes(op_arr);
        proof {
            assert(out_plaintext@ =~= xor_keystream(
                ock@,
                64,
                out_ciphertext@.take(OUT_PLAINTEXT_SIZE as int),
            ));
        }
        match D::extract_pk_d(&out_plaintext) {
            Some(pk_d) => match D::extract_esk(&out_plaintext) {
                Some(esk) => try_output_recovery_with_pkd_esk(domain, pk_d, esk, output),
                None => None,
            },
            None => None,
        }
    } else {
        None
    }
}

/// Recovery of the full note plaintext by the sender, using the recovered
/// transmission key and ephemeral secret key.
pub fn try_output_recovery_with_pkd_esk<D: Domain, Output: ShieldedOutput<D>>(
    domain: &D,
    pk_d: D::DiversifiedTransmissionKey,
    esk: D::EphemeralSecretKey,
    output: &Output,
) -> (r: Option<(D::Note, D::Recipient, D::Memo)>)
    ensures
        r == recover_with_pkd_esk_spec::<D>(
            *domain,
            pk_d,
            esk,
            output.s_ephemeral_key(),
            output.s_enc_ciphertext(),
            D::s_cmstar_bytes(output.s_cmstar()),
        ),
{
    proof {
        D::law_sizes();
    }
    let ephemeral_key = output.ephemeral_key();
    let shared_secret = D::ka_agree_enc(&esk, &pk_d);
    let key = D::kdf(shared_secret, &ephemeral_key);
    match output.split_ciphertext_at_tag() {
        Some((plaintext_buf, tag)) => {
            let mut buf = vstd::slice::slice_to_vec(plaintext_buf.as_slice());
            if aead_decrypt_detached(&key, &mut buf, &tag) {
                let plaintext = D::parse_note_plaintext_bytes(buf.as_slice()).unwrap();
                match domain.split_plaintext_at_memo(&plaintext) {
                    Some((compact, memo)) => {
                        match domain.parse_note_plaintext_without_memo_ovk(&pk_d, &compact) {
                            Some((note, to)) => {
                                // ZIP 212: the esk recovered from the outgoing
                                // plaintext must agree with the esk derivable
                                // from the note itself.
                                let esk_consistent = match D::derive_esk(&note) {
                                    Some(derived_esk) => D::esk_ct_eq(&derived_esk, &esk),
                                    None => true,
                                };
                                if esk_consistent {
                                    match check_note_validity::<D>(
                                        &note,
                                        &ephemeral_key,
                                        &output.cmstar_bytes(),
                                    ) {
                                        NoteValidity::Valid => Some((note, to, memo)),
                                        NoteValidity::Invalid => None,
                                    }
                                } else {
                                    None
                                }
                            },
                            None => None,
                        }
                    },
                    None => None,
                }
            } else {
                None
            }
        },
        None => None,
    }
}

} // verus!
