//! End-to-end tests of note encryption and trial decryption, over a small
//! arithmetic test domain.

use chacha20poly1305::aead::AeadInPlace;
use chacha20poly1305::{ChaCha20Poly1305, KeyInit};
use rand_core::RngCore;
use subtle::ConstantTimeEq;

use zcash_note_encryption::domain::{BatchDomain, Domain, ShieldedOutput};
use zcash_note_encryption::encrypt::NoteEncryption;
use zcash_note_encryption::note_bytes::{NoteBytes, NoteBytesData};
use zcash_note_encryption::{
    try_compact_note_decryption, try_note_decryption, try_output_recovery_with_ock,
    try_output_recovery_with_ovk, EphemeralKeyBytes, ExtractedCommitmentBytes, OutPlaintextBytes,
    OutgoingCipherKey, AEAD_TAG_SIZE, OUT_CIPHERTEXT_SIZE, OUT_PLAINTEXT_SIZE,
};

// ---------------------------------------------------------------------
// The test domain: a commutative "group" over u64 with wrapping products.
// ---------------------------------------------------------------------

#[derive(Clone, Copy, Debug, PartialEq, Eq)]
struct TestNote {
    value: u64,
    rseed: u8,
    d: u8,
    pk_d: u64,
}

fn g_d(d: u8) -> u64 {
    (d as u64).wrapping_mul(0x100000001b3) | 1
}

fn prf_esk(rseed: u8) -> u64 {
    (rseed as u64).wrapping_mul(0x9E3779B97F4A7C15).wrapping_add(11)
}

fn derive_esk_val(note: &TestNote) -> Option<u64> {
    if note.rseed % 2 == 1 {
        Some(prf_esk(note.rseed))
    } else {
        None
    }
}

fn kdf_bytes(secret: u64, ek: &EphemeralKeyBytes) -> [u8; 32] {
    let sb = secret.to_le_bytes();
    let mut key = [0u8; 32];
    for i in 0..32 {
        key[i] = sb[i % 8] ^ ek.0[i].rotate_left((i % 7) as u32).wrapping_add(i as u8);
    }
    key
}

fn cmstar_val(note: &TestNote) -> u64 {
    note.value
        .wrapping_mul(0x9E3779B97F4A7C15)
        .wrapping_add(note.pk_d.rotate_left(17))
        .wrapping_add((note.d as u64) << 8)
        .wrapping_add(note.rseed as u64)
}

fn cm_to_bytes(cm: u64) -> [u8; 32] {
    let le = cm.to_le_bytes();
    let mut b = [0u8; 32];
    for i in 0..32 {
        b[i] = le[i % 8].wrapping_add((i / 8) as u8);
    }
    b
}

fn epk_to_bytes(epk: u64) -> EphemeralKeyBytes {
    let mut b = [0u8; 32];
    b[..8].copy_from_slice(&epk.to_le_bytes());
    EphemeralKeyBytes(b)
}

fn epk_from_bytes(b: &EphemeralKeyBytes) -> Option<u64> {
    if b.0[8..].iter().all(|&x| x == 0) {
        Some(u64::from_le_bytes(b.0[..8].try_into().unwrap()))
    } else {
        None
    }
}

fn ock_mix(ovk: u64, cv: u64, cm: &ExtractedCommitmentBytes, ek: &EphemeralKeyBytes) -> [u8; 32] {
    let ob = ovk.to_le_bytes();
    let cb = cv.to_le_bytes();
    let mut k = [0u8; 32];
    for i in 0..32 {
        k[i] = ob[i % 8] ^ cb[(i + 3) % 8].rotate_left(2) ^ cm.0[i] ^ ek.0[i].wrapping_mul(3);
    }
    k
}

fn encode_out_plaintext(pk_d: u64, esk: u64) -> [u8; 64] {
    let mut op = [0u8; 64];
    op[..8].copy_from_slice(&pk_d.to_le_bytes());
    op[32..40].copy_from_slice(&esk.to_le_bytes());
    op
}

struct TestDomain;

impl Domain for TestDomain {
    type EphemeralSecretKey = u64;
    type EphemeralPublicKey = u64;
    type PreparedEphemeralPublicKey = u64;
    type SharedSecret = u64;
    type Note = TestNote;
    type Recipient = u64;
    type DiversifiedTransmissionKey = u64;
    type IncomingViewingKey = u64;
    type OutgoingViewingKey = u64;
    type ValueCommitment = u64;
    type ExtractedCommitment = u64;
    type Memo = [u8; 32];
    type NotePlaintextBytes = NoteBytesData<64>;
    type NoteCiphertextBytes = NoteBytesData<80>;
    type CompactNotePlaintextBytes = NoteBytesData<32>;
    type CompactNoteCiphertextBytes = NoteBytesData<32>;

    fn derive_esk(note: &TestNote) -> Option<u64> {
        derive_esk_val(note)
    }

    fn get_pk_d(note: &TestNote) -> u64 {
        note.pk_d
    }

    fn prepare_epk(epk: u64) -> u64 {
        epk
    }

    fn ka_derive_public(note: &TestNote, esk: &u64) -> u64 {
        esk.wrapping_mul(g_d(note.d))
    }

    fn ka_agree_enc(esk: &u64, pk_d: &u64) -> u64 {
        esk.wrapping_mul(*pk_d)
    }

    fn ka_agree_dec(ivk: &u64, epk: &u64) -> u64 {
        ivk.wrapping_mul(*epk)
    }

    fn kdf(secret: u64, ephemeral_key: &EphemeralKeyBytes) -> [u8; 32] {
        kdf_bytes(secret, ephemeral_key)
    }

    fn note_plaintext_bytes(note: &TestNote, memo: &[u8; 32]) -> NoteBytesData<64> {
        let mut pt = [0u8; 64];
        pt[..8].copy_from_slice(&note.value.to_le_bytes());
        pt[8] = note.rseed;
        pt[9] = note.d;
        pt[32..].copy_from_slice(memo);
        NoteBytesData(pt)
    }

    fn derive_ock(
        ovk: &u64,
        cv: &u64,
        cmstar_bytes: &ExtractedCommitmentBytes,
        ephemeral_key: &EphemeralKeyBytes,
    ) -> OutgoingCipherKey {
        OutgoingCipherKey(ock_mix(*ovk, *cv, cmstar_bytes, ephemeral_key))
    }

    fn outgoing_plaintext_bytes(note: &TestNote, esk: &u64) -> OutPlaintextBytes {
        OutPlaintextBytes(encode_out_plaintext(note.pk_d, *esk))
    }

    fn epk_bytes(epk: &u64) -> EphemeralKeyBytes {
        epk_to_bytes(*epk)
    }

    fn epk(ephemeral_key: &EphemeralKeyBytes) -> Option<u64> {
        epk_from_bytes(ephemeral_key)
    }

    fn cmstar(note: &TestNote) -> u64 {
        cmstar_val(note)
    }

    fn cmstar_to_bytes(cmstar: &u64) -> ExtractedCommitmentBytes {
        ExtractedCommitmentBytes(cm_to_bytes(*cmstar))
    }

    fn parse_note_plaintext_without_memo_ivk(
        &self,
        ivk: &u64,
        plaintext: &NoteBytesData<32>,
    ) -> Option<(TestNote, u64)> {
        if !plaintext.0[10..].iter().all(|&x| x == 0) {
            return None;
        }
        let value = u64::from_le_bytes(plaintext.0[..8].try_into().unwrap());
        let rseed = plaintext.0[8];
        let d = plaintext.0[9];
        let pk_d = ivk.wrapping_mul(g_d(d));
        Some((TestNote { value, rseed, d, pk_d }, pk_d))
    }

    fn parse_note_plaintext_without_memo_ovk(
        &self,
        pk_d: &u64,
        plaintext: &NoteBytesData<32>,
    ) -> Option<(TestNote, u64)> {
        if !plaintext.0[10..].iter().all(|&x| x == 0) {
            return None;
        }
        let value = u64::from_le_bytes(plaintext.0[..8].try_into().unwrap());
        let rseed = plaintext.0[8];
        let d = plaintext.0[9];
        Some((TestNote { value, rseed, d, pk_d: *pk_d }, *pk_d))
    }

    fn split_plaintext_at_memo(
        &self,
        plaintext: &NoteBytesData<64>,
    ) -> Option<(NoteBytesData<32>, [u8; 32])> {
        let compact: [u8; 32] = plaintext.0[..32].try_into().unwrap();
        let memo: [u8; 32] = plaintext.0[32..].try_into().unwrap();
        Some((NoteBytesData(compact), memo))
    }

    fn extract_pk_d(out_plaintext: &OutPlaintextBytes) -> Option<u64> {
        if out_plaintext.0[8..32].iter().all(|&x| x == 0) {
            Some(u64::from_le_bytes(out_plaintext.0[..8].try_into().unwrap()))
        } else {
            None
        }
    }

    fn extract_esk(out_plaintext: &OutPlaintextBytes) -> Option<u64> {
        if out_plaintext.0[40..].iter().all(|&x| x == 0) {
            Some(u64::from_le_bytes(out_plaintext.0[32..40].try_into().unwrap()))
        } else {
            None
        }
    }

    fn esk_ct_eq(a: &u64, b: &u64) -> bool {
        a.ct_eq(b).into()
    }

    fn law_sizes() {}
}

impl BatchDomain for TestDomain {}

/// A domain identical to `TestDomain` except that its note plaintext
/// encoder emits a constant all-ones plaintext and its parsers accept any
/// compact plaintext.
struct OnesDomain;

impl Domain for OnesDomain {
    type EphemeralSecretKey = u64;
    type EphemeralPublicKey = u64;
    type PreparedEphemeralPublicKey = u64;
    type SharedSecret = u64;
    type Note = TestNote;
    type Recipient = u64;
    type DiversifiedTransmissionKey = u64;
    type IncomingViewingKey = u64;
    type OutgoingViewingKey = u64;
    type ValueCommitment = u64;
    type ExtractedCommitment = u64;
    type Memo = [u8; 32];
    type NotePlaintextBytes = NoteBytesData<64>;
    type NoteCiphertextBytes = NoteBytesData<80>;
    type CompactNotePlaintextBytes = NoteBytesData<32>;
    type CompactNoteCiphertextBytes = NoteBytesData<32>;

    fn derive_esk(note: &TestNote) -> Option<u64> {
        derive_esk_val(note)
    }

    fn get_pk_d(note: &TestNote) -> u64 {
        note.pk_d
    }

    fn prepare_epk(epk: u64) -> u64 {
        epk
    }

    fn ka_derive_public(note: &TestNote, esk: &u64) -> u64 {
        esk.wrapping_mul(g_d(note.d))
    }

    fn ka_agree_enc(esk: &u64, pk_d: &u64) -> u64 {
        esk.wrapping_mul(*pk_d)
    }

    fn ka_agree_dec(ivk: &u64, epk: &u64) -> u64 {
        ivk.wrapping_mul(*epk)
    }

    fn kdf(secret: u64, ephemeral_key: &EphemeralKeyBytes) -> [u8; 32] {
        kdf_bytes(secret, ephemeral_key)
    }

    fn note_plaintext_bytes(_note: &TestNote, _memo: &[u8; 32]) -> NoteBytesData<64> {
        NoteBytesData([0x01; 64])
    }

    fn derive_ock(
        ovk: &u64,
        cv: &u64,
        cmstar_bytes: &ExtractedCommitmentBytes,
        ephemeral_key: &EphemeralKeyBytes,
    ) -> OutgoingCipherKey {
        OutgoingCipherKey(ock_mix(*ovk, *cv, cmstar_bytes, ephemeral_key))
    }

    fn outgoing_plaintext_bytes(note: &TestNote, esk: &u64) -> OutPlaintextBytes {
        OutPlaintextBytes(encode_out_plaintext(note.pk_d, *esk))
    }

    fn epk_bytes(epk: &u64) -> EphemeralKeyBytes {
        epk_to_bytes(*epk)
    }

    fn epk(ephemeral_key: &EphemeralKeyBytes) -> Option<u64> {
        epk_from_bytes(ephemeral_key)
    }

    fn cmstar(note: &TestNote) -> u64 {
        cmstar_val(note)
    }

    fn cmstar_to_bytes(cmstar: &u64) -> ExtractedCommitmentBytes {
        ExtractedCommitmentBytes(cm_to_bytes(*cmstar))
    }

    fn parse_note_plaintext_without_memo_ivk(
        &self,
        ivk: &u64,
        plaintext: &NoteBytesData<32>,
    ) -> Option<(TestNote, u64)> {
        let value = u64::from_le_bytes(plaintext.0[..8].try_into().unwrap());
        let rseed = plaintext.0[8];
        let d = plaintext.0[9];
        let pk_d = ivk.wrapping_mul(g_d(d));
        Some((TestNote { value, rseed, d, pk_d }, pk_d))
    }

    fn parse_note_plaintext_without_memo_ovk(
        &self,
        pk_d: &u64,
        plaintext: &NoteBytesData<32>,
    ) -> Option<(TestNote, u64)> {
        let value = u64::from_le_bytes(plaintext.0[..8].try_into().unwrap());
        let rseed = plaintext.0[8];
        let d = plaintext.0[9];
        Some((TestNote { value, rseed, d, pk_d: *pk_d }, *pk_d))
    }

    fn split_plaintext_at_memo(
        &self,
        plaintext: &NoteBytesData<64>,
    ) -> Option<(NoteBytesData<32>, [u8; 32])> {
        let compact: [u8; 32] = plaintext.0[..32].try_into().unwrap();
        let memo: [u8; 32] = plaintext.0[32..].try_into().unwrap();
        Some((NoteBytesData(compact), memo))
    }

    fn extract_pk_d(out_plaintext: &OutPlaintextBytes) -> Option<u64> {
        if out_plaintext.0[8..32].iter().all(|&x| x == 0) {
            Some(u64::from_le_bytes(out_plaintext.0[..8].try_into().unwrap()))
        } else {
            None
        }
    }

    fn extract_esk(out_plaintext: &OutPlaintextBytes) -> Option<u64> {
        if out_plaintext.0[40..].iter().all(|&x| x == 0) {
            Some(u64::from_le_bytes(out_plaintext.0[32..40].try_into().unwrap()))
        } else {
            None
        }
    }

    fn esk_ct_eq(a: &u64, b: &u64) -> bool {
        a.ct_eq(b).into()
    }

    fn law_sizes() {}
}

// ---------------------------------------------------------------------
// Test outputs and RNG.
// ---------------------------------------------------------------------

struct TestOutput {
    ephemeral_key: EphemeralKeyBytes,
    cmstar: u64,
    ct: Option<NoteBytesData<80>>,
    compact: NoteBytesData<32>,
}

impl ShieldedOutput<TestDomain> for TestOutput {
    fn ephemeral_key(&self) -> EphemeralKeyBytes {
        self.ephemeral_key
    }

    fn cmstar(&self) -> &u64 {
        &self.cmstar
    }

    fn enc_ciphertext(&self) -> Option<&NoteBytesData<80>> {
        self.ct.as_ref()
    }

    fn enc_ciphertext_compact(&self) -> NoteBytesData<32> {
        self.compact
    }
}

impl ShieldedOutput<OnesDomain> for TestOutput {
    fn ephemeral_key(&self) -> EphemeralKeyBytes {
        self.ephemeral_key
    }

    fn cmstar(&self) -> &u64 {
        &self.cmstar
    }

    fn enc_ciphertext(&self) -> Option<&NoteBytesData<80>> {
        self.ct.as_ref()
    }

    fn enc_ciphertext_compact(&self) -> NoteBytesData<32> {
        self.compact
    }
}

struct CounterRng(u64);

impl RngCore for CounterRng {
    fn next_u32(&mut self) -> u32 {
        let mut b = [0u8; 4];
        self.fill_bytes(&mut b);
        u32::from_le_bytes(b)
    }

    fn next_u64(&mut self) -> u64 {
        let mut b = [0u8; 8];
        self.fill_bytes(&mut b);
        u64::from_le_bytes(b)
    }

    fn fill_bytes(&mut self, dest: &mut [u8]) {
        for x in dest.iter_mut() {
            *x = self.0 as u8;
            self.0 = self.0.wrapping_add(1);
        }
    }

    fn try_fill_bytes(&mut self, dest: &mut [u8]) -> Result<(), rand_core::Error> {
        self.fill_bytes(dest);
        Ok(())
    }
}

// ---------------------------------------------------------------------
// Helpers used by the tests themselves.
// ---------------------------------------------------------------------

fn seal_direct(key: &[u8; 32], pt: &[u8]) -> (Vec<u8>, [u8; 16]) {
    let mut buf = pt.to_vec();
    let tag = ChaCha20Poly1305::new(key.into())
        .encrypt_in_place_detached([0u8; 12][..].into(), &[], &mut buf)
        .unwrap();
    (buf, tag.into())
}

fn sample_note(ivk: u64) -> TestNote {
    let d = 3u8;
    TestNote { value: 0x1122334455, rseed: 5, d, pk_d: ivk.wrapping_mul(g_d(d)) }
}

fn build_encrypted(
    ovk: Option<u64>,
    ivk: u64,
    memo: [u8; 32],
) -> (TestNote, NoteEncryption<TestDomain>, TestOutput) {
    let note = sample_note(ivk);
    let ne = NoteEncryption::<TestDomain>::new(ovk, note, memo);
    let ct = ne.encrypt_note_plaintext();
    let ephemeral_key = <TestDomain as Domain>::epk_bytes(ne.epk());
    let compact = NoteBytesData::<32>(ct.0[..32].try_into().unwrap());
    let output = TestOutput { ephemeral_key, cmstar: cmstar_val(&note), ct: Some(ct), compact };
    (note, ne, output)
}

// ---------------------------------------------------------------------
// Round trips.
// ---------------------------------------------------------------------

#[test]
fn round_trip_ivk() {
    let ivk = 0xDEADu64;
    let memo = [0xAB; 32];
    let (note, _ne, output) = build_encrypted(Some(77), ivk, memo);
    let r = try_note_decryption(&TestDomain, &ivk, &output);
    assert_eq!(r, Some((note, note.pk_d, memo)));
}

#[test]
fn round_trip_compact() {
    let ivk = 0xBEEFu64;
    let memo = [0x21; 32];
    let (note, _ne, output) = build_encrypted(None, ivk, memo);
    let r = try_compact_note_decryption(&TestDomain, &ivk, &output);
    assert_eq!(r, Some((note, note.pk_d)));
}

#[test]
fn cross_path_agreement() {
    let ivk = 0x1234_5678u64;
    let memo = [0x00; 32];
    let (_note, _ne, output) = build_encrypted(Some(1), ivk, memo);
    let full = try_note_decryption(&TestDomain, &ivk, &output).unwrap();
    let compact = try_compact_note_decryption(&TestDomain, &ivk, &output).unwrap();
    assert_eq!((full.0, full.1), compact);
}

#[test]
fn round_trip_ovk() {
    let ivk = 0xACE0u64;
    let ovk = 0x5EED_1234u64;
    let cv = 0xC0FFEEu64;
    let memo = [0x42; 32];
    let (note, ne, output) = build_encrypted(Some(ovk), ivk, memo);
    let mut rng = CounterRng(0);
    let out_ct = ne.encrypt_outgoing_plaintext(&cv, &cmstar_val(&note), &mut rng);
    let r = try_output_recovery_with_ovk(&TestDomain, &ovk, &output, &cv, &out_ct);
    assert_eq!(r, Some((note, note.pk_d, memo)));
}

#[test]
fn round_trip_ock() {
    let ivk = 0xACE1u64;
    let ovk = 0x5EED_4321u64;
    let cv = 0xC0FFEEu64;
    let memo = [0x43; 32];
    let (note, ne, output) = build_encrypted(Some(ovk), ivk, memo);
    let mut rng = CounterRng(0);
    let out_ct = ne.encrypt_outgoing_plaintext(&cv, &cmstar_val(&note), &mut rng);
    let cm_bytes = <TestDomain as Domain>::cmstar_to_bytes(&cmstar_val(&note));
    let ock = <TestDomain as Domain>::derive_ock(
        &ovk,
        &cv,
        &cm_bytes,
        &output.ephemeral_key,
    );
    let r = try_output_recovery_with_ock(&TestDomain, &ock, &output, &out_ct);
    assert_eq!(r, Some((note, note.pk_d, memo)));
}

#[test]
fn round_trip_pre_zip_212() {
    // An even rseed models a note without a derivable esk: the context must
    // be built with an explicit esk, and both decryption paths still accept
    // the output because the ephemeral-key validity check is skipped.
    let ivk = 0x77u64;
    let d = 9u8;
    let note = TestNote { value: 42, rseed: 4, d, pk_d: ivk.wrapping_mul(g_d(d)) };
    assert_eq!(<TestDomain as Domain>::derive_esk(&note), None);
    let esk = 0x1357_9BDFu64;
    let ovk = 3u64;
    let cv = 4u64;
    let memo = [0x77; 32];
    let ne = NoteEncryption::<TestDomain>::new_with_esk(esk, Some(ovk), note, memo);
    let ct = ne.encrypt_note_plaintext();
    let ephemeral_key = <TestDomain as Domain>::epk_bytes(ne.epk());
    let compact = NoteBytesData::<32>(ct.0[..32].try_into().unwrap());
    let output = TestOutput { ephemeral_key, cmstar: cmstar_val(&note), ct: Some(ct), compact };
    assert_eq!(try_note_decryption(&TestDomain, &ivk, &output), Some((note, note.pk_d, memo)));
    let mut rng = CounterRng(0);
    let out_ct = ne.encrypt_outgoing_plaintext(&cv, &cmstar_val(&note), &mut rng);
    let r = try_output_recovery_with_ovk(&TestDomain, &ovk, &output, &cv, &out_ct);
    assert_eq!(r, Some((note, note.pk_d, memo)));
}

// ---------------------------------------------------------------------
// Failure paths.
// ---------------------------------------------------------------------

#[test]
fn wrong_ivk_fails() {
    let ivk = 0xAAAAu64;
    let memo = [0x01; 32];
    let (_note, _ne, output) = build_encrypted(None, ivk, memo);
    let wrong = ivk + 1;
    assert_eq!(try_note_decryption(&TestDomain, &wrong, &output), None);
    assert_eq!(try_compact_note_decryption(&TestDomain, &wrong, &output), None);
}

#[test]
fn wrong_ovk_fails() {
    let ivk = 0xBBBBu64;
    let ovk = 10u64;
    let cv = 20u64;
    let memo = [0x02; 32];
    let (note, ne, output) = build_encrypted(Some(ovk), ivk, memo);
    let mut rng = CounterRng(0);
    let out_ct = ne.encrypt_outgoing_plaintext(&cv, &cmstar_val(&note), &mut rng);
    let r = try_output_recovery_with_ovk(&TestDomain, &11u64, &output, &cv, &out_ct);
    assert_eq!(r, None);
}

#[test]
fn ovk_none_is_unrecoverable() {
    let ivk = 0xCCCCu64;
    let cv = 30u64;
    let memo = [0x03; 32];
    let (note, ne, output) = build_encrypted(None, ivk, memo);
    let mut rng = CounterRng(0);
    let out_ct = ne.encrypt_outgoing_plaintext(&cv, &cmstar_val(&note), &mut rng);
    for ovk in [0u64, 1, 42, u64::MAX] {
        let r = try_output_recovery_with_ovk(&TestDomain, &ovk, &output, &cv, &out_ct);
        assert_eq!(r, None);
    }
}

#[test]
fn ovk_none_ciphertext_matches_rng_stream() {
    // With a counter RNG seeded to zero, the output is exactly the seal of
    // the 64 counter bytes 32..96 under the key made of counter bytes 0..32.
    let ivk = 0xDDDDu64;
    let cv = 40u64;
    let memo = [0x04; 32];
    let (note, ne, _output) = build_encrypted(None, ivk, memo);
    let mut rng = CounterRng(0);
    let out_ct = ne.encrypt_outgoing_plaintext(&cv, &cmstar_val(&note), &mut rng);
    let mut ock = [0u8; 32];
    for i in 0..32 {
        ock[i] = i as u8;
    }
    let mut op = [0u8; 64];
    for i in 0..64 {
        op[i] = (32 + i) as u8;
    }
    let (body, tag) = seal_direct(&ock, &op);
    let mut expected = [0u8; OUT_CIPHERTEXT_SIZE];
    expected[..OUT_PLAINTEXT_SIZE].copy_from_slice(&body);
    expected[OUT_PLAINTEXT_SIZE..].copy_from_slice(&tag);
    assert_eq!(out_ct, expected);
}

#[test]
fn tampered_full_ciphertext_fails() {
    let ivk = 0xEEEEu64;
    let memo = [0x05; 32];
    let (_note, _ne, output) = build_encrypted(None, ivk, memo);
    let ct = output.ct.unwrap();
    for byte in 0..80 {
        for bit in 0..8 {
            let mut tampered = ct.0;
            tampered[byte] ^= 1u8 << bit;
            let tampered_output = TestOutput {
                ephemeral_key: output.ephemeral_key,
                cmstar: output.cmstar,
                ct: Some(NoteBytesData(tampered)),
                compact: NoteBytesData(tampered[..32].try_into().unwrap()),
            };
            assert_eq!(try_note_decryption(&TestDomain, &ivk, &tampered_output), None);
        }
    }
}

#[test]
fn tampered_compact_ciphertext_fails() {
    let ivk = 0xFFF1u64;
    let memo = [0x06; 32];
    let (_note, _ne, output) = build_encrypted(None, ivk, memo);
    for byte in 0..32 {
        for bit in 0..8 {
            let mut tampered = output.compact.0;
            tampered[byte] ^= 1u8 << bit;
            let tampered_output = TestOutput {
                ephemeral_key: output.ephemeral_key,
                cmstar: output.cmstar,
                ct: None,
                compact: NoteBytesData(tampered),
            };
            assert_eq!(try_compact_note_decryption(&TestDomain, &ivk, &tampered_output), None);
        }
    }
}

#[test]
fn mismatched_commitment_fails() {
    let ivk = 0x1010u64;
    let memo = [0x07; 32];
    let (_note, _ne, output) = build_encrypted(None, ivk, memo);
    let bad = TestOutput {
        ephemeral_key: output.ephemeral_key,
        cmstar: output.cmstar.wrapping_add(1),
        ct: output.ct,
        compact: output.compact,
    };
    assert_eq!(try_note_decryption(&TestDomain, &ivk, &bad), None);
    assert_eq!(try_compact_note_decryption(&TestDomain, &ivk, &bad), None);
}

#[test]
fn inconsistent_esk_fails() {
    // The note's rseed derives one esk, but the context was keyed with a
    // different one, so the epk attached to the output cannot be re-derived
    // from the note: both the ivk path and the ovk path must reject it.
    let ivk = 0x2020u64;
    let ovk = 9u64;
    let cv = 8u64;
    let memo = [0x08; 32];
    let note = sample_note(ivk);
    let honest_esk = derive_esk_val(&note).unwrap();
    let ne = NoteEncryption::<TestDomain>::new_with_esk(
        honest_esk.wrapping_add(1),
        Some(ovk),
        note,
        memo,
    );
    let ct = ne.encrypt_note_plaintext();
    let ephemeral_key = <TestDomain as Domain>::epk_bytes(ne.epk());
    let compact = NoteBytesData::<32>(ct.0[..32].try_into().unwrap());
    let output = TestOutput { ephemeral_key, cmstar: cmstar_val(&note), ct: Some(ct), compact };
    assert_eq!(try_note_decryption(&TestDomain, &ivk, &output), None);
    assert_eq!(try_compact_note_decryption(&TestDomain, &ivk, &output), None);
    let mut rng = CounterRng(0);
    let out_ct = ne.encrypt_outgoing_plaintext(&cv, &cmstar_val(&note), &mut rng);
    let r = try_output_recovery_with_ovk(&TestDomain, &ovk, &output, &cv, &out_ct);
    assert_eq!(r, None);
}

#[test]
fn invalid_epk_encoding_fails() {
    let ivk = 0x3030u64;
    let memo = [0x09; 32];
    let (_note, _ne, output) = build_encrypted(None, ivk, memo);
    let mut bad_ek = output.ephemeral_key.0;
    bad_ek[20] = 0x99;
    let bad = TestOutput {
        ephemeral_key: EphemeralKeyBytes(bad_ek),
        cmstar: output.cmstar,
        ct: output.ct,
        compact: output.compact,
    };
    assert_eq!(try_note_decryption(&TestDomain, &ivk, &bad), None);
    assert_eq!(try_compact_note_decryption(&TestDomain, &ivk, &bad), None);
}

// ---------------------------------------------------------------------
// Batch consistency and determinism.
// ---------------------------------------------------------------------

#[test]
fn batch_kdf_matches_singles() {
    let eks = [
        epk_to_bytes(12345),
        epk_to_bytes(99999),
        epk_to_bytes(3),
    ];
    let items: Vec<(Option<u64>, EphemeralKeyBytes)> =
        vec![(Some(7u64), eks[0]), (None, eks[1]), (Some(u64::MAX), eks[2])];
    let batched = TestDomain::batch_kdf(items);
    assert_eq!(batched.len(), 3);
    assert_eq!(batched[0], Some(kdf_bytes(7, &eks[0])));
    assert_eq!(batched[1], None);
    assert_eq!(batched[2], Some(kdf_bytes(u64::MAX, &eks[2])));
}

#[test]
fn batch_epk_matches_singles() {
    let valid = epk_to_bytes(0xABCDEF);
    let mut invalid_bytes = [0u8; 32];
    invalid_bytes[31] = 1;
    let invalid = EphemeralKeyBytes(invalid_bytes);
    let keys = vec![valid, invalid, epk_to_bytes(1)];
    let batched = TestDomain::batch_epk(keys);
    assert_eq!(batched.len(), 3);
    assert_eq!(batched[0].0, Some(0xABCDEF));
    assert_eq!(batched[0].1 .0, valid.0);
    assert_eq!(batched[1].0, None);
    assert_eq!(batched[1].1 .0, invalid.0);
    assert_eq!(batched[2].0, Some(1));
}

#[test]
fn encryption_is_deterministic() {
    let ivk = 0x4040u64;
    let ovk = 5u64;
    let cv = 6u64;
    let memo = [0x0A; 32];
    let (note, ne1, _o1) = build_encrypted(Some(ovk), ivk, memo);
    let (_note2, ne2, _o2) = build_encrypted(Some(ovk), ivk, memo);
    assert_eq!(ne1.encrypt_note_plaintext().0, ne2.encrypt_note_plaintext().0);
    // With an ovk present the outgoing ciphertext ignores the RNG entirely.
    let mut rng1 = CounterRng(0);
    let mut rng2 = CounterRng(12345);
    let a = ne1.encrypt_outgoing_plaintext(&cv, &cmstar_val(&note), &mut rng1);
    let b = ne2.encrypt_outgoing_plaintext(&cv, &cmstar_val(&note), &mut rng2);
    assert_eq!(a, b);
}

// ---------------------------------------------------------------------
// Concrete scenarios over the constant-plaintext domain.
// ---------------------------------------------------------------------

fn build_ones_encrypted(ivk: u64) -> (TestNote, NoteEncryption<OnesDomain>, TestOutput, [u8; 32]) {
    // The note the all-ones plaintext parses back to.
    let d = 1u8;
    let note = TestNote {
        value: u64::from_le_bytes([1; 8]),
        rseed: 1,
        d,
        pk_d: ivk.wrapping_mul(g_d(d)),
    };
    let memo = [0x01; 32];
    let ne = NoteEncryption::<OnesDomain>::new(None, note, memo);
    let ct = ne.encrypt_note_plaintext();
    let ephemeral_key = <OnesDomain as Domain>::epk_bytes(ne.epk());
    let compact = NoteBytesData::<32>(ct.0[..32].try_into().unwrap());
    let output = TestOutput { ephemeral_key, cmstar: cmstar_val(&note), ct: Some(ct), compact };
    (note, ne, output, memo)
}

#[test]
fn ones_plaintext_seals_exactly() {
    let ivk = 0x5050u64;
    let (note, ne, output, _memo) = build_ones_encrypted(ivk);
    let ct = output.ct.as_ref().unwrap();
    assert_eq!(ct.0.len(), 64 + AEAD_TAG_SIZE);
    // Recompute the key the context derived and seal the constant plaintext
    // directly with ChaCha20-Poly1305.
    let esk = derive_esk_val(&note).unwrap();
    let shared = esk.wrapping_mul(note.pk_d);
    let key = kdf_bytes(shared, &output.ephemeral_key);
    let (body, tag) = seal_direct(&key, &[0x01; 64]);
    assert_eq!(&ct.0[..64], &body[..]);
    assert_eq!(&ct.0[64..], &tag[..]);
    let _ = ne;
}

#[test]
fn ones_plaintext_decrypts() {
    let ivk = 0x6060u64;
    let (note, _ne, output, memo) = build_ones_encrypted(ivk);
    let r = try_note_decryption(&OnesDomain, &ivk, &output);
    assert_eq!(r, Some((note, note.pk_d, memo)));
}

#[test]
fn replaced_tag_fails() {
    let ivk = 0x7070u64;
    let (_note, _ne, output, _memo) = build_ones_encrypted(ivk);
    let ct = output.ct.unwrap();
    for fill in [0x00u8, 0x5A, 0xFF] {
        let mut tampered = ct.0;
        for b in tampered[64..].iter_mut() {
            *b = *b ^ fill ^ 0x80;
        }
        let bad = TestOutput {
            ephemeral_key: output.ephemeral_key,
            cmstar: output.cmstar,
            ct: Some(NoteBytesData(tampered)),
            compact: NoteBytesData(tampered[..32].try_into().unwrap()),
        };
        assert_eq!(try_note_decryption(&OnesDomain, &ivk, &bad), None);
    }
}

#[test]
fn ones_compact_agrees_with_full() {
    let ivk = 0x8080u64;
    let (note, _ne, output, _memo) = build_ones_encrypted(ivk);
    let full = try_note_decryption(&OnesDomain, &ivk, &output).unwrap();
    let compact = try_compact_note_decryption(&OnesDomain, &ivk, &output).unwrap();
    assert_eq!((full.0, full.1), compact);
    assert_eq!(compact, (note, note.pk_d));
}

// ---------------------------------------------------------------------
// Byte containers and constant-time comparisons.
// ---------------------------------------------------------------------

#[test]
fn note_bytes_from_slice_enforces_length() {
    assert!(NoteBytesData::<4>::from_slice(&[1, 2, 3]).is_none());
    assert!(NoteBytesData::<4>::from_slice(&[1, 2, 3, 4, 5]).is_none());
    let b = NoteBytesData::<4>::from_slice(&[1, 2, 3, 4]).unwrap();
    assert_eq!(b.0, [1, 2, 3, 4]);
}

#[test]
fn note_bytes_from_slice_with_tag_concatenates() {
    let tag = [9u8; 16];
    assert!(NoteBytesData::<20>::from_slice_with_tag(&[1, 2, 3], &tag).is_none());
    assert!(NoteBytesData::<8>::from_slice_with_tag(&[1, 2, 3], &tag).is_none());
    let b = NoteBytesData::<20>::from_slice_with_tag(&[1, 2, 3, 4], &tag).unwrap();
    assert_eq!(&b.0[..4], &[1, 2, 3, 4]);
    assert_eq!(&b.0[4..], &[9u8; 16]);
}

#[test]
fn ephemeral_key_bytes_ct_eq() {
    let a = EphemeralKeyBytes([7; 32]);
    let b = EphemeralKeyBytes([7; 32]);
    let mut c_bytes = [7u8; 32];
    c_bytes[31] = 8;
    let c = EphemeralKeyBytes(c_bytes);
    assert!(a.ct_eq(&b));
    assert!(!a.ct_eq(&c));
}

#[test]
fn extracted_commitment_bytes_ct_eq() {
    let a = ExtractedCommitmentBytes([1; 32]);
    let b = ExtractedCommitmentBytes([1; 32]);
    let c = ExtractedCommitmentBytes([2; 32]);
    assert!(a.ct_eq(&b));
    assert!(!a.ct_eq(&c));
}

#[test]
fn recovery_with_pkd_esk_directly() {
    let ivk = 0x9090u64;
    let memo = [0x0B; 32];
    let (note, ne, output) = build_encrypted(None, ivk, memo);
    let esk = *ne.esk();
    assert_eq!(Some(esk), derive_esk_val(&note));
    let r = zcash_note_encryption::try_output_recovery_with_pkd_esk(
        &TestDomain,
        note.pk_d,
        esk,
        &output,
    );
    assert_eq!(r, Some((note, note.pk_d, memo)));
}

#[test]
fn full_decryption_fails_closed_on_compact_output() {
    let ivk = 0xA0A0u64;
    let memo = [0x0C; 32];
    let (note, _ne, output) = build_encrypted(None, ivk, memo);
    let compact_only = TestOutput {
        ephemeral_key: output.ephemeral_key,
        cmstar: output.cmstar,
        ct: None,
        compact: output.compact,
    };
    assert_eq!(try_note_decryption(&TestDomain, &ivk, &compact_only), None);
    assert_eq!(
        try_compact_note_decryption(&TestDomain, &ivk, &compact_only),
        Some((note, note.pk_d))
    );
}

#[test]
fn byte_newtype_conversions() {
    let raw = [5u8; 32];
    let ek = EphemeralKeyBytes::from(raw);
    assert_eq!(ek.0, raw);
    let ock = OutgoingCipherKey::from(raw);
    assert_eq!(ock.0, raw);
}
