//! End-to-end adapter tests against the real cryptographic libraries:
//! acceptance, byte-level round trips, rejection of corrupted
//! signatures, and the scheme-defined encoded lengths.
//!
//! The slow hash-based profiles are exercised through the fast 128-bit
//! profile; the larger profiles share the same code path and are covered
//! by the verified length contracts.

use sigbench::adapter::{generate_keypair, sign, verify, AdapterError};
use sigbench::comparator::{measure_baseline, measure_variant};
use sigbench::scheme::{fixed_message, Variant};

fn accept_and_reject_roundtrip(v: Variant) {
    let (kp, _) = generate_keypair(v);
    assert_eq!(kp.vk.len() as u64, v.pk_len());
    assert_eq!(kp.sk.len() as u64, v.sk_len());
    let msg = fixed_message();
    let (sig, _) = sign(v, &kp.sk, &msg).unwrap();
    assert_eq!(sig.len() as u64, v.sig_len());

    // The verifying key travels through its canonical byte encoding and
    // still accepts the signature.
    let (accepted, _) = verify(v, &kp.vk, &msg, &sig).unwrap();
    assert!(accepted);

    // A different message is not accepted.
    let other = b"Hello worlds".to_vec();
    match verify(v, &kp.vk, &other, &sig) {
        Ok((accepted, _)) => assert!(!accepted),
        Err(e) => assert_eq!(e, AdapterError::Encoding),
    }

    // Flipping single bytes of a valid signature must not be accepted:
    // a corrupted encoding either fails to decode or fails verification.
    let positions = [0, 1, sig.len() / 2, sig.len() - 2, sig.len() - 1];
    for &p in &positions {
        let mut bad = sig.clone();
        bad[p] ^= 0x01;
        match verify(v, &kp.vk, &msg, &bad) {
            Ok((accepted, _)) => assert!(!accepted),
            Err(e) => assert_eq!(e, AdapterError::Encoding),
        }
    }
}

#[test]
fn ecdsa_accepts_and_rejects() {
    accept_and_reject_roundtrip(Variant::EcdsaK256);
}

#[test]
fn ml_dsa_44_accepts_and_rejects() {
    accept_and_reject_roundtrip(Variant::MlDsa44);
}

#[test]
fn ml_dsa_65_accepts_and_rejects() {
    accept_and_reject_roundtrip(Variant::MlDsa65);
}

#[test]
fn ml_dsa_87_accepts_and_rejects() {
    accept_and_reject_roundtrip(Variant::MlDsa87);
}

#[test]
fn slh_dsa_128f_accepts() {
    let v = Variant::SlhDsa128f;
    let (kp, _) = generate_keypair(v);
    assert_eq!(kp.vk.len() as u64, v.pk_len());
    let msg = fixed_message();
    let (sig, _) = sign(v, &kp.sk, &msg).unwrap();
    assert_eq!(sig.len() as u64, v.sig_len());
    let (accepted, _) = verify(v, &kp.vk, &msg, &sig).unwrap();
    assert!(accepted);
}

#[test]
fn wrong_length_inputs_are_encoding_errors() {
    let v = Variant::MlDsa44;
    let (kp, _) = generate_keypair(v);
    let msg = fixed_message();
    let (sig, _) = sign(v, &kp.sk, &msg).unwrap();

    // A truncated signing key is an encoding error, not a panic.
    assert_eq!(sign(v, &kp.sk[1..], &msg).unwrap_err(), AdapterError::Encoding);
    // A truncated verifying key or signature is an encoding error.
    assert_eq!(verify(v, &kp.vk[1..], &msg, &sig).unwrap_err(), AdapterError::Encoding);
    assert_eq!(verify(v, &kp.vk, &msg, &sig[1..]).unwrap_err(), AdapterError::Encoding);
    // A key of another variant's length is rejected the same way.
    assert_eq!(verify(Variant::MlDsa65, &kp.vk, &msg, &sig).unwrap_err(), AdapterError::Encoding);
}

#[test]
fn invalid_scalar_is_a_generation_error() {
    // 32 bytes of 0xff exceed the secp256k1 group order, and the zero
    // scalar is forbidden: both have the right length but decode to no
    // valid signing key.
    let msg = fixed_message();
    assert_eq!(
        sign(Variant::EcdsaK256, &[0xffu8; 32], &msg).unwrap_err(),
        AdapterError::Generation
    );
    assert_eq!(sign(Variant::EcdsaK256, &[0u8; 32], &msg).unwrap_err(), AdapterError::Generation);
}

#[test]
fn invalid_point_is_an_encoding_error() {
    let v = Variant::EcdsaK256;
    let (kp, _) = generate_keypair(v);
    let msg = fixed_message();
    let (sig, _) = sign(v, &kp.sk, &msg).unwrap();
    // 33 zero bytes have the right length but are no SEC1 point.
    assert_eq!(verify(v, &[0u8; 33], &msg, &sig).unwrap_err(), AdapterError::Encoding);
}

#[test]
fn slh_dsa_128s_keypair_has_scheme_defined_lengths() {
    let (kp, _) = generate_keypair(Variant::SlhDsa128s);
    assert_eq!(kp.sk.len(), 64);
    assert_eq!(kp.vk.len(), 32);
}

#[test]
fn slh_dsa_192s_keypair_has_scheme_defined_lengths() {
    let (kp, _) = generate_keypair(Variant::SlhDsa192s);
    assert_eq!(kp.sk.len(), 96);
    assert_eq!(kp.vk.len(), 48);
}

#[test]
fn slh_dsa_192f_keypair_has_scheme_defined_lengths() {
    let (kp, _) = generate_keypair(Variant::SlhDsa192f);
    assert_eq!(kp.sk.len(), 96);
    assert_eq!(kp.vk.len(), 48);
}

#[test]
fn slh_dsa_256s_keypair_has_scheme_defined_lengths() {
    let (kp, _) = generate_keypair(Variant::SlhDsa256s);
    assert_eq!(kp.sk.len(), 128);
    assert_eq!(kp.vk.len(), 64);
}

#[test]
fn slh_dsa_256f_keypair_has_scheme_defined_lengths() {
    let (kp, _) = generate_keypair(Variant::SlhDsa256f);
    assert_eq!(kp.sk.len(), 128);
    assert_eq!(kp.vk.len(), 64);
}

#[test]
fn baseline_sizes_are_the_classical_constants() {
    let b = measure_baseline().unwrap();
    assert_eq!(b.pk_len, 33);
    assert_eq!(b.sig_len, 64);
}

#[test]
fn measured_variant_sizes_match_the_scheme_constants() {
    let (pk_len, sig_len) = measure_variant(Variant::MlDsa65).unwrap();
    assert_eq!(pk_len, 1952);
    assert_eq!(sig_len, 3309);
}
