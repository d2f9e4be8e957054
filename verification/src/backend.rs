//! Trusted byte-level adapter over the external signature libraries.
//!
//! Each wrapper performs exactly one signature-lifecycle operation of one
//! algorithm variant — key generation, signing, or verification — against
//! the external cryptographic crate, converting keys and signatures to
//! and from their canonical byte encodings at the boundary.  The stated
//! encoded lengths are the fixed sizes of the schemes, as the external
//! crates' sources define them.
//!
//! Each wrapper also reports the elapsed wall-clock time of the
//! cryptographic call itself in nanoseconds, read from the monotonic
//! clock immediately around the call, so that decoding a key from bytes
//! is never part of the measured window.  Nothing is promised of a
//! measured duration: wall-clock time is not a function of the inputs.

use vstd::prelude::*;

verus! {

/// A generated key pair, held as the canonical byte encodings of its
/// signing key and verifying key.
pub struct KeyPairBytes {
    /// Canonical encoding of the signing (secret) key.
    pub sk: Vec<u8>,
    /// Canonical encoding of the verifying (public) key.
    pub vk: Vec<u8>,
}

// ---------------------------------------------------------------------------
// ECDSA over secp256k1 (classical baseline)
// ---------------------------------------------------------------------------

/// Relies on `k256::ecdsa::SigningKey::random` for key generation, on
/// `SigningKey::to_bytes` for the 32-byte scalar encoding, and on
/// `VerifyingKey::to_sec1_bytes` for the compressed 33-byte SEC1 point
/// encoding (k256 sets `COMPRESS_POINTS = true`).
#[verifier::external_body]
pub(crate) fn ecdsa_keygen() -> (r: (KeyPairBytes, u64))
    ensures
        r.0.sk@.len() == 32,
        r.0.vk@.len() == 33,
{
    let t = std::time::Instant::now();
    let sk = k256::ecdsa::SigningKey::random(&mut rand_core::OsRng);
    let nanos = u64::try_from(t.elapsed().as_nanos()).unwrap_or(u64::MAX);
    let vk = k256::ecdsa::VerifyingKey::from(&sk);
    let kp = KeyPairBytes { sk: sk.to_bytes().to_vec(), vk: vk.to_sec1_bytes().to_vec() };
    (kp, nanos)
}

/// Relies on `k256::ecdsa::SigningKey::from_slice` to decode a 32-byte
/// scalar and on `signature::Signer::try_sign` (deterministic RFC 6979
/// ECDSA) whose encoding `Signature::to_bytes` is the fixed 64-byte
/// `r || s` form.  `None` is returned when the key bytes are not a valid
/// non-zero scalar or signing fails.
#[verifier::external_body]
pub(crate) fn ecdsa_sign(sk: &[u8], msg: &[u8]) -> (r: Option<(Vec<u8>, u64)>)
    requires
        sk@.len() == 32,
    ensures
        r matches Some(s) ==> s.0@.len() == 64,
{
    let key = match k256::ecdsa::SigningKey::from_slice(sk) {
        Ok(k) => k,
        Err(_) => return None,
    };
    let t = std::time::Instant::now();
    let sig: k256::ecdsa::Signature = match signature::Signer::try_sign(&key, msg) {
        Ok(s) => s,
        Err(_) => return None,
    };
    let nanos = u64::try_from(t.elapsed().as_nanos()).unwrap_or(u64::MAX);
    Some((sig.to_bytes().to_vec(), nanos))
}

/// Relies on `k256::ecdsa::VerifyingKey::from_sec1_bytes` and
/// `Signature::from_slice` to decode the artifacts and on
/// `signature::Verifier::verify` for the verdict.  `None` is returned
/// when either artifact does not decode (a malformed point or an
/// out-of-range scalar); `Some((false, _))` is a well-formed signature
/// that the scheme rejects.
#[verifier::external_body]
pub(crate) fn ecdsa_verify(vk: &[u8], msg: &[u8], sig: &[u8]) -> (r: Option<(bool, u64)>)
    requires
        vk@.len() == 33,
        sig@.len() == 64,
{
    let key = match k256::ecdsa::VerifyingKey::from_sec1_bytes(vk) {
        Ok(k) => k,
        Err(_) => return None,
    };
    let s = match k256::ecdsa::Signature::from_slice(sig) {
        Ok(s) => s,
        Err(_) => return None,
    };
    let t = std::time::Instant::now();
    let accepted = signature::Verifier::verify(&key, msg, &s).is_ok();
    let nanos = u64::try_from(t.elapsed().as_nanos()).unwrap_or(u64::MAX);
    Some((accepted, nanos))
}

// ---------------------------------------------------------------------------
// ML-DSA (lattice family)
// ---------------------------------------------------------------------------

/// Relies on `ml_dsa::KeyGen::key_gen` for ML-DSA-44 key generation and
/// on the `encode` methods of the signing and verifying keys, whose
/// outputs are the fixed FIPS 204 sizes: 2560 and 1312 bytes.
#[verifier::external_body]
pub(crate) fn ml44_keygen() -> (r: (KeyPairBytes, u64))
    ensures
        r.0.sk@.len() == 2560,
        r.0.vk@.len() == 1312,
{
    let t = std::time::Instant::now();
    let kp = <ml_dsa::MlDsa44 as ml_dsa::KeyGen>::key_gen(&mut rand_core::OsRng);
    let nanos = u64::try_from(t.elapsed().as_nanos()).unwrap_or(u64::MAX);
    let sk = kp.signing_key().encode().as_slice().to_vec();
    let vk = kp.verifying_key().encode().as_slice().to_vec();
    (KeyPairBytes { sk, vk }, nanos)
}

/// Relies on `ml_dsa::SigningKey::decode` (infallible on a 2560-byte
/// array) and `signature::Signer::try_sign`, the deterministic ML-DSA-44
/// variant, whose `Signature::encode` is the fixed 2420-byte form.
/// Deterministic signing with an empty context never fails, so a
/// signature always comes back.
#[verifier::external_body]
pub(crate) fn ml44_sign(sk: &[u8], msg: &[u8]) -> (r: Option<(Vec<u8>, u64)>)
    requires
        sk@.len() == 2560,
    ensures
        r is Some,
        r matches Some(s) ==> s.0@.len() == 2420,
{
    let enc = match ml_dsa::EncodedSigningKey::<ml_dsa::MlDsa44>::try_from(sk) {
        Ok(e) => e,
        Err(_) => return None,
    };
    let key = ml_dsa::SigningKey::<ml_dsa::MlDsa44>::decode(&enc);
    let t = std::time::Instant::now();
    let sig = match signature::Signer::try_sign(&key, msg) {
        Ok(s) => s,
        Err(_) => return None,
    };
    let nanos = u64::try_from(t.elapsed().as_nanos()).unwrap_or(u64::MAX);
    Some((sig.encode().as_slice().to_vec(), nanos))
}

/// Relies on `ml_dsa::VerifyingKey::decode`, `ml_dsa::Signature::decode`
/// (which rejects a malformed hint encoding with `None`) and
/// `signature::Verifier::verify` for the ML-DSA-44 verdict.
#[verifier::external_body]
pub(crate) fn ml44_verify(vk: &[u8], msg: &[u8], sig: &[u8]) -> (r: Option<(bool, u64)>)
    requires
        vk@.len() == 1312,
        sig@.len() == 2420,
{
    let kenc = ml_dsa::EncodedVerifyingKey::<ml_dsa::MlDsa44>::try_from(vk).ok()?;
    let key = ml_dsa::VerifyingKey::<ml_dsa::MlDsa44>::decode(&kenc);
    let senc = ml_dsa::EncodedSignature::<ml_dsa::MlDsa44>::try_from(sig).ok()?;
    let s = ml_dsa::Signature::<ml_dsa::MlDsa44>::decode(&senc)?;
    let t = std::time::Instant::now();
    let accepted = signature::Verifier::verify(&key, msg, &s).is_ok();
    let nanos = u64::try_from(t.elapsed().as_nanos()).unwrap_or(u64::MAX);
    Some((accepted, nanos))
}

/// Relies on `ml_dsa::KeyGen::key_gen` for ML-DSA-65 key generation and
/// on the key `encode` methods, whose outputs are the fixed FIPS 204
/// sizes: 4032 and 1952 bytes.
#[verifier::external_body]
pub(crate) fn ml65_keygen() -> (r: (KeyPairBytes, u64))
    ensures
        r.0.sk@.len() == 4032,
        r.0.vk@.len() == 1952,
{
    let t = std::time::Instant::now();
    let kp = <ml_dsa::MlDsa65 as ml_dsa::KeyGen>::key_gen(&mut rand_core::OsRng);
    let nanos = u64::try_from(t.elapsed().as_nanos()).unwrap_or(u64::MAX);
    let sk = kp.signing_key().encode().as_slice().to_vec();
    let vk = kp.verifying_key().encode().as_slice().to_vec();
    (KeyPairBytes { sk, vk }, nanos)
}

/// Relies on `ml_dsa::SigningKey::decode` (infallible on a 4032-byte
/// array) and `signature::Signer::try_sign`, the deterministic ML-DSA-65
/// variant, whose `Signature::encode` is the fixed 3309-byte form.
/// Deterministic signing with an empty context never fails, so a
/// signature always comes back.
#[verifier::external_body]
pub(crate) fn ml65_sign(sk: &[u8], msg: &[u8]) -> (r: Option<(Vec<u8>, u64)>)
    requires
        sk@.len() == 4032,
    ensures
        r is Some,
        r matches Some(s) ==> s.0@.len() == 3309,
{
    let enc = match ml_dsa::EncodedSigningKey::<ml_dsa::MlDsa65>::try_from(sk) {
        Ok(e) => e,
        Err(_) => return None,
    };
    let key = ml_dsa::SigningKey::<ml_dsa::MlDsa65>::decode(&enc);
    let t = std::time::Instant::now();
    let sig = match signature::Signer::try_sign(&key, msg) {
        Ok(s) => s,
        Err(_) => return None,
    };
    let nanos = u64::try_from(t.elapsed().as_nanos()).unwrap_or(u64::MAX);
    Some((sig.encode().as_slice().to_vec(), nanos))
}

/// Relies on `ml_dsa::VerifyingKey::decode`, `ml_dsa::Signature::decode`
/// (which rejects a malformed hint encoding with `None`) and
/// `signature::Verifier::verify` for the ML-DSA-65 verdict.
#[verifier::external_body]
pub(crate) fn ml65_verify(vk: &[u8], msg: &[u8], sig: &[u8]) -> (r: Option<(bool, u64)>)
    requires
        vk@.len() == 1952,
        sig@.len() == 3309,
{
    let kenc = ml_dsa::EncodedVerifyingKey::<ml_dsa::MlDsa65>::try_from(vk).ok()?;
    let key = ml_dsa::VerifyingKey::<ml_dsa::MlDsa65>::decode(&kenc);
    let senc = ml_dsa::EncodedSignature::<ml_dsa::MlDsa65>::try_from(sig).ok()?;
    let s = ml_dsa::Signature::<ml_dsa::MlDsa65>::decode(&senc)?;
    let t = std::time::Instant::now();
    let accepted = signature::Verifier::verify(&key, msg, &s).is_ok();
    let nanos = u64::try_from(t.elapsed().as_nanos()).unwrap_or(u64::MAX);
    Some((accepted, nanos))
}

/// Relies on `ml_dsa::KeyGen::key_gen` for ML-DSA-87 key generation and
/// on the key `encode` methods, whose outputs are the fixed FIPS 204
/// sizes: 4896 and 2592 bytes.
#[verifier::external_body]
pub(crate) fn ml87_keygen() -> (r: (KeyPairBytes, u64))
    ensures
        r.0.sk@.len() == 4896,
        r.0.vk@.len() == 2592,
{
    let t = std::time::Instant::now();
    let kp = <ml_dsa::MlDsa87 as ml_dsa::KeyGen>::key_gen(&mut rand_core::OsRng);
    let nanos = u64::try_from(t.elapsed().as_nanos()).unwrap_or(u64::MAX);
    let sk = kp.signing_key().encode().as_slice().to_vec();
    let vk = kp.verifying_key().encode().as_slice().to_vec();
    (KeyPairBytes { sk, vk }, nanos)
}

/// Relies on `ml_dsa::SigningKey::decode` (infallible on a 4896-byte
/// array) and `signature::Signer::try_sign`, the deterministic ML-DSA-87
/// variant, whose `Signature::encode` is the fixed 4627-byte form.
/// Deterministic signing with an empty context never fails, so a
/// signature always comes back.
#[verifier::external_body]
pub(crate) fn ml87_sign(sk: &[u8], msg: &[u8]) -> (r: Option<(Vec<u8>, u64)>)
    requires
        sk@.len() == 4896,
    ensures
        r is Some,
        r matches Some(s) ==> s.0@.len() == 4627,
{
    let enc = match ml_dsa::EncodedSigningKey::<ml_dsa::MlDsa87>::try_from(sk) {
        Ok(e) => e,
        Err(_) => return None,
    };
    let key = ml_dsa::SigningKey::<ml_dsa::MlDsa87>::decode(&enc);
    let t = std::time::Instant::now();
    let sig = match signature::Signer::try_sign(&key, msg) {
        Ok(s) => s,
        Err(_) => return None,
    };
    let nanos = u64::try_from(t.elapsed().as_nanos()).unwrap_or(u64::MAX);
    Some((sig.encode().as_slice().to_vec(), nanos))
}

/// Relies on `ml_dsa::VerifyingKey::decode`, `ml_dsa::Signature::decode`
/// (which rejects a malformed hint encoding with `None`) and
/// `signature::Verifier::verify` for the ML-DSA-87 verdict.
#[verifier::external_body]
pub(crate) fn ml87_verify(vk: &[u8], msg: &[u8], sig: &[u8]) -> (r: Option<(bool, u64)>)
    requires
        vk@.len() == 2592,
        sig@.len() == 4627,
{
    let kenc = ml_dsa::EncodedVerifyingKey::<ml_dsa::MlDsa87>::try_from(vk).ok()?;
    let key = ml_dsa::VerifyingKey::<ml_dsa::MlDsa87>::decode(&kenc);
    let senc = ml_dsa::EncodedSignature::<ml_dsa::MlDsa87>::try_from(sig).ok()?;
    let s = ml_dsa::Signature::<ml_dsa::MlDsa87>::decode(&senc)?;
    let t = std::time::Instant::now();
    let accepted = signature::Verifier::verify(&key, msg, &s).is_ok();
    let nanos = u64::try_from(t.elapsed().as_nanos()).unwrap_or(u64::MAX);
    Some((accepted, nanos))
}

// ---------------------------------------------------------------------------
// SLH-DSA (hash family, SHA2 parameter sets)
// ---------------------------------------------------------------------------

/// Relies on `slh_dsa::SigningKey::<Sha2_128s>::new` for key generation
/// and on the `to_bytes` encodings, whose FIPS 205 sizes are 64 and 32
/// bytes.
#[verifier::external_body]
pub(crate) fn slh128s_keygen() -> (r: (KeyPairBytes, u64))
    ensures
        r.0.sk@.len() == 64,
        r.0.vk@.len() == 32,
{
    let t = std::time::Instant::now();
    let sk = slh_dsa::SigningKey::<slh_dsa::Sha2_128s>::new(&mut rand_core::OsRng);
    let nanos = u64::try_from(t.elapsed().as_nanos()).unwrap_or(u64::MAX);
    let vk = signature::Keypair::verifying_key(&sk);
    let kp = KeyPairBytes { sk: sk.to_bytes().as_slice().to_vec(), vk: vk.to_bytes().as_slice().to_vec() };
    (kp, nanos)
}

/// Relies on `slh_dsa::SigningKey::try_from` (which accepts exactly
/// 64 bytes) and `signature::Signer::try_sign`, the deterministic
/// SLH-DSA-SHA2-128s variant with the fixed 7856-byte signature.
/// Deterministic signing with an empty context never fails, so a
/// signature always comes back.
#[verifier::external_body]
pub(crate) fn slh128s_sign(sk: &[u8], msg: &[u8]) -> (r: Option<(Vec<u8>, u64)>)
    requires
        sk@.len() == 64,
    ensures
        r is Some,
        r matches Some(s) ==> s.0@.len() == 7856,
{
    let key = match slh_dsa::SigningKey::<slh_dsa::Sha2_128s>::try_from(sk) {
        Ok(k) => k,
        Err(_) => return None,
    };
    let t = std::time::Instant::now();
    let sig = match signature::Signer::try_sign(&key, msg) {
        Ok(s) => s,
        Err(_) => return None,
    };
    let nanos = u64::try_from(t.elapsed().as_nanos()).unwrap_or(u64::MAX);
    Some((sig.to_bytes().as_slice().to_vec(), nanos))
}

/// Relies on `slh_dsa::VerifyingKey::try_from` and
/// `slh_dsa::Signature::try_from` (each accepting exactly its fixed
/// length) and `signature::Verifier::verify` for the SLH-DSA-SHA2-128s
/// verdict.  Both decodings accept any input of the stated length, so a
/// verdict is always reached.
#[verifier::external_body]
pub(crate) fn slh128s_verify(vk: &[u8], msg: &[u8], sig: &[u8]) -> (r: Option<(bool, u64)>)
    requires
        vk@.len() == 32,
        sig@.len() == 7856,
    ensures
        r is Some,
{
    let key = match slh_dsa::VerifyingKey::<slh_dsa::Sha2_128s>::try_from(vk) {
        Ok(k) => k,
        Err(_) => return None,
    };
    let s = match slh_dsa::Signature::<slh_dsa::Sha2_128s>::try_from(sig) {
        Ok(s) => s,
        Err(_) => return None,
    };
    let t = std::time::Instant::now();
    let accepted = signature::Verifier::verify(&key, msg, &s).is_ok();
    let nanos = u64::try_from(t.elapsed().as_nanos()).unwrap_or(u64::MAX);
    Some((accepted, nanos))
}

/// Relies on `slh_dsa::SigningKey::<Sha2_128f>::new` for key generation
/// and on the `to_bytes` encodings, whose FIPS 205 sizes are 64 and 32
/// bytes.
#[verifier::external_body]
pub(crate) fn slh128f_keygen() -> (r: (KeyPairBytes, u64))
    ensures
        r.0.sk@.len() == 64,
        r.0.vk@.len() == 32,
{
    let t = std::time::Instant::now();
    let sk = slh_dsa::SigningKey::<slh_dsa::Sha2_128f>::new(&mut rand_core::OsRng);
    let nanos = u64::try_from(t.elapsed().as_nanos()).unwrap_or(u64::MAX);
    let vk = signature::Keypair::verifying_key(&sk);
    let kp = KeyPairBytes { sk: sk.to_bytes().as_slice().to_vec(), vk: vk.to_bytes().as_slice().to_vec() };
    (kp, nanos)
}

/// Relies on `slh_dsa::SigningKey::try_from` (which accepts exactly
/// 64 bytes) and `signature::Signer::try_sign`, the deterministic
/// SLH-DSA-SHA2-128f variant with the fixed 17088-byte signature.
/// Deterministic signing with an empty context never fails, so a
/// signature always comes back.
#[verifier::external_body]
pub(crate) fn slh128f_sign(sk: &[u8], msg: &[u8]) -> (r: Option<(Vec<u8>, u64)>)
    requires
        sk@.len() == 64,
    ensures
        r is Some,
        r matches Some(s) ==> s.0@.len() == 17088,
{
    let key = match slh_dsa::SigningKey::<slh_dsa::Sha2_128f>::try_from(sk) {
        Ok(k) => k,
        Err(_) => return None,
    };
    let t = std::time::Instant::now();
    let sig = match signature::Signer::try_sign(&key, msg) {
        Ok(s) => s,
        Err(_) => return None,
    };
    let nanos = u64::try_from(t.elapsed().as_nanos()).unwrap_or(u64::MAX);
    Some((sig.to_bytes().as_slice().to_vec(), nanos))
}

/// Relies on `slh_dsa::VerifyingKey::try_from` and
/// `slh_dsa::Signature::try_from` (each accepting exactly its fixed
/// length) and `signature::Verifier::verify` for the SLH-DSA-SHA2-128f
/// verdict.  Both decodings accept any input of the stated length, so a
/// verdict is always reached.
#[verifier::external_body]
pub(crate) fn slh128f_verify(vk: &[u8], msg: &[u8], sig: &[u8]) -> (r: Option<(bool, u64)>)
    requires
        vk@.len() == 32,
        sig@.len() == 17088,
    ensures
        r is Some,
{
    let key = match slh_dsa::VerifyingKey::<slh_dsa::Sha2_128f>::try_from(vk) {
        Ok(k) => k,
        Err(_) => return None,
    };
    let s = match slh_dsa::Signature::<slh_dsa::Sha2_128f>::try_from(sig) {
        Ok(s) => s,
        Err(_) => return None,
    };
    let t = std::time::Instant::now();
    let accepted = signature::Verifier::verify(&key, msg, &s).is_ok();
    let nanos = u64::try_from(t.elapsed().as_nanos()).unwrap_or(u64::MAX);
    Some((accepted, nanos))
}

/// Relies on `slh_dsa::SigningKey::<Sha2_192s>::new` for key generation
/// and on the `to_bytes` encodings, whose FIPS 205 sizes are 96 and 48
/// bytes.
#[verifier::external_body]
pub(crate) fn slh192s_keygen() -> (r: (KeyPairBytes, u64))
    ensures
        r.0.sk@.len() == 96,
        r.0.vk@.len() == 48,
{
    let t = std::time::Instant::now();
    let sk = slh_dsa::SigningKey::<slh_dsa::Sha2_192s>::new(&mut rand_core::OsRng);
    let nanos = u64::try_from(t.elapsed().as_nanos()).unwrap_or(u64::MAX);
    let vk = signature::Keypair::verifying_key(&sk);
    let kp = KeyPairBytes { sk: sk.to_bytes().as_slice().to_vec(), vk: vk.to_bytes().as_slice().to_vec() };
    (kp, nanos)
}

/// Relies on `slh_dsa::SigningKey::try_from` (which accepts exactly
/// 96 bytes) and `signature::Signer::try_sign`, the deterministic
/// SLH-DSA-SHA2-192s variant with the fixed 16224-byte signature.
/// Deterministic signing with an empty context never fails, so a
/// signature always comes back.
#[verifier::external_body]
pub(crate) fn slh192s_sign(sk: &[u8], msg: &[u8]) -> (r: Option<(Vec<u8>, u64)>)
    requires
        sk@.len() == 96,
    ensures
        r is Some,
        r matches Some(s) ==> s.0@.len() == 16224,
{
    let key = match slh_dsa::SigningKey::<slh_dsa::Sha2_192s>::try_from(sk) {
        Ok(k) => k,
        Err(_) => return None,
    };
    let t = std::time::Instant::now();
    let sig = match signature::Signer::try_sign(&key, msg) {
        Ok(s) => s,
        Err(_) => return None,
    };
    let nanos = u64::try_from(t.elapsed().as_nanos()).unwrap_or(u64::MAX);
    Some((sig.to_bytes().as_slice().to_vec(), nanos))
}

/// Relies on `slh_dsa::VerifyingKey::try_from` and
/// `slh_dsa::Signature::try_from` (each accepting exactly its fixed
/// length) and `signature::Verifier::verify` for the SLH-DSA-SHA2-192s
/// verdict.  Both decodings accept any input of the stated length, so a
/// verdict is always reached.
#[verifier::external_body]
pub(crate) fn slh192s_verify(vk: &[u8], msg: &[u8], sig: &[u8]) -> (r: Option<(bool, u64)>)
    requires
        vk@.len() == 48,
        sig@.len() == 16224,
    ensures
        r is Some,
{
    let key = match slh_dsa::VerifyingKey::<slh_dsa::Sha2_192s>::try_from(vk) {
        Ok(k) => k,
        Err(_) => return None,
    };
    let s = match slh_dsa::Signature::<slh_dsa::Sha2_192s>::try_from(sig) {
        Ok(s) => s,
        Err(_) => return None,
    };
    let t = std::time::Instant::now();
    let accepted = signature::Verifier::verify(&key, msg, &s).is_ok();
    let nanos = u64::try_from(t.elapsed().as_nanos()).unwrap_or(u64::MAX);
    Some((accepted, nanos))
}

/// Relies on `slh_dsa::SigningKey::<Sha2_192f>::new` for key generation
/// and on the `to_bytes` encodings, whose FIPS 205 sizes are 96 and 48
/// bytes.
#[verifier::external_body]
pub(crate) fn slh192f_keygen() -> (r: (KeyPairBytes, u64))
    ensures
        r.0.sk@.len() == 96,
        r.0.vk@.len() == 48,
{
    let t = std::time::Instant::now();
    let sk = slh_dsa::SigningKey::<slh_dsa::Sha2_192f>::new(&mut rand_core::OsRng);
    let nanos = u64::try_from(t.elapsed().as_nanos()).unwrap_or(u64::MAX);
    let vk = signature::Keypair::verifying_key(&sk);
    let kp = KeyPairBytes { sk: sk.to_bytes().as_slice().to_vec(), vk: vk.to_bytes().as_slice().to_vec() };
    (kp, nanos)
}

/// Relies on `slh_dsa::SigningKey::try_from` (which accepts exactly
/// 96 bytes) and `signature::Signer::try_sign`, the deterministic
/// SLH-DSA-SHA2-192f variant with the fixed 35664-byte signature.
/// Deterministic signing with an empty context never fails, so a
/// signature always comes back.
#[verifier::external_body]
pub(crate) fn slh192f_sign(sk: &[u8], msg: &[u8]) -> (r: Option<(Vec<u8>, u64)>)
    requires
        sk@.len() == 96,
    ensures
        r is Some,
        r matches Some(s) ==> s.0@.len() == 35664,
{
    let key = match slh_dsa::SigningKey::<slh_dsa::Sha2_192f>::try_from(sk) {
        Ok(k) => k,
        Err(_) => return None,
    };
    let t = std::time::Instant::now();
    let sig = match signature::Signer::try_sign(&key, msg) {
        Ok(s) => s,
        Err(_) => return None,
    };
    let nanos = u64::try_from(t.elapsed().as_nanos()).unwrap_or(u64::MAX);
    Some((sig.to_bytes().as_slice().to_vec(), nanos))
}

/// Relies on `slh_dsa::VerifyingKey::try_from` and
/// `slh_dsa::Signature::try_from` (each accepting exactly its fixed
/// length) and `signature::Verifier::verify` for the SLH-DSA-SHA2-192f
/// verdict.  Both decodings accept any input of the stated length, so a
/// verdict is always reached.
#[verifier::external_body]
pub(crate) fn slh192f_verify(vk: &[u8], msg: &[u8], sig: &[u8]) -> (r: Option<(bool, u64)>)
    requires
        vk@.len() == 48,
        sig@.len() == 35664,
    ensures
        r is Some,
{
    let key = match slh_dsa::VerifyingKey::<slh_dsa::Sha2_192f>::try_from(vk) {
        Ok(k) => k,
        Err(_) => return None,
    };
    let s = match slh_dsa::Signature::<slh_dsa::Sha2_192f>::try_from(sig) {
        Ok(s) => s,
        Err(_) => return None,
    };
    let t = std::time::Instant::now();
    let accepted = signature::Verifier::verify(&key, msg, &s).is_ok();
    let nanos = u64::try_from(t.elapsed().as_nanos()).unwrap_or(u64::MAX);
    Some((accepted, nanos))
}

/// Relies on `slh_dsa::SigningKey::<Sha2_256s>::new` for key generation
/// and on the `to_bytes` encodings, whose FIPS 205 sizes are 128 and 64
/// bytes.
#[verifier::external_body]
pub(crate) fn slh256s_keygen() -> (r: (KeyPairBytes, u64))
    ensures
        r.0.sk@.len() == 128,
        r.0.vk@.len() == 64,
{
    let t = std::time::Instant::now();
    let sk = slh_dsa::SigningKey::<slh_dsa::Sha2_256s>::new(&mut rand_core::OsRng);
    let nanos = u64::try_from(t.elapsed().as_nanos()).unwrap_or(u64::MAX);
    let vk = signature::Keypair::verifying_key(&sk);
    let kp = KeyPairBytes { sk: sk.to_bytes().as_slice().to_vec(), vk: vk.to_bytes().as_slice().to_vec() };
    (kp, nanos)
}

/// Relies on `slh_dsa::SigningKey::try_from` (which accepts exactly
/// 128 bytes) and `signature::Signer::try_sign`, the deterministic
/// SLH-DSA-SHA2-256s variant with the fixed 29792-byte signature.
/// Deterministic signing with an empty context never fails, so a
/// signature always comes back.
#[verifier::external_body]
pub(crate) fn slh256s_sign(sk: &[u8], msg: &[u8]) -> (r: Option<(Vec<u8>, u64)>)
    requires
        sk@.len() == 128,
    ensures
        r is Some,
        r matches Some(s) ==> s.0@.len() == 29792,
{
    let key = match slh_dsa::SigningKey::<slh_dsa::Sha2_256s>::try_from(sk) {
        Ok(k) => k,
        Err(_) => return None,
    };
    let t = std::time::Instant::now();
    let sig = match signature::Signer::try_sign(&key, msg) {
        Ok(s) => s,
        Err(_) => return None,
    };
    let nanos = u64::try_from(t.elapsed().as_nanos()).unwrap_or(u64::MAX);
    Some((sig.to_bytes().as_slice().to_vec(), nanos))
}

/// Relies on `slh_dsa::VerifyingKey::try_from` and
/// `slh_dsa::Signature::try_from` (each accepting exactly its fixed
/// length) and `signature::Verifier::verify` for the SLH-DSA-SHA2-256s
/// verdict.  Both decodings accept any input of the stated length, so a
/// verdict is always reached.
#[verifier::external_body]
pub(crate) fn slh256s_verify(vk: &[u8], msg: &[u8], sig: &[u8]) -> (r: Option<(bool, u64)>)
    requires
        vk@.len() == 64,
        sig@.len() == 29792,
    ensures
        r is Some,
{
    let key = match slh_dsa::VerifyingKey::<slh_dsa::Sha2_256s>::try_from(vk) {
        Ok(k) => k,
        Err(_) => return None,
    };
    let s = match slh_dsa::Signature::<slh_dsa::Sha2_256s>::try_from(sig) {
        Ok(s) => s,
        Err(_) => return None,
    };
    let t = std::time::Instant::now();
    let accepted = signature::Verifier::verify(&key, msg, &s).is_ok();
    let nanos = u64::try_from(t.elapsed().as_nanos()).unwrap_or(u64::MAX);
    Some((accepted, nanos))
}

/// Relies on `slh_dsa::SigningKey::<Sha2_256f>::new` for key generation
/// and on the `to_bytes` encodings, whose FIPS 205 sizes are 128 and 64
/// bytes.
#[verifier::external_body]
pub(crate) fn slh256f_keygen() -> (r: (KeyPairBytes, u64))
    ensures
        r.0.sk@.len() == 128,
        r.0.vk@.len() == 64,
{
    let t = std::time::Instant::now();
    let sk = slh_dsa::SigningKey::<slh_dsa::Sha2_256f>::new(&mut rand_core::OsRng);
    let nanos = u64::try_from(t.elapsed().as_nanos()).unwrap_or(u64::MAX);
    let vk = signature::Keypair::verifying_key(&sk);
    let kp = KeyPairBytes { sk: sk.to_bytes().as_slice().to_vec(), vk: vk.to_bytes().as_slice().to_vec() };
    (kp, nanos)
}

/// Relies on `slh_dsa::SigningKey::try_from` (which accepts exactly
/// 128 bytes) and `signature::Signer::try_sign`, the deterministic
/// SLH-DSA-SHA2-256f variant with the fixed 49856-byte signature.
/// Deterministic signing with an empty context never fails, so a
/// signature always comes back.
#[verifier::external_body]
pub(crate) fn slh256f_sign(sk: &[u8], msg: &[u8]) -> (r: Option<(Vec<u8>, u64)>)
    requires
        sk@.len() == 128,
    ensures
        r is Some,
        r matches Some(s) ==> s.0@.len() == 49856,
{
    let key = match slh_dsa::SigningKey::<slh_dsa::Sha2_256f>::try_from(sk) {
        Ok(k) => k,
        Err(_) => return None,
    };
    let t = std::time::Instant::now();
    let sig = match signature::Signer::try_sign(&key, msg) {
        Ok(s) => s,
        Err(_) => return None,
    };
    let nanos = u64::try_from(t.elapsed().as_nanos()).unwrap_or(u64::MAX);
    Some((sig.to_bytes().as_slice().to_vec(), nanos))
}

/// Relies on `slh_dsa::VerifyingKey::try_from` and
/// `slh_dsa::Signature::try_from` (each accepting exactly its fixed
/// length) and `signature::Verifier::verify` for the SLH-DSA-SHA2-256f
/// verdict.  Both decodings accept any input of the stated length, so a
/// verdict is always reached.
#[verifier::external_body]
pub(crate) fn slh256f_verify(vk: &[u8], msg: &[u8], sig: &[u8]) -> (r: Option<(bool, u64)>)
    requires
        vk@.len() == 64,
        sig@.len() == 49856,
    ensures
        r is Some,
{
    let key = match slh_dsa::VerifyingKey::<slh_dsa::Sha2_256f>::try_from(vk) {
        Ok(k) => k,
        Err(_) => return None,
    };
    let s = match slh_dsa::Signature::<slh_dsa::Sha2_256f>::try_from(sig) {
        Ok(s) => s,
        Err(_) => return None,
    };
    let t = std::time::Instant::now();
    let accepted = signature::Verifier::verify(&key, msg, &s).is_ok();
    let nanos = u64::try_from(t.elapsed().as_nanos()).unwrap_or(u64::MAX);
    Some((accepted, nanos))
}

} // verus!
