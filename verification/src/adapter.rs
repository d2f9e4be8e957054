//! The uniform, variant-agnostic capability surface over the signature
//! schemes.
//!
//! Every operation here dispatches on a [`Variant`] to the matching
//! trusted backend call and is itself verified: a generated key pair
//! carries encodings of the scheme-defined lengths, a produced signature
//! has the scheme-defined length, and malformed input (a wrong length)
//! is reported as an encoding error, never conflated with a signature
//! that verification merely rejects.

use vstd::prelude::*;

use crate::backend;
use crate::backend::KeyPairBytes;
use crate::scheme::Family;
use crate::scheme::Variant;

verus! {

/// Why an adapter operation failed.
#[derive(Clone, Copy, Debug, PartialEq, Eq, Structural)]
pub enum AdapterError {
    /// Key generation or signing failed inside the underlying library.
    Generation,
    /// A key or signature had a malformed canonical encoding.
    Encoding,
}

/// A key pair is well formed for a variant when both encodings have the
/// scheme-defined lengths.
pub open spec fn keypair_wf(kp: KeyPairBytes, v: Variant) -> bool {
    kp.sk@.len() == v.sk_len_spec() && kp.vk@.len() == v.pk_len_spec()
}

/// Generate one fresh key pair for the variant, drawing fresh entropy
/// from the operating system's random source.  Also reports the elapsed
/// wall-clock nanoseconds of the generation call, randomness acquisition
/// included.
pub fn generate_keypair(v: Variant) -> (r: (KeyPairBytes, u64))
    ensures
        keypair_wf(r.0, v),
{
    match v {
        Variant::EcdsaK256 => backend::ecdsa_keygen(),
        Variant::MlDsa44 => backend::ml44_keygen(),
        Variant::MlDsa65 => backend::ml65_keygen(),
        Variant::MlDsa87 => backend::ml87_keygen(),
        Variant::SlhDsa128s => backend::slh128s_keygen(),
        Variant::SlhDsa128f => backend::slh128f_keygen(),
        Variant::SlhDsa192s => backend::slh192s_keygen(),
        Variant::SlhDsa192f => backend::slh192f_keygen(),
        Variant::SlhDsa256s => backend::slh256s_keygen(),
        Variant::SlhDsa256f => backend::slh256f_keygen(),
    }
}

/// Sign the message under the variant's scheme with the encoded signing
/// key.  On success the encoded signature has the scheme-defined length;
/// the second component is the elapsed wall-clock nanoseconds of the
/// signing call alone (decoding the key is outside the measured window).
/// A signing key whose encoding does not have the scheme-defined length
/// is rejected as an encoding error.  For the post-quantum schemes a
/// well-lengthed key always signs; only the classical scheme can reject
/// key bytes that decode to no valid scalar, and such a failure is a
/// generation error, never an encoding error.
pub fn sign(v: Variant, sk: &[u8], msg: &[u8]) -> (r: Result<(Vec<u8>, u64), AdapterError>)
    ensures
        sk@.len() != v.sk_len_spec() ==> r == Result::<(Vec<u8>, u64), AdapterError>::Err(
            AdapterError::Encoding,
        ),
        sk@.len() == v.sk_len_spec() && v != Variant::EcdsaK256 ==> r is Ok,
        sk@.len() == v.sk_len_spec() && r is Err ==> r == Result::<(Vec<u8>, u64), AdapterError>::Err(
            AdapterError::Generation,
        ),
        r matches Ok(s) ==> s.0@.len() == v.sig_len_spec(),
{
    if sk.len() as u64 != v.sk_len() {
        return Err(AdapterError::Encoding);
    }
    let out = match v {
        Variant::EcdsaK256 => backend::ecdsa_sign(sk, msg),
        Variant::MlDsa44 => backend::ml44_sign(sk, msg),
        Variant::MlDsa65 => backend::ml65_sign(sk, msg),
        Variant::MlDsa87 => backend::ml87_sign(sk, msg),
        Variant::SlhDsa128s => backend::slh128s_sign(sk, msg),
        Variant::SlhDsa128f => backend::slh128f_sign(sk, msg),
        Variant::SlhDsa192s => backend::slh192s_sign(sk, msg),
        Variant::SlhDsa192f => backend::slh192f_sign(sk, msg),
        Variant::SlhDsa256s => backend::slh256s_sign(sk, msg),
        Variant::SlhDsa256f => backend::slh256f_sign(sk, msg),
    };
    match out {
        Some(s) => Ok(s),
        None => Err(AdapterError::Generation),
    }
}

/// Verify the encoded signature over the message under the variant's
/// scheme with the encoded verifying key.  `Ok(true)` is acceptance,
/// `Ok(false)` a well-formed signature the scheme rejects, and
/// `Err(Encoding)` a key or signature whose encoding is malformed —
/// in particular whenever either length differs from the scheme-defined
/// one.  For the hash-based schemes every well-lengthed input reaches a
/// verdict.  The second component of a verdict is the elapsed
/// wall-clock nanoseconds of the verification call alone.
pub fn verify(v: Variant, vk: &[u8], msg: &[u8], sig: &[u8]) -> (r: Result<
    (bool, u64),
    AdapterError,
>)
    ensures
        vk@.len() != v.pk_len_spec() || sig@.len() != v.sig_len_spec() ==> r == Result::<
            (bool, u64),
            AdapterError,
        >::Err(AdapterError::Encoding),
        vk@.len() == v.pk_len_spec() && sig@.len() == v.sig_len_spec() && v.family_spec()
            == Family::HashBased ==> r is Ok,
        r matches Err(e) ==> e == AdapterError::Encoding,
{
    if vk.len() as u64 != v.pk_len() || sig.len() as u64 != v.sig_len() {
        return Err(AdapterError::Encoding);
    }
    let out = match v {
        Variant::EcdsaK256 => backend::ecdsa_verify(vk, msg, sig),
        Variant::MlDsa44 => backend::ml44_verify(vk, msg, sig),
        Variant::MlDsa65 => backend::ml65_verify(vk, msg, sig),
        Variant::MlDsa87 => backend::ml87_verify(vk, msg, sig),
        Variant::SlhDsa128s => backend::slh128s_verify(vk, msg, sig),
        Variant::SlhDsa128f => backend::slh128f_verify(vk, msg, sig),
        Variant::SlhDsa192s => backend::slh192s_verify(vk, msg, sig),
        Variant::SlhDsa192f => backend::slh192f_verify(vk, msg, sig),
        Variant::SlhDsa256s => backend::slh256s_verify(vk, msg, sig),
        Variant::SlhDsa256f => backend::slh256f_verify(vk, msg, sig),
    };
    match out {
        Some(s) => Ok(s),
        None => Err(AdapterError::Encoding),
    }
}

} // verus!
