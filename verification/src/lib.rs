//! Comparative measurement harness for digital-signature algorithm families.
//!
//! The crate benchmarks and compares a classical elliptic-curve scheme
//! (ECDSA over secp256k1) against two post-quantum families: ML-DSA, a
//! lattice-based scheme with three security variants, and SLH-DSA, a
//! hash-based scheme with six security/speed variants.  The cryptography
//! itself is delegated to external libraries behind a narrow byte-level
//! adapter; everything this crate computes on top of it — encoded sizes,
//! size ratios against the classical baseline, sampling policy, and
//! latency statistics — is verified.

pub mod adapter;
pub mod backend;
pub mod comparator;
pub mod harness;
pub mod render;
pub mod scheme;
pub mod stats;
