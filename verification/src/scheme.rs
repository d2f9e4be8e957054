//! Algorithm variants and their scheme-defined encoded sizes.
//!
//! A `Variant` names one fully specified signature-scheme configuration:
//! the classical baseline, one of three ML-DSA security levels, or one of
//! six SLH-DSA security/speed profiles.  Every variant has fixed,
//! scheme-defined byte lengths for its encoded signing key, verifying key
//! and signature; those constants are the reference values that the size
//! comparator measures against.

use vstd::prelude::*;

verus! {

/// One concrete signature-scheme configuration.
#[derive(Clone, Copy, Debug, PartialEq, Eq, Structural)]
pub enum Variant {
    /// ECDSA over secp256k1, the classical baseline.
    EcdsaK256,
    /// ML-DSA-44 (lattice family, security category 2).
    MlDsa44,
    /// ML-DSA-65 (lattice family, security category 3).
    MlDsa65,
    /// ML-DSA-87 (lattice family, security category 5).
    MlDsa87,
    /// SLH-DSA-SHA2-128s (hash family, small signatures).
    SlhDsa128s,
    /// SLH-DSA-SHA2-128f (hash family, fast signing).
    SlhDsa128f,
    /// SLH-DSA-SHA2-192s (hash family, small signatures).
    SlhDsa192s,
    /// SLH-DSA-SHA2-192f (hash family, fast signing).
    SlhDsa192f,
    /// SLH-DSA-SHA2-256s (hash family, small signatures).
    SlhDsa256s,
    /// SLH-DSA-SHA2-256f (hash family, fast signing).
    SlhDsa256f,
}

/// The algorithm family a variant belongs to.
#[derive(Clone, Copy, Debug, PartialEq, Eq, Structural)]
pub enum Family {
    /// Classical elliptic-curve scheme.
    Classical,
    /// Lattice-based post-quantum scheme (ML-DSA).
    Lattice,
    /// Hash-based post-quantum scheme (SLH-DSA).
    HashBased,
}

impl Variant {
    /// The family this variant belongs to.
    pub open spec fn family_spec(self) -> Family {
        match self {
            Variant::EcdsaK256 => Family::Classical,
            Variant::MlDsa44 | Variant::MlDsa65 | Variant::MlDsa87 => Family::Lattice,
            _ => Family::HashBased,
        }
    }

    /// The classical baseline is the reference point for size ratios.
    pub open spec fn is_baseline_spec(self) -> bool {
        self == Variant::EcdsaK256
    }

    /// Scheme-defined length in bytes of the encoded signing key.
    pub open spec fn sk_len_spec(self) -> nat {
        match self {
            Variant::EcdsaK256 => 32,
            Variant::MlDsa44 => 2560,
            Variant::MlDsa65 => 4032,
            Variant::MlDsa87 => 4896,
            Variant::SlhDsa128s => 64,
            Variant::SlhDsa128f => 64,
            Variant::SlhDsa192s => 96,
            Variant::SlhDsa192f => 96,
            Variant::SlhDsa256s => 128,
            Variant::SlhDsa256f => 128,
        }
    }

    /// Scheme-defined length in bytes of the encoded verifying key.
    pub open spec fn pk_len_spec(self) -> nat {
        match self {
            Variant::EcdsaK256 => 33,
            Variant::MlDsa44 => 1312,
            Variant::MlDsa65 => 1952,
            Variant::MlDsa87 => 2592,
            Variant::SlhDsa128s => 32,
            Variant::SlhDsa128f => 32,
            Variant::SlhDsa192s => 48,
            Variant::SlhDsa192f => 48,
            Variant::SlhDsa256s => 64,
            Variant::SlhDsa256f => 64,
        }
    }

    /// Scheme-defined length in bytes of the encoded signature.
    pub open spec fn sig_len_spec(self) -> nat {
        match self {
            Variant::EcdsaK256 => 64,
            Variant::MlDsa44 => 2420,
            Variant::MlDsa65 => 3309,
            Variant::MlDsa87 => 4627,
            Variant::SlhDsa128s => 7856,
            Variant::SlhDsa128f => 17088,
            Variant::SlhDsa192s => 16224,
            Variant::SlhDsa192f => 35664,
            Variant::SlhDsa256s => 29792,
            Variant::SlhDsa256f => 49856,
        }
    }

    /// The family this variant belongs to.
    pub fn family(self) -> (f: Family)
        ensures
            f == self.family_spec(),
    {
        match self {
            Variant::EcdsaK256 => Family::Classical,
            Variant::MlDsa44 | Variant::MlDsa65 | Variant::MlDsa87 => Family::Lattice,
            _ => Family::HashBased,
        }
    }

    /// Whether this variant is the classical baseline.
    pub fn is_baseline(self) -> (b: bool)
        ensures
            b == self.is_baseline_spec(),
    {
        matches!(self, Variant::EcdsaK256)
    }

    /// Encoded signing-key length in bytes.
    pub fn sk_len(self) -> (n: u64)
        ensures
            n as nat == self.sk_len_spec(),
    {
        match self {
            Variant::EcdsaK256 => 32,
            Variant::MlDsa44 => 2560,
            Variant::MlDsa65 => 4032,
            Variant::MlDsa87 => 4896,
            Variant::SlhDsa128s => 64,
            Variant::SlhDsa128f => 64,
            Variant::SlhDsa192s => 96,
            Variant::SlhDsa192f => 96,
            Variant::SlhDsa256s => 128,
            Variant::SlhDsa256f => 128,
        }
    }

    /// Encoded verifying-key length in bytes.
    pub fn pk_len(self) -> (n: u64)
        ensures
            n as nat == self.pk_len_spec(),
    {
        match self {
            Variant::EcdsaK256 => 33,
            Variant::MlDsa44 => 1312,
            Variant::MlDsa65 => 1952,
            Variant::MlDsa87 => 2592,
            Variant::SlhDsa128s => 32,
            Variant::SlhDsa128f => 32,
            Variant::SlhDsa192s => 48,
            Variant::SlhDsa192f => 48,
            Variant::SlhDsa256s => 64,
            Variant::SlhDsa256f => 64,
        }
    }

    /// Encoded signature length in bytes.
    pub fn sig_len(self) -> (n: u64)
        ensures
            n as nat == self.sig_len_spec(),
    {
        match self {
            Variant::EcdsaK256 => 64,
            Variant::MlDsa44 => 2420,
            Variant::MlDsa65 => 3309,
            Variant::MlDsa87 => 4627,
            Variant::SlhDsa128s => 7856,
            Variant::SlhDsa128f => 17088,
            Variant::SlhDsa192s => 16224,
            Variant::SlhDsa192f => 35664,
            Variant::SlhDsa256s => 29792,
            Variant::SlhDsa256f => 49856,
        }
    }
}

/// The configured emission order: the baseline first, then the lattice
/// variants by ascending security level, then the hash-based variants
/// grouped by security level with the small profile before the fast one.
pub open spec fn variant_order() -> Seq<Variant> {
    seq![
        Variant::EcdsaK256,
        Variant::MlDsa44,
        Variant::MlDsa65,
        Variant::MlDsa87,
        Variant::SlhDsa128s,
        Variant::SlhDsa128f,
        Variant::SlhDsa192s,
        Variant::SlhDsa192f,
        Variant::SlhDsa256s,
        Variant::SlhDsa256f,
    ]
}

/// The emission order is grouped by family: the classical baseline
/// comes first and only first, followed by the three lattice variants,
/// followed by the six hash-based variants.
pub proof fn lemma_order_grouped_by_family()
    ensures
        variant_order().len() == 10,
        variant_order()[0].family_spec() == Family::Classical,
        forall|i: int|
            1 <= i < 4 ==> (#[trigger] variant_order()[i]).family_spec() == Family::Lattice,
        forall|i: int|
            4 <= i < 10 ==> (#[trigger] variant_order()[i]).family_spec() == Family::HashBased,
        forall|i: int| 1 <= i < 10 ==> !(#[trigger] variant_order()[i]).is_baseline_spec(),
{
    assert forall|i: int| 1 <= i < 10 implies (#[trigger] variant_order()[i]).family_spec()
        != Family::Classical && !variant_order()[i].is_baseline_spec() by {
        if i == 1 {
            assert(variant_order()[1] == Variant::MlDsa44);
        } else if i == 2 {
            assert(variant_order()[2] == Variant::MlDsa65);
        } else if i == 3 {
            assert(variant_order()[3] == Variant::MlDsa87);
        } else if i == 4 {
            assert(variant_order()[4] == Variant::SlhDsa128s);
        } else if i == 5 {
            assert(variant_order()[5] == Variant::SlhDsa128f);
        } else if i == 6 {
            assert(variant_order()[6] == Variant::SlhDsa192s);
        } else if i == 7 {
            assert(variant_order()[7] == Variant::SlhDsa192f);
        } else if i == 8 {
            assert(variant_order()[8] == Variant::SlhDsa256s);
        } else {
            assert(variant_order()[9] == Variant::SlhDsa256f);
        }
    }
}

/// All ten configured variants, in the fixed emission order.
pub fn all_variants() -> (r: Vec<Variant>)
    ensures
        r@ == variant_order(),
{
    let mut r: Vec<Variant> = Vec::new();
    r.push(Variant::EcdsaK256);
    r.push(Variant::MlDsa44);
    r.push(Variant::MlDsa65);
    r.push(Variant::MlDsa87);
    r.push(Variant::SlhDsa128s);
    r.push(Variant::SlhDsa128f);
    r.push(Variant::SlhDsa192s);
    r.push(Variant::SlhDsa192f);
    r.push(Variant::SlhDsa256s);
    r.push(Variant::SlhDsa256f);
    proof {
        assert(r@ =~= variant_order());
    }
    r
}

/// The fixed message every signing and verification operation uses, so
/// that size and timing comparisons are over identical inputs: the bytes
/// of `"Hello world"`.
pub open spec fn fixed_message_spec() -> Seq<u8> {
    seq![72u8, 101u8, 108u8, 108u8, 111u8, 32u8, 119u8, 111u8, 114u8, 108u8, 100u8]
}

/// The fixed benchmark message, `"Hello world"` as bytes.
pub fn fixed_message() -> (r: Vec<u8>)
    ensures
        r@ == fixed_message_spec(),
{
    let mut r: Vec<u8> = Vec::new();
    r.push(72);
    r.push(101);
    r.push(108);
    r.push(108);
    r.push(111);
    r.push(32);
    r.push(119);
    r.push(111);
    r.push(114);
    r.push(108);
    r.push(100);
    proof {
        assert(r@ =~= fixed_message_spec());
    }
    r
}

} // verus!
