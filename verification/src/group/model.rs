//! The mathematical model of the two prime-order groups.
//!
//! Elements and scalars are modelled by their canonical encodings, as
//! byte sequences.  The curve arithmetic itself is performed by the
//! `curve25519_dalek` and `p256` crates; what each operation returns is
//! named here by an uninterpreted function of the operand encodings,
//! and the wrappers in the backend module relate the executable calls
//! to these names.

use vstd::prelude::*;
use crate::suite::CipherSuite;
use crate::suite::elem_len;
use crate::suite::scalar_len;
use crate::suite::zeroes;
use crate::hash::spec_expand_xmd;
use crate::hash::xmd_ok;

verus! {

// ------------------------------------------------------------------
// Ristretto255, backed by curve25519_dalek.
// ------------------------------------------------------------------

/// Whether `CompressedRistretto::decompress` accepts these 32 bytes.
pub uninterp spec fn is_r255_elem(b: Seq<u8>) -> bool;

/// The compressed sum of two decompressed Ristretto points.
pub uninterp spec fn r255_add(a: Seq<u8>, b: Seq<u8>) -> Seq<u8>;

/// The compressed product of a decompressed Ristretto point and a
/// canonical scalar.
pub uninterp spec fn r255_mul(e: Seq<u8>, k: Seq<u8>) -> Seq<u8>;

/// The compressed result of `RistrettoPoint::from_uniform_bytes` on 64
/// uniform bytes.
pub uninterp spec fn r255_from_uniform(u: Seq<u8>) -> Seq<u8>;

/// Whether `Scalar::from_canonical_bytes` accepts these 32 bytes, that
/// is, whether they are the little-endian encoding of a scalar below
/// the group order.
pub uninterp spec fn is_r255_scalar(b: Seq<u8>) -> bool;

/// The canonical encoding of the sum of two scalars mod the group
/// order.
pub uninterp spec fn r255_scalar_add(a: Seq<u8>, b: Seq<u8>) -> Seq<u8>;

/// The canonical encoding of the difference of two scalars mod the
/// group order.
pub uninterp spec fn r255_scalar_sub(a: Seq<u8>, b: Seq<u8>) -> Seq<u8>;

/// The canonical encoding of the product of two scalars mod the group
/// order.
pub uninterp spec fn r255_scalar_mul(a: Seq<u8>, b: Seq<u8>) -> Seq<u8>;

/// The canonical encoding of the multiplicative inverse of a scalar
/// (zero for the zero scalar).
pub uninterp spec fn r255_scalar_invert(a: Seq<u8>) -> Seq<u8>;

/// The canonical encoding of 64 little-endian bytes reduced mod the
/// group order.
pub uninterp spec fn r255_wide_reduce(u: Seq<u8>) -> Seq<u8>;

// ------------------------------------------------------------------
// The P-256 prime-order subgroup, backed by p256.
// ------------------------------------------------------------------

/// Whether `ProjectivePoint::from_bytes` accepts these 33 bytes: a
/// SEC1 compressed point, or the all-zero identity representative.
pub uninterp spec fn is_p256_elem(b: Seq<u8>) -> bool;

/// The compressed sum of two P-256 points.
pub uninterp spec fn p256_add(a: Seq<u8>, b: Seq<u8>) -> Seq<u8>;

/// The compressed product of a P-256 point and a canonical scalar.
pub uninterp spec fn p256_mul(e: Seq<u8>, k: Seq<u8>) -> Seq<u8>;

/// The compressed result of the P-256 `hash_from_bytes` suite
/// (SSWU map over `expand_message_xmd` with SHA-256).
pub uninterp spec fn p256_h2c(msg: Seq<u8>, dst: Seq<u8>) -> Seq<u8>;

/// Whether `Scalar::from_repr` accepts these 32 bytes, that is,
/// whether they are the big-endian encoding of a scalar below the
/// curve order.
pub uninterp spec fn is_p256_scalar(b: Seq<u8>) -> bool;

/// The canonical encoding of the sum of two P-256 scalars.
pub uninterp spec fn p256_scalar_add(a: Seq<u8>, b: Seq<u8>) -> Seq<u8>;

/// The canonical encoding of the difference of two P-256 scalars.
pub uninterp spec fn p256_scalar_sub(a: Seq<u8>, b: Seq<u8>) -> Seq<u8>;

/// The canonical encoding of the product of two P-256 scalars.
pub uninterp spec fn p256_scalar_mul(a: Seq<u8>, b: Seq<u8>) -> Seq<u8>;

/// The canonical encoding of the multiplicative inverse of a P-256
/// scalar (zero for the zero scalar).
pub uninterp spec fn p256_scalar_invert(a: Seq<u8>) -> Seq<u8>;

/// The canonical encoding of the P-256 `hash_to_scalar` suite
/// (`hash_to_field` over `expand_message_xmd` with SHA-256, 48 bytes
/// reduced mod the curve order).
pub uninterp spec fn p256_h2s(msg: Seq<u8>, dst: Seq<u8>) -> Seq<u8>;

// ------------------------------------------------------------------
// The suite-level dispatch.
// ------------------------------------------------------------------

/// Whether `b` is an acceptable element encoding for the suite.
pub open spec fn is_elem(s: CipherSuite, b: Seq<u8>) -> bool {
    match s {
        CipherSuite::Ristretto255Sha512 => is_r255_elem(b),
        CipherSuite::P256Sha256 => is_p256_elem(b),
    }
}

/// Whether `b` is a canonical scalar encoding for the suite.
pub open spec fn is_scalar(s: CipherSuite, b: Seq<u8>) -> bool {
    match s {
        CipherSuite::Ristretto255Sha512 => is_r255_scalar(b),
        CipherSuite::P256Sha256 => is_p256_scalar(b),
    }
}

/// The encoding of the sum of two elements.
pub open spec fn elem_add(s: CipherSuite, a: Seq<u8>, b: Seq<u8>) -> Seq<u8> {
    match s {
        CipherSuite::Ristretto255Sha512 => r255_add(a, b),
        CipherSuite::P256Sha256 => p256_add(a, b),
    }
}

/// The encoding of an element multiplied by a scalar.
pub open spec fn elem_mul(s: CipherSuite, e: Seq<u8>, k: Seq<u8>) -> Seq<u8> {
    match s {
        CipherSuite::Ristretto255Sha512 => r255_mul(e, k),
        CipherSuite::P256Sha256 => p256_mul(e, k),
    }
}

/// The encoding of the sum of two scalars.
pub open spec fn scalar_add(s: CipherSuite, a: Seq<u8>, b: Seq<u8>) -> Seq<u8> {
    match s {
        CipherSuite::Ristretto255Sha512 => r255_scalar_add(a, b),
        CipherSuite::P256Sha256 => p256_scalar_add(a, b),
    }
}

/// The encoding of the difference of two scalars.
pub open spec fn scalar_sub(s: CipherSuite, a: Seq<u8>, b: Seq<u8>) -> Seq<u8> {
    match s {
        CipherSuite::Ristretto255Sha512 => r255_scalar_sub(a, b),
        CipherSuite::P256Sha256 => p256_scalar_sub(a, b),
    }
}

/// The encoding of the product of two scalars.
pub open spec fn scalar_mul(s: CipherSuite, a: Seq<u8>, b: Seq<u8>) -> Seq<u8> {
    match s {
        CipherSuite::Ristretto255Sha512 => r255_scalar_mul(a, b),
        CipherSuite::P256Sha256 => p256_scalar_mul(a, b),
    }
}

/// The encoding of the multiplicative inverse of a scalar (zero for
/// zero).
pub open spec fn scalar_invert(s: CipherSuite, a: Seq<u8>) -> Seq<u8> {
    match s {
        CipherSuite::Ristretto255Sha512 => r255_scalar_invert(a),
        CipherSuite::P256Sha256 => p256_scalar_invert(a),
    }
}

/// The identity element encodes as all-zero bytes in both suites.
pub open spec fn identity_enc(s: CipherSuite) -> Seq<u8> {
    zeroes(elem_len(s))
}

/// The zero scalar encodes as all-zero bytes in both suites.
pub open spec fn zero_scalar_enc(s: CipherSuite) -> Seq<u8> {
    zeroes(scalar_len(s))
}

/// The encoding of the fixed group generator.
///
/// For Ristretto255 this is `RISTRETTO_BASEPOINT_COMPRESSED`; for
/// P-256 it is the SEC1 compressed form of the generator `G`.
pub open spec fn base_enc(s: CipherSuite) -> Seq<u8> {
    match s {
        CipherSuite::Ristretto255Sha512 => seq![
            0xe2u8, 0xf2u8, 0xaeu8, 0x0au8, 0x6au8, 0xbcu8, 0x4eu8, 0x71u8,
            0xa8u8, 0x84u8, 0xa9u8, 0x61u8, 0xc5u8, 0x00u8, 0x51u8, 0x5fu8,
            0x58u8, 0xe3u8, 0x0bu8, 0x6au8, 0xa5u8, 0x82u8, 0xddu8, 0x8du8,
            0xb6u8, 0xa6u8, 0x59u8, 0x45u8, 0xe0u8, 0x8du8, 0x2du8, 0x76u8,
        ],
        CipherSuite::P256Sha256 => seq![
            0x03u8,
            0x6bu8, 0x17u8, 0xd1u8, 0xf2u8, 0xe1u8, 0x2cu8, 0x42u8, 0x47u8,
            0xf8u8, 0xbcu8, 0xe6u8, 0xe5u8, 0x63u8, 0xa4u8, 0x40u8, 0xf2u8,
            0x77u8, 0x03u8, 0x7du8, 0x81u8, 0x2du8, 0xebu8, 0x33u8, 0xa0u8,
            0xf4u8, 0xa1u8, 0x39u8, 0x45u8, 0xd8u8, 0x98u8, 0xc2u8, 0x96u8,
        ],
    }
}

/// Whether hashing to the group is defined for this tag.
pub open spec fn h2c_ok(s: CipherSuite, dst: Seq<u8>) -> bool {
    match s {
        CipherSuite::Ristretto255Sha512 => xmd_ok(s, dst, 64),
        CipherSuite::P256Sha256 => 1 <= dst.len() <= 255,
    }
}

/// The element encoding that hashing `msg` to the group under `dst`
/// produces.
pub open spec fn spec_hash_to_curve(s: CipherSuite, msg: Seq<u8>, dst: Seq<u8>) -> Seq<u8> {
    match s {
        CipherSuite::Ristretto255Sha512 => r255_from_uniform(spec_expand_xmd(s, msg, dst, 64)),
        CipherSuite::P256Sha256 => p256_h2c(msg, dst),
    }
}

/// The scalar encoding that hashing `msg` to a scalar under `dst`
/// produces.
pub open spec fn spec_hash_to_scalar(s: CipherSuite, msg: Seq<u8>, dst: Seq<u8>) -> Seq<u8> {
    match s {
        CipherSuite::Ristretto255Sha512 => r255_wide_reduce(spec_expand_xmd(s, msg, dst, 64)),
        CipherSuite::P256Sha256 => p256_h2s(msg, dst),
    }
}

/// Whether `b` deserializes as a group element: the right length, an
/// acceptable encoding, and not the identity.
pub open spec fn elem_decodable(s: CipherSuite, b: Seq<u8>) -> bool {
    b.len() == elem_len(s) && is_elem(s, b) && b != identity_enc(s)
}

/// Whether `b` deserializes as a scalar: the right length, canonical,
/// and not zero.
pub open spec fn scalar_decodable(s: CipherSuite, b: Seq<u8>) -> bool {
    b.len() == scalar_len(s) && is_scalar(s, b) && b != zero_scalar_enc(s)
}

} // verus!
