//! The trusted boundary to the curve crates.
//!
//! Every function here is a thin wrapper around one operation of
//! `curve25519_dalek`, `p256`, or `subtle`, converting between the
//! library's byte vectors and the crates' own types.  Their contracts
//! relate each call to the names declared in the model module.

use vstd::prelude::*;
use curve25519_dalek::constants::RISTRETTO_BASEPOINT_POINT;
use curve25519_dalek::ristretto::CompressedRistretto;
use curve25519_dalek::ristretto::RistrettoPoint;
use curve25519_dalek::traits::Identity;
use p256::elliptic_curve::Field;
use p256::elliptic_curve::PrimeField;
use p256::elliptic_curve::generic_array::GenericArray;
use p256::elliptic_curve::group::GroupEncoding;
use p256::elliptic_curve::hash2curve::ExpandMsgXmd;
use p256::elliptic_curve::hash2curve::GroupDigest;
use subtle::ConstantTimeEq;
use crate::group::model::is_p256_elem;
use crate::group::model::is_p256_scalar;
use crate::group::model::is_r255_elem;
use crate::group::model::is_r255_scalar;
use crate::group::model::base_enc;
use crate::group::model::identity_enc;
use crate::group::model::p256_add;
use crate::group::model::p256_h2c;
use crate::group::model::p256_h2s;
use crate::group::model::p256_mul;
use crate::group::model::p256_scalar_add;
use crate::group::model::p256_scalar_invert;
use crate::group::model::p256_scalar_mul;
use crate::group::model::p256_scalar_sub;
use crate::group::model::r255_add;
use crate::group::model::r255_from_uniform;
use crate::group::model::r255_mul;
use crate::group::model::r255_scalar_add;
use crate::group::model::r255_scalar_invert;
use crate::group::model::r255_scalar_mul;
use crate::group::model::r255_scalar_sub;
use crate::group::model::r255_wide_reduce;
use crate::group::model::zero_scalar_enc;
use crate::suite::CipherSuite;
use crate::suite::zeroes;

verus! {

// ------------------------------------------------------------------
// Ristretto255 elements.
// ------------------------------------------------------------------

/// Relies on `CompressedRistretto::decompress`: it accepts exactly the
/// canonical encodings, as a function of the bytes alone.
#[verifier::external_body]
pub(crate) fn r255_elem_valid(b: &Vec<u8>) -> (r: bool)
    requires
        b@.len() == 32,
    ensures
        r == is_r255_elem(b@),
{
    CompressedRistretto::from_slice(b.as_slice()).unwrap().decompress().is_some()
}

/// Relies on point addition of `curve25519_dalek` and on the fact that
/// compression of any point yields an accepted canonical encoding.
#[verifier::external_body]
pub(crate) fn r255_elem_add(a: &Vec<u8>, b: &Vec<u8>) -> (r: Vec<u8>)
    requires
        a@.len() == 32,
        b@.len() == 32,
        is_r255_elem(a@),
        is_r255_elem(b@),
    ensures
        r@ == r255_add(a@, b@),
        r@.len() == 32,
        is_r255_elem(r@),
{
    let pa = CompressedRistretto::from_slice(a.as_slice()).unwrap().decompress().unwrap();
    let pb = CompressedRistretto::from_slice(b.as_slice()).unwrap().decompress().unwrap();
    (pa + pb).compress().to_bytes().to_vec()
}

/// Relies on scalar multiplication of `curve25519_dalek` and on the
/// fact that compression of any point yields an accepted canonical
/// encoding.
#[verifier::external_body]
pub(crate) fn r255_elem_mul(e: &Vec<u8>, k: &Vec<u8>) -> (r: Vec<u8>)
    requires
        e@.len() == 32,
        k@.len() == 32,
        is_r255_elem(e@),
        is_r255_scalar(k@),
    ensures
        r@ == r255_mul(e@, k@),
        r@.len() == 32,
        is_r255_elem(r@),
{
    let p = CompressedRistretto::from_slice(e.as_slice()).unwrap().decompress().unwrap();
    let s = curve25519_dalek::scalar::Scalar::from_canonical_bytes(
        k.as_slice().try_into().unwrap(),
    ).unwrap();
    (p * s).compress().to_bytes().to_vec()
}

/// Relies on `RistrettoPoint::from_uniform_bytes`: a function of the 64
/// input bytes alone, compressed to an accepted canonical encoding.
#[verifier::external_body]
pub(crate) fn r255_elem_from_uniform(u: &Vec<u8>) -> (r: Vec<u8>)
    requires
        u@.len() == 64,
    ensures
        r@ == r255_from_uniform(u@),
        r@.len() == 32,
        is_r255_elem(r@),
{
    let arr: [u8; 64] = u.as_slice().try_into().unwrap();
    RistrettoPoint::from_uniform_bytes(&arr).compress().to_bytes().to_vec()
}

/// Relies on `RistrettoPoint::identity` compressing to the all-zero
/// encoding, which `decompress` accepts.
#[verifier::external_body]
pub(crate) fn r255_identity() -> (r: Vec<u8>)
    ensures
        r@ == identity_enc(CipherSuite::Ristretto255Sha512),
        is_r255_elem(r@),
{
    RistrettoPoint::identity().compress().to_bytes().to_vec()
}

/// Relies on `RISTRETTO_BASEPOINT_POINT` compressing to the documented
/// constant `RISTRETTO_BASEPOINT_COMPRESSED`, an accepted encoding.
#[verifier::external_body]
pub(crate) fn r255_base() -> (r: Vec<u8>)
    ensures
        r@ == base_enc(CipherSuite::Ristretto255Sha512),
        is_r255_elem(r@),
{
    RISTRETTO_BASEPOINT_POINT.compress().to_bytes().to_vec()
}

// ------------------------------------------------------------------
// Ristretto255 scalars.
// ------------------------------------------------------------------

/// Relies on `Scalar::from_canonical_bytes`: it accepts exactly the
/// little-endian encodings below the group order.
#[verifier::external_body]
pub(crate) fn r255_scalar_valid(b: &Vec<u8>) -> (r: bool)
    requires
        b@.len() == 32,
    ensures
        r == is_r255_scalar(b@),
{
    let arr: [u8; 32] = b.as_slice().try_into().unwrap();
    bool::from(curve25519_dalek::scalar::Scalar::from_canonical_bytes(arr).is_some())
}

/// Relies on scalar addition mod the group order; the result is again
/// canonical.
#[verifier::external_body]
pub(crate) fn r255_scalar_add_impl(a: &Vec<u8>, b: &Vec<u8>) -> (r: Vec<u8>)
    requires
        a@.len() == 32,
        b@.len() == 32,
        is_r255_scalar(a@),
        is_r255_scalar(b@),
    ensures
        r@ == r255_scalar_add(a@, b@),
        r@.len() == 32,
        is_r255_scalar(r@),
{
    let sa = curve25519_dalek::scalar::Scalar::from_canonical_bytes(
        a.as_slice().try_into().unwrap(),
    ).unwrap();
    let sb = curve25519_dalek::scalar::Scalar::from_canonical_bytes(
        b.as_slice().try_into().unwrap(),
    ).unwrap();
    (sa + sb).to_bytes().to_vec()
}

/// Relies on scalar subtraction mod the group order; the result is
/// again canonical.
#[verifier::external_body]
pub(crate) fn r255_scalar_sub_impl(a: &Vec<u8>, b: &Vec<u8>) -> (r: Vec<u8>)
    requires
        a@.len() == 32,
        b@.len() == 32,
        is_r255_scalar(a@),
        is_r255_scalar(b@),
    ensures
        r@ == r255_scalar_sub(a@, b@),
        r@.len() == 32,
        is_r255_scalar(r@),
{
    let sa = curve25519_dalek::scalar::Scalar::from_canonical_bytes(
        a.as_slice().try_into().unwrap(),
    ).unwrap();
    let sb = curve25519_dalek::scalar::Scalar::from_canonical_bytes(
        b.as_slice().try_into().unwrap(),
    ).unwrap();
    (sa - sb).to_bytes().to_vec()
}

/// Relies on scalar multiplication mod the group order; the result is
/// again canonical.
#[verifier::external_body]
pub(crate) fn r255_scalar_mul_impl(a: &Vec<u8>, b: &Vec<u8>) -> (r: Vec<u8>)
    requires
        a@.len() == 32,
        b@.len() == 32,
        is_r255_scalar(a@),
        is_r255_scalar(b@),
    ensures
        r@ == r255_scalar_mul(a@, b@),
        r@.len() == 32,
        is_r255_scalar(r@),
{
    let sa = curve25519_dalek::scalar::Scalar::from_canonical_bytes(
        a.as_slice().try_into().unwrap(),
    ).unwrap();
    let sb = curve25519_dalek::scalar::Scalar::from_canonical_bytes(
        b.as_slice().try_into().unwrap(),
    ).unwrap();
    (sa * sb).to_bytes().to_vec()
}

/// Relies on `Scalar::invert` (an exponentiation mod the group order,
/// which maps zero to zero); the result is again canonical.
#[verifier::external_body]
pub(crate) fn r255_scalar_invert_impl(a: &Vec<u8>) -> (r: Vec<u8>)
    requires
        a@.len() == 32,
        is_r255_scalar(a@),
    ensures
        r@ == r255_scalar_invert(a@),
        r@.len() == 32,
        is_r255_scalar(r@),
{
    let sa = curve25519_dalek::scalar::Scalar::from_canonical_bytes(
        a.as_slice().try_into().unwrap(),
    ).unwrap();
    sa.invert().to_bytes().to_vec()
}

/// Relies on `Scalar::from_bytes_mod_order_wide`: 64 little-endian
/// bytes reduced mod the group order, to a canonical encoding.
#[verifier::external_body]
pub(crate) fn r255_scalar_wide_reduce(u: &Vec<u8>) -> (r: Vec<u8>)
    requires
        u@.len() == 64,
    ensures
        r@ == r255_wide_reduce(u@),
        r@.len() == 32,
        is_r255_scalar(r@),
{
    let arr: [u8; 64] = u.as_slice().try_into().unwrap();
    curve25519_dalek::scalar::Scalar::from_bytes_mod_order_wide(&arr).to_bytes().to_vec()
}

/// Relies on `Scalar::ZERO` encoding as 32 zero bytes, a canonical
/// encoding.
#[verifier::external_body]
pub(crate) fn r255_scalar_zero() -> (r: Vec<u8>)
    ensures
        r@ == zero_scalar_enc(CipherSuite::Ristretto255Sha512),
        is_r255_scalar(r@),
{
    curve25519_dalek::scalar::Scalar::ZERO.to_bytes().to_vec()
}

// ------------------------------------------------------------------
// P-256 elements.
// ------------------------------------------------------------------

/// Relies on `ProjectivePoint::from_bytes`: it accepts exactly the
/// SEC1 compressed encodings and the all-zero identity representative,
/// as a function of the bytes alone.
#[verifier::external_body]
pub(crate) fn p256_elem_valid(b: &Vec<u8>) -> (r: bool)
    requires
        b@.len() == 33,
    ensures
        r == is_p256_elem(b@),
{
    let arr = GenericArray::from_slice(b.as_slice());
    bool::from(p256::ProjectivePoint::from_bytes(arr).is_some())
}

/// Relies on point addition of `p256` and on `to_bytes` returning the
/// accepted compressed encoding of the sum.
#[verifier::external_body]
pub(crate) fn p256_elem_add(a: &Vec<u8>, b: &Vec<u8>) -> (r: Vec<u8>)
    requires
        a@.len() == 33,
        b@.len() == 33,
        is_p256_elem(a@),
        is_p256_elem(b@),
    ensures
        r@ == p256_add(a@, b@),
        r@.len() == 33,
        is_p256_elem(r@),
{
    let pa = p256::ProjectivePoint::from_bytes(GenericArray::from_slice(a.as_slice())).unwrap();
    let pb = p256::ProjectivePoint::from_bytes(GenericArray::from_slice(b.as_slice())).unwrap();
    (pa + pb).to_bytes().to_vec()
}

/// Relies on scalar multiplication of `p256` and on `to_bytes`
/// returning the accepted compressed encoding of the product.
#[verifier::external_body]
pub(crate) fn p256_elem_mul(e: &Vec<u8>, k: &Vec<u8>) -> (r: Vec<u8>)
    requires
        e@.len() == 33,
        k@.len() == 32,
        is_p256_elem(e@),
        is_p256_scalar(k@),
    ensures
        r@ == p256_mul(e@, k@),
        r@.len() == 33,
        is_p256_elem(r@),
{
    let p = p256::ProjectivePoint::from_bytes(GenericArray::from_slice(e.as_slice())).unwrap();
    let s = p256::Scalar::from_repr(*GenericArray::from_slice(k.as_slice())).unwrap();
    (p * s).to_bytes().to_vec()
}

/// Relies on `NistP256::hash_from_bytes` with `ExpandMsgXmd<Sha256>`
/// (the RFC 9380 P256_XMD:SHA-256_SSWU_RO_ suite): a function of the
/// message and tag alone, which cannot fail for a tag of 1 to 255
/// bytes.
#[verifier::external_body]
pub(crate) fn p256_hash_to_curve(msg: &Vec<u8>, dst: &Vec<u8>) -> (r: Vec<u8>)
    requires
        1 <= dst@.len() <= 255,
    ensures
        r@ == p256_h2c(msg@, dst@),
        r@.len() == 33,
        is_p256_elem(r@),
{
    let p = p256::NistP256::hash_from_bytes::<ExpandMsgXmd<sha2::Sha256>>(
        &[msg.as_slice()],
        &[dst.as_slice()],
    ).unwrap();
    p.to_bytes().to_vec()
}

/// Relies on `ProjectivePoint::IDENTITY` encoding as 33 zero bytes,
/// which `from_bytes` accepts.
#[verifier::external_body]
pub(crate) fn p256_identity() -> (r: Vec<u8>)
    ensures
        r@ == identity_enc(CipherSuite::P256Sha256),
        is_p256_elem(r@),
{
    p256::ProjectivePoint::IDENTITY.to_bytes().to_vec()
}

/// Relies on `ProjectivePoint::GENERATOR` encoding as the documented
/// SEC1 compressed generator, an accepted encoding.
#[verifier::external_body]
pub(crate) fn p256_base() -> (r: Vec<u8>)
    ensures
        r@ == base_enc(CipherSuite::P256Sha256),
        is_p256_elem(r@),
{
    p256::ProjectivePoint::GENERATOR.to_bytes().to_vec()
}

// ------------------------------------------------------------------
// P-256 scalars.
// ------------------------------------------------------------------

/// Relies on `Scalar::from_repr`: it accepts exactly the big-endian
/// encodings below the curve order.
#[verifier::external_body]
pub(crate) fn p256_scalar_valid(b: &Vec<u8>) -> (r: bool)
    requires
        b@.len() == 32,
    ensures
        r == is_p256_scalar(b@),
{
    bool::from(p256::Scalar::from_repr(*GenericArray::from_slice(b.as_slice())).is_some())
}

/// Relies on scalar addition mod the curve order; the result is again
/// canonical.
#[verifier::external_body]
pub(crate) fn p256_scalar_add_impl(a: &Vec<u8>, b: &Vec<u8>) -> (r: Vec<u8>)
    requires
        a@.len() == 32,
        b@.len() == 32,
        is_p256_scalar(a@),
        is_p256_scalar(b@),
    ensures
        r@ == p256_scalar_add(a@, b@),
        r@.len() == 32,
        is_p256_scalar(r@),
{
    let sa = p256::Scalar::from_repr(*GenericArray::from_slice(a.as_slice())).unwrap();
    let sb = p256::Scalar::from_repr(*GenericArray::from_slice(b.as_slice())).unwrap();
    (sa + sb).to_bytes().to_vec()
}

/// Relies on scalar subtraction mod the curve order; the result is
/// again canonical.
#[verifier::external_body]
pub(crate) fn p256_scalar_sub_impl(a: &Vec<u8>, b: &Vec<u8>) -> (r: Vec<u8>)
    requires
        a@.len() == 32,
        b@.len() == 32,
        is_p256_scalar(a@),
        is_p256_scalar(b@),
    ensures
        r@ == p256_scalar_sub(a@, b@),
        r@.len() == 32,
        is_p256_scalar(r@),
{
    let sa = p256::Scalar::from_repr(*GenericArray::from_slice(a.as_slice())).unwrap();
    let sb = p256::Scalar::from_repr(*GenericArray::from_slice(b.as_slice())).unwrap();
    (sa - sb).to_bytes().to_vec()
}

/// Relies on scalar multiplication mod the curve order; the result is
/// again canonical.
#[verifier::external_body]
pub(crate) fn p256_scalar_mul_impl(a: &Vec<u8>, b: &Vec<u8>) -> (r: Vec<u8>)
    requires
        a@.len() == 32,
        b@.len() == 32,
        is_p256_scalar(a@),
        is_p256_scalar(b@),
    ensures
        r@ == p256_scalar_mul(a@, b@),
        r@.len() == 32,
        is_p256_scalar(r@),
{
    let sa = p256::Scalar::from_repr(*GenericArray::from_slice(a.as_slice())).unwrap();
    let sb = p256::Scalar::from_repr(*GenericArray::from_slice(b.as_slice())).unwrap();
    (sa * sb).to_bytes().to_vec()
}

/// Relies on `Scalar::invert`, taking the zero scalar to zero; the
/// result is again canonical.
#[verifier::external_body]
pub(crate) fn p256_scalar_invert_impl(a: &Vec<u8>) -> (r: Vec<u8>)
    requires
        a@.len() == 32,
        is_p256_scalar(a@),
    ensures
        r@ == p256_scalar_invert(a@),
        r@.len() == 32,
        is_p256_scalar(r@),
{
    let sa = p256::Scalar::from_repr(*GenericArray::from_slice(a.as_slice())).unwrap();
    let si = Option::<p256::Scalar>::from(sa.invert()).unwrap_or(p256::Scalar::ZERO);
    si.to_bytes().to_vec()
}

/// Relies on `NistP256::hash_to_scalar` with `ExpandMsgXmd<Sha256>`
/// (48 expanded bytes reduced mod the curve order): a function of the
/// message and tag alone, which cannot fail for a tag of 1 to 255
/// bytes.
#[verifier::external_body]
pub(crate) fn p256_hash_to_scalar(msg: &Vec<u8>, dst: &Vec<u8>) -> (r: Vec<u8>)
    requires
        1 <= dst@.len() <= 255,
    ensures
        r@ == p256_h2s(msg@, dst@),
        r@.len() == 32,
        is_p256_scalar(r@),
{
    let s = p256::NistP256::hash_to_scalar::<ExpandMsgXmd<sha2::Sha256>>(
        &[msg.as_slice()],
        &[dst.as_slice()],
    ).unwrap();
    s.to_bytes().to_vec()
}

/// Relies on `Scalar::ZERO` encoding as 32 zero bytes, a canonical
/// encoding.
#[verifier::external_body]
pub(crate) fn p256_scalar_zero() -> (r: Vec<u8>)
    ensures
        r@ == zero_scalar_enc(CipherSuite::P256Sha256),
        is_p256_scalar(r@),
{
    p256::Scalar::ZERO.to_bytes().to_vec()
}

// ------------------------------------------------------------------
// Constant-time comparison.
// ------------------------------------------------------------------

/// Relies on `subtle::ConstantTimeEq` for byte slices: true exactly
/// when the two slices have the same length and contents, computed in
/// constant time.
#[verifier::external_body]
pub(crate) fn ct_eq(a: &Vec<u8>, b: &Vec<u8>) -> (r: bool)
    ensures
        r == (a@ == b@),
{
    bool::from(a.as_slice().ct_eq(b.as_slice()))
}

} // verus!
