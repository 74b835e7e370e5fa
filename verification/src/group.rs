//! The prime-order group abstraction.
//!
//! A group element or scalar is carried as its canonical encoding, a
//! byte vector together with the suite it belongs to.  All operations
//! are specified over the names in [`model`]; the calls into the curve
//! crates live in the backend module.

pub mod model;
pub(crate) mod backend;

use vstd::prelude::*;
use crate::Error;
use crate::hash::expand_message_xmd;
use crate::rng::EntropySource;
use crate::suite::CipherSuite;
use crate::suite::all_zero;
use crate::suite::elem_len;
use crate::suite::scalar_len;
use crate::group::model::base_enc;
use crate::group::model::elem_decodable;
use crate::group::model::h2c_ok;
use crate::group::model::identity_enc;
use crate::group::model::is_elem;
use crate::group::model::is_scalar;
use crate::group::model::scalar_decodable;
use crate::group::model::spec_hash_to_curve;
use crate::group::model::spec_hash_to_scalar;
use crate::group::model::zero_scalar_enc;

verus! {

/// A group element, as its canonical encoding.
#[derive(Debug)]
pub struct Elem {
    /// The suite the element belongs to.
    pub suite: CipherSuite,
    /// The canonical encoding, `elem_len` bytes.
    pub bytes: Vec<u8>,
}

impl View for Elem {
    type V = Seq<u8>;

    open spec fn view(&self) -> Seq<u8> {
        self.bytes@
    }
}

impl Elem {
    /// A well-formed element: the right length and an encoding the
    /// curve accepts.
    pub open spec fn wf(self) -> bool {
        self.bytes@.len() == elem_len(self.suite) && is_elem(self.suite, self.bytes@)
    }

    /// An explicit copy.
    pub fn copy(&self) -> (r: Elem)
        ensures
            r.suite == self.suite,
            r@ == self@,
    {
        Elem { suite: self.suite, bytes: vstd::slice::slice_to_vec(self.bytes.as_slice()) }
    }

    /// The canonical encoding of the element.
    pub fn serialize(&self) -> (r: Vec<u8>)
        ensures
            r@ == self@,
    {
        vstd::slice::slice_to_vec(self.bytes.as_slice())
    }
}

/// A scalar, as its canonical encoding.
#[derive(Debug)]
pub struct Scalar {
    /// The suite the scalar belongs to.
    pub suite: CipherSuite,
    /// The canonical encoding, `scalar_len` bytes.
    pub bytes: Vec<u8>,
}

impl View for Scalar {
    type V = Seq<u8>;

    open spec fn view(&self) -> Seq<u8> {
        self.bytes@
    }
}

impl Scalar {
    /// A well-formed scalar: the right length and a canonical
    /// encoding.
    pub open spec fn wf(self) -> bool {
        self.bytes@.len() == scalar_len(self.suite) && is_scalar(self.suite, self.bytes@)
    }

    /// An explicit copy.
    pub fn copy(&self) -> (r: Scalar)
        ensures
            r.suite == self.suite,
            r@ == self@,
    {
        Scalar { suite: self.suite, bytes: vstd::slice::slice_to_vec(self.bytes.as_slice()) }
    }

    /// The canonical encoding of the scalar.
    pub fn serialize(&self) -> (r: Vec<u8>)
        ensures
            r@ == self@,
    {
        vstd::slice::slice_to_vec(self.bytes.as_slice())
    }
}

/// Whether every byte of `v` is zero.
pub fn is_all_zero(v: &Vec<u8>) -> (r: bool)
    ensures
        r == all_zero(v@),
{
    let n = v.len();
    let mut i: usize = 0;
    while i < n
        invariant
            i <= n,
            n == v@.len(),
            forall|j: int| 0 <= j < i ==> v@[j] == 0u8,
        decreases n - i,
    {
        if v[i] != 0 {
            return false;
        }
        i = i + 1;
    }
    true
}

/// The identity element of the suite's group.
pub fn identity_elem(s: CipherSuite) -> (r: Elem)
    ensures
        r.suite == s,
        r@ == identity_enc(s),
        r.wf(),
{
    let bytes = match s {
        CipherSuite::Ristretto255Sha512 => backend::r255_identity(),
        CipherSuite::P256Sha256 => backend::p256_identity(),
    };
    Elem { suite: s, bytes }
}

/// The fixed generator of the suite's group.
pub fn base_elem(s: CipherSuite) -> (r: Elem)
    ensures
        r.suite == s,
        r@ == base_enc(s),
        r.wf(),
{
    let bytes = match s {
        CipherSuite::Ristretto255Sha512 => backend::r255_base(),
        CipherSuite::P256Sha256 => backend::p256_base(),
    };
    Elem { suite: s, bytes }
}

/// The zero scalar of the suite's group.
pub fn zero_scalar(s: CipherSuite) -> (r: Scalar)
    ensures
        r.suite == s,
        r@ == zero_scalar_enc(s),
        r.wf(),
{
    let bytes = match s {
        CipherSuite::Ristretto255Sha512 => backend::r255_scalar_zero(),
        CipherSuite::P256Sha256 => backend::p256_scalar_zero(),
    };
    Scalar { suite: s, bytes }
}

/// The sum of two group elements.
pub fn elem_add(a: &Elem, b: &Elem) -> (r: Elem)
    requires
        a.wf(),
        b.wf(),
        a.suite == b.suite,
    ensures
        r.suite == a.suite,
        r@ == model::elem_add(a.suite, a@, b@),
        r.wf(),
{
    let bytes = match a.suite {
        CipherSuite::Ristretto255Sha512 => backend::r255_elem_add(&a.bytes, &b.bytes),
        CipherSuite::P256Sha256 => backend::p256_elem_add(&a.bytes, &b.bytes),
    };
    Elem { suite: a.suite, bytes }
}

/// A group element multiplied by a scalar.
pub fn elem_mul(e: &Elem, k: &Scalar) -> (r: Elem)
    requires
        e.wf(),
        k.wf(),
        e.suite == k.suite,
    ensures
        r.suite == e.suite,
        r@ == model::elem_mul(e.suite, e@, k@),
        r.wf(),
{
    let bytes = match e.suite {
        CipherSuite::Ristretto255Sha512 => backend::r255_elem_mul(&e.bytes, &k.bytes),
        CipherSuite::P256Sha256 => backend::p256_elem_mul(&e.bytes, &k.bytes),
    };
    Elem { suite: e.suite, bytes }
}

/// The sum of two scalars.
pub fn scalar_add(a: &Scalar, b: &Scalar) -> (r: Scalar)
    requires
        a.wf(),
        b.wf(),
        a.suite == b.suite,
    ensures
        r.suite == a.suite,
        r@ == model::scalar_add(a.suite, a@, b@),
        r.wf(),
{
    let bytes = match a.suite {
        CipherSuite::Ristretto255Sha512 => backend::r255_scalar_add_impl(&a.bytes, &b.bytes),
        CipherSuite::P256Sha256 => backend::p256_scalar_add_impl(&a.bytes, &b.bytes),
    };
    Scalar { suite: a.suite, bytes }
}

/// The difference of two scalars.
pub fn scalar_sub(a: &Scalar, b: &Scalar) -> (r: Scalar)
    requires
        a.wf(),
        b.wf(),
        a.suite == b.suite,
    ensures
        r.suite == a.suite,
        r@ == model::scalar_sub(a.suite, a@, b@),
        r.wf(),
{
    let bytes = match a.suite {
        CipherSuite::Ristretto255Sha512 => backend::r255_scalar_sub_impl(&a.bytes, &b.bytes),
        CipherSuite::P256Sha256 => backend::p256_scalar_sub_impl(&a.bytes, &b.bytes),
    };
    Scalar { suite: a.suite, bytes }
}

/// The product of two scalars.
pub fn scalar_mul(a: &Scalar, b: &Scalar) -> (r: Scalar)
    requires
        a.wf(),
        b.wf(),
        a.suite == b.suite,
    ensures
        r.suite == a.suite,
        r@ == model::scalar_mul(a.suite, a@, b@),
        r.wf(),
{
    let bytes = match a.suite {
        CipherSuite::Ristretto255Sha512 => backend::r255_scalar_mul_impl(&a.bytes, &b.bytes),
        CipherSuite::P256Sha256 => backend::p256_scalar_mul_impl(&a.bytes, &b.bytes),
    };
    Scalar { suite: a.suite, bytes }
}

/// The multiplicative inverse of a scalar; the zero scalar inverts to
/// zero.
pub fn invert_scalar(a: &Scalar) -> (r: Scalar)
    requires
        a.wf(),
    ensures
        r.suite == a.suite,
        r@ == model::scalar_invert(a.suite, a@),
        r.wf(),
{
    let bytes = match a.suite {
        CipherSuite::Ristretto255Sha512 => backend::r255_scalar_invert_impl(&a.bytes),
        CipherSuite::P256Sha256 => backend::p256_scalar_invert_impl(&a.bytes),
    };
    Scalar { suite: a.suite, bytes }
}

/// Deserializes a group element, rejecting a wrong length, an encoding
/// the curve refuses, and the identity element.
pub fn deserialize_elem(s: CipherSuite, input: &Vec<u8>) -> (r: Result<Elem, Error>)
    ensures
        match r {
            Ok(e) => elem_decodable(s, input@) && e.suite == s && e@ == input@ && e.wf(),
            Err(er) => !elem_decodable(s, input@) && er == Error::Deserialization,
        },
{
    if input.len() != s.elem_len() {
        return Err(Error::Deserialization);
    }
    let valid = match s {
        CipherSuite::Ristretto255Sha512 => backend::r255_elem_valid(input),
        CipherSuite::P256Sha256 => backend::p256_elem_valid(input),
    };
    if !valid {
        return Err(Error::Deserialization);
    }
    if is_all_zero(input) {
        assert(input@ =~= identity_enc(s));
        return Err(Error::Deserialization);
    }
    assert(input@ != identity_enc(s)) by {
        if input@ == identity_enc(s) {
            assert(all_zero(input@));
        }
    }
    Ok(Elem { suite: s, bytes: vstd::slice::slice_to_vec(input.as_slice()) })
}

/// Deserializes a scalar, rejecting a wrong length, a non-canonical
/// encoding, and the zero scalar.
pub fn deserialize_scalar(s: CipherSuite, input: &Vec<u8>) -> (r: Result<Scalar, Error>)
    ensures
        match r {
            Ok(k) => scalar_decodable(s, input@) && k.suite == s && k@ == input@ && k.wf(),
            Err(er) => !scalar_decodable(s, input@) && er == Error::Deserialization,
        },
{
    if input.len() != s.scalar_len() {
        return Err(Error::Deserialization);
    }
    let valid = match s {
        CipherSuite::Ristretto255Sha512 => backend::r255_scalar_valid(input),
        CipherSuite::P256Sha256 => backend::p256_scalar_valid(input),
    };
    if !valid {
        return Err(Error::Deserialization);
    }
    if is_all_zero(input) {
        assert(input@ =~= zero_scalar_enc(s));
        return Err(Error::Deserialization);
    }
    assert(input@ != zero_scalar_enc(s)) by {
        if input@ == zero_scalar_enc(s) {
            assert(all_zero(input@));
        }
    }
    Ok(Scalar { suite: s, bytes: vstd::slice::slice_to_vec(input.as_slice()) })
}

/// Hashes a message to a group element under a domain-separation tag.
pub fn hash_to_curve(s: CipherSuite, msg: &Vec<u8>, dst: &Vec<u8>) -> (r: Result<Elem, Error>)
    ensures
        match r {
            Ok(e) => h2c_ok(s, dst@) && e.suite == s && e@ == spec_hash_to_curve(s, msg@, dst@)
                && e.wf(),
            Err(er) => !h2c_ok(s, dst@) && er == Error::HashToCurveError,
        },
{
    match s {
        CipherSuite::Ristretto255Sha512 => {
            match expand_message_xmd(s, msg, dst, 64) {
                Ok(u) => {
                    let bytes = backend::r255_elem_from_uniform(&u);
                    Ok(Elem { suite: s, bytes })
                }
                Err(_) => Err(Error::HashToCurveError),
            }
        }
        CipherSuite::P256Sha256 => {
            if dst.len() == 0 || dst.len() > 255 {
                return Err(Error::HashToCurveError);
            }
            let bytes = backend::p256_hash_to_curve(msg, dst);
            Ok(Elem { suite: s, bytes })
        }
    }
}

/// Hashes a message to a scalar under a domain-separation tag.
pub fn hash_to_scalar(s: CipherSuite, msg: &Vec<u8>, dst: &Vec<u8>) -> (r: Result<Scalar, Error>)
    ensures
        match r {
            Ok(k) => h2c_ok(s, dst@) && k.suite == s && k@ == spec_hash_to_scalar(s, msg@, dst@)
                && k.wf(),
            Err(er) => !h2c_ok(s, dst@) && er == Error::HashToCurveError,
        },
{
    match s {
        CipherSuite::Ristretto255Sha512 => {
            match expand_message_xmd(s, msg, dst, 64) {
                Ok(u) => {
                    let bytes = backend::r255_scalar_wide_reduce(&u);
                    Ok(Scalar { suite: s, bytes })
                }
                Err(_) => Err(Error::HashToCurveError),
            }
        }
        CipherSuite::P256Sha256 => {
            if dst.len() == 0 || dst.len() > 255 {
                return Err(Error::HashToCurveError);
            }
            let bytes = backend::p256_hash_to_scalar(msg, dst);
            Ok(Scalar { suite: s, bytes })
        }
    }
}

/// Round-trip: a well-formed element other than the identity encodes
/// to bytes that deserialize, and `deserialize_elem` returns exactly
/// the bytes it was given.
pub proof fn lemma_elem_roundtrip(s: CipherSuite, e: Elem)
    requires
        e.wf(),
        e.suite == s,
        e@ != identity_enc(s),
    ensures
        elem_decodable(s, e@),
{
}

/// Round-trip: a well-formed nonzero scalar encodes to bytes that
/// deserialize, and `deserialize_scalar` returns exactly the bytes it
/// was given.
pub proof fn lemma_scalar_roundtrip(s: CipherSuite, k: Scalar)
    requires
        k.wf(),
        k.suite == s,
        k@ != zero_scalar_enc(s),
    ensures
        scalar_decodable(s, k@),
{
}

/// Checks that the encoding of the identity element cannot be
/// deserialized; this can never fail.
pub fn test_identity_element_error(s: CipherSuite) -> (r: Result<(), Error>)
    ensures
        r == Ok::<(), Error>(()),
{
    let identity = identity_elem(s);
    let ser = identity.serialize();
    match deserialize_elem(s, &ser) {
        Err(Error::Deserialization) => Ok(()),
        _ => vstd::pervasive::unreached(),
    }
}

/// Checks that the encoding of the zero scalar cannot be
/// deserialized; this can never fail.
pub fn test_zero_scalar_error(s: CipherSuite) -> (r: Result<(), Error>)
    ensures
        r == Ok::<(), Error>(()),
{
    let zero = zero_scalar(s);
    let ser = zero.serialize();
    match deserialize_scalar(s, &ser) {
        Err(Error::Deserialization) => Ok(()),
        _ => vstd::pervasive::unreached(),
    }
}

/// Samples a uniformly random nonzero scalar, rejection-sampling the
/// zero scalar (and, for P-256, non-canonical candidates) away.
///
/// The number of rejection rounds is bounded; running out of rounds
/// would take a source that returns rejected bytes hundreds of times
/// in a row, and surfaces as `PointError`.
pub fn random_nonzero_scalar<R: EntropySource>(s: CipherSuite, rng: &mut R) -> (r: Result<
    Scalar,
    Error,
>)
    ensures
        match r {
            Ok(k) => k.suite == s && k.wf() && k@ != zero_scalar_enc(s),
            Err(er) => er == Error::PointError,
        },
{
    let mut attempt: usize = 0;
    while attempt < 256
        invariant
            true,
        decreases 256 - attempt,
    {
        match s {
            CipherSuite::Ristretto255Sha512 => {
                let u = rng.fill(64);
                let bytes = backend::r255_scalar_wide_reduce(&u);
                if !is_all_zero(&bytes) {
                    assert(bytes@ != zero_scalar_enc(s)) by {
                        if bytes@ == zero_scalar_enc(s) {
                            assert(all_zero(bytes@));
                        }
                    }
                    return Ok(Scalar { suite: s, bytes });
                }
            }
            CipherSuite::P256Sha256 => {
                let bytes = rng.fill(32);
                if backend::p256_scalar_valid(&bytes) {
                    if !is_all_zero(&bytes) {
                        assert(bytes@ != zero_scalar_enc(s)) by {
                            if bytes@ == zero_scalar_enc(s) {
                                assert(all_zero(bytes@));
                            }
                        }
                        return Ok(Scalar { suite: s, bytes });
                    }
                }
            }
        }
        attempt = attempt + 1;
    }
    Err(Error::PointError)
}

} // verus!
