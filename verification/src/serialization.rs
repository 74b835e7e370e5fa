//! Fixed-layout serialization of states, messages, and proofs, and the
//! zeroization of the secret-bearing types.
//!
//! Every layout is a plain concatenation of canonical encodings.  A
//! buffer shorter than the layout is rejected with `SizeError`; a part
//! that is not a decodable scalar or element is rejected with
//! `Deserialization`.

use vstd::prelude::*;
use crate::Error;
use crate::group::deserialize_elem;
use crate::group::deserialize_scalar;
use crate::group::model::elem_decodable;
use crate::group::model::identity_enc;
use crate::group::model::scalar_decodable;
use crate::group::model::zero_scalar_enc;
use crate::hash::vec_zeroes;
use crate::suite::CipherSuite;
use crate::suite::elem_len;
use crate::suite::push_bytes;
use crate::suite::scalar_len;
use crate::suite::zeroes;
use crate::voprf::BlindedElement;
use crate::voprf::EvaluationElement;
use crate::voprf::NonVerifiableClient;
use crate::voprf::NonVerifiableServer;
use crate::voprf::PreparedTscalar;
use crate::voprf::Proof;
use crate::voprf::VerifiableClient;
use crate::voprf::VerifiableServer;

verus! {

// ------------------------------------------------------------------
// The layout model.
// ------------------------------------------------------------------

/// A scalar cut out of `input` at `at`: decodable or a
/// `Deserialization` error.
pub open spec fn parse_scalar_at(s: CipherSuite, input: Seq<u8>, at: int) -> Result<Seq<u8>, Error> {
    let b = input.subrange(at, at + scalar_len(s));
    if scalar_decodable(s, b) {
        Ok(b)
    } else {
        Err(Error::Deserialization)
    }
}

/// An element cut out of `input` at `at`: decodable or a
/// `Deserialization` error.
pub open spec fn parse_elem_at(s: CipherSuite, input: Seq<u8>, at: int) -> Result<Seq<u8>, Error> {
    let b = input.subrange(at, at + elem_len(s));
    if elem_decodable(s, b) {
        Ok(b)
    } else {
        Err(Error::Deserialization)
    }
}

/// The layout of a persisted non-verifiable client: the blinding
/// scalar.
pub open spec fn nvc_layout(c: NonVerifiableClient) -> Seq<u8> {
    c.blind@
}

/// What deserializing a non-verifiable client yields: the blinding
/// scalar bytes.
pub open spec fn nvc_parse(s: CipherSuite, input: Seq<u8>) -> Result<Seq<u8>, Error> {
    if input.len() < scalar_len(s) {
        Err(Error::SizeError)
    } else {
        parse_scalar_at(s, input, 0)
    }
}

/// The layout of a persisted verifiable client: the blinding scalar
/// and the blinded element.
pub open spec fn vc_layout(c: VerifiableClient) -> Seq<u8> {
    c.blind@ + c.blinded_element@
}

/// What deserializing a verifiable client yields: the blinding scalar
/// and blinded element bytes.
pub open spec fn vc_parse(s: CipherSuite, input: Seq<u8>) -> Result<(Seq<u8>, Seq<u8>), Error> {
    if input.len() < scalar_len(s) + elem_len(s) {
        Err(Error::SizeError)
    } else {
        match parse_scalar_at(s, input, 0) {
            Err(e) => Err(e),
            Ok(bl) => match parse_elem_at(s, input, scalar_len(s) as int) {
                Err(e) => Err(e),
                Ok(be) => Ok((bl, be)),
            },
        }
    }
}

/// The layout of a persisted non-verifiable server: the secret key.
pub open spec fn nvs_layout(v: NonVerifiableServer) -> Seq<u8> {
    v.sk@
}

/// What deserializing a non-verifiable server yields: the secret key
/// bytes.
pub open spec fn nvs_parse(s: CipherSuite, input: Seq<u8>) -> Result<Seq<u8>, Error> {
    nvc_parse(s, input)
}

/// The layout of a persisted verifiable server: the secret key and the
/// public key.
pub open spec fn vs_layout(v: VerifiableServer) -> Seq<u8> {
    v.sk@ + v.pk@
}

/// What deserializing a verifiable server yields: the secret and
/// public key bytes.
pub open spec fn vs_parse(s: CipherSuite, input: Seq<u8>) -> Result<(Seq<u8>, Seq<u8>), Error> {
    if input.len() < scalar_len(s) + elem_len(s) {
        Err(Error::SizeError)
    } else {
        match parse_scalar_at(s, input, 0) {
            Err(e) => Err(e),
            Ok(sk) => match parse_elem_at(s, input, scalar_len(s) as int) {
                Err(e) => Err(e),
                Ok(pk) => Ok((sk, pk)),
            },
        }
    }
}

/// The layout of a proof on the wire: the challenge scalar and the
/// response scalar.
pub open spec fn proof_layout(p: Proof) -> Seq<u8> {
    p.c_scalar@ + p.s_scalar@
}

/// What deserializing a proof yields: the two scalars' bytes.
pub open spec fn proof_parse(s: CipherSuite, input: Seq<u8>) -> Result<(Seq<u8>, Seq<u8>), Error> {
    if input.len() < scalar_len(s) + scalar_len(s) {
        Err(Error::SizeError)
    } else {
        match parse_scalar_at(s, input, 0) {
            Err(e) => Err(e),
            Ok(c) => match parse_scalar_at(s, input, scalar_len(s) as int) {
                Err(e) => Err(e),
                Ok(sc) => Ok((c, sc)),
            },
        }
    }
}

/// The layout of a blinded element on the wire.
pub open spec fn blinded_layout(b: BlindedElement) -> Seq<u8> {
    b.value@
}

/// The layout of an evaluation element on the wire.
pub open spec fn eval_layout(e: EvaluationElement) -> Seq<u8> {
    e.value@
}

/// What deserializing a wire element yields: the element bytes.
pub open spec fn elem_parse(s: CipherSuite, input: Seq<u8>) -> Result<Seq<u8>, Error> {
    if input.len() < elem_len(s) {
        Err(Error::SizeError)
    } else {
        parse_elem_at(s, input, 0)
    }
}

// ------------------------------------------------------------------
// Helpers.
// ------------------------------------------------------------------

/// Copies `len` bytes of `input` starting at `start`.
pub fn copy_range(input: &Vec<u8>, start: usize, len: usize) -> (r: Vec<u8>)
    requires
        start + len <= input@.len(),
    ensures
        r@ == input@.subrange(start as int, start + len),
{
    let total = input.len();
    let mut v: Vec<u8> = Vec::new();
    let mut i: usize = 0;
    while i < len
        invariant
            i <= len,
            total == input@.len(),
            start + len <= total,
            v@ == input@.subrange(start as int, start + i),
        decreases len - i,
    {
        v.push(input[start + i]);
        i = i + 1;
        assert(v@ =~= input@.subrange(start as int, start + i));
    }
    v
}

// ------------------------------------------------------------------
// Serialization and deserialization.
// ------------------------------------------------------------------

impl NonVerifiableClient {
    /// Serialization into bytes.
    pub fn serialize(&self) -> (r: Vec<u8>)
        ensures
            r@ == nvc_layout(*self),
    {
        self.blind.serialize()
    }

    /// Deserialization from bytes.
    pub fn deserialize(s: CipherSuite, input: &Vec<u8>) -> (r: Result<NonVerifiableClient, Error>)
        ensures
            match r {
                Ok(c) => nvc_parse(s, input@) == Ok::<Seq<u8>, Error>(c.blind@) && c.wf()
                    && c.suite() == s,
                Err(e) => nvc_parse(s, input@) == Err::<Seq<u8>, Error>(e),
            },
    {
        let sl = s.scalar_len();
        if input.len() < sl {
            return Err(Error::SizeError);
        }
        let part = copy_range(input, 0, sl);
        match deserialize_scalar(s, &part) {
            Ok(blind) => Ok(NonVerifiableClient { blind }),
            Err(e) => Err(e),
        }
    }

    /// Erases the blinding factor.
    pub fn zeroize(&mut self)
        ensures
            final(self).blind@ == zeroes(old(self).blind@.len()),
            final(self).blind.suite == old(self).blind.suite,
    {
        let n = self.blind.bytes.len();
        self.blind.bytes = vec_zeroes(n);
    }
}

impl VerifiableClient {
    /// Serialization into bytes.
    pub fn serialize(&self) -> (r: Vec<u8>)
        ensures
            r@ == vc_layout(*self),
    {
        let mut v = self.blind.serialize();
        push_bytes(&mut v, &self.blinded_element.bytes);
        v
    }

    /// Deserialization from bytes.
    pub fn deserialize(s: CipherSuite, input: &Vec<u8>) -> (r: Result<VerifiableClient, Error>)
        ensures
            match r {
                Ok(c) => vc_parse(s, input@) == Ok::<(Seq<u8>, Seq<u8>), Error>(
                    (c.blind@, c.blinded_element@),
                ) && c.wf() && c.suite() == s,
                Err(e) => vc_parse(s, input@) == Err::<(Seq<u8>, Seq<u8>), Error>(e),
            },
    {
        let sl = s.scalar_len();
        let el = s.elem_len();
        if input.len() < sl + el {
            return Err(Error::SizeError);
        }
        let spart = copy_range(input, 0, sl);
        let blind = match deserialize_scalar(s, &spart) {
            Ok(b) => b,
            Err(e) => {
                return Err(e);
            }
        };
        let epart = copy_range(input, sl, el);
        match deserialize_elem(s, &epart) {
            Ok(blinded_element) => Ok(VerifiableClient { blind, blinded_element }),
            Err(e) => Err(e),
        }
    }

    /// Erases the blinding factor and the retained blinded element.
    pub fn zeroize(&mut self)
        ensures
            final(self).blind@ == zeroes(old(self).blind@.len()),
            final(self).blind.suite == old(self).blind.suite,
            final(self).blinded_element@ == zeroes(old(self).blinded_element@.len()),
            final(self).blinded_element.suite == old(self).blinded_element.suite,
    {
        let n = self.blind.bytes.len();
        self.blind.bytes = vec_zeroes(n);
        let m = self.blinded_element.bytes.len();
        self.blinded_element.bytes = vec_zeroes(m);
    }
}

impl NonVerifiableServer {
    /// Serialization into bytes.
    pub fn serialize(&self) -> (r: Vec<u8>)
        ensures
            r@ == nvs_layout(*self),
    {
        self.sk.serialize()
    }

    /// Deserialization from bytes.
    pub fn deserialize(s: CipherSuite, input: &Vec<u8>) -> (r: Result<NonVerifiableServer, Error>)
        ensures
            match r {
                Ok(v) => nvs_parse(s, input@) == Ok::<Seq<u8>, Error>(v.sk@) && v.wf() && v.suite()
                    == s,
                Err(e) => nvs_parse(s, input@) == Err::<Seq<u8>, Error>(e),
            },
    {
        let sl = s.scalar_len();
        if input.len() < sl {
            return Err(Error::SizeError);
        }
        let part = copy_range(input, 0, sl);
        match deserialize_scalar(s, &part) {
            Ok(sk) => Ok(NonVerifiableServer { sk }),
            Err(e) => Err(e),
        }
    }

    /// Erases the secret key.
    pub fn zeroize(&mut self)
        ensures
            final(self).sk@ == zeroes(old(self).sk@.len()),
            final(self).sk.suite == old(self).sk.suite,
    {
        let n = self.sk.bytes.len();
        self.sk.bytes = vec_zeroes(n);
    }
}

impl VerifiableServer {
    /// Serialization into bytes.
    pub fn serialize(&self) -> (r: Vec<u8>)
        ensures
            r@ == vs_layout(*self),
    {
        let mut v = self.sk.serialize();
        push_bytes(&mut v, &self.pk.bytes);
        v
    }

    /// Deserialization from bytes.
    ///
    /// The stored public key is taken as persisted; it is not
    /// recomputed from the secret key.
    pub fn deserialize(s: CipherSuite, input: &Vec<u8>) -> (r: Result<VerifiableServer, Error>)
        ensures
            match r {
                Ok(v) => vs_parse(s, input@) == Ok::<(Seq<u8>, Seq<u8>), Error>((v.sk@, v.pk@))
                    && v.wf() && v.suite() == s,
                Err(e) => vs_parse(s, input@) == Err::<(Seq<u8>, Seq<u8>), Error>(e),
            },
    {
        let sl = s.scalar_len();
        let el = s.elem_len();
        if input.len() < sl + el {
            return Err(Error::SizeError);
        }
        let spart = copy_range(input, 0, sl);
        let sk = match deserialize_scalar(s, &spart) {
            Ok(b) => b,
            Err(e) => {
                return Err(e);
            }
        };
        let epart = copy_range(input, sl, el);
        match deserialize_elem(s, &epart) {
            Ok(pk) => Ok(VerifiableServer { sk, pk }),
            Err(e) => Err(e),
        }
    }

    /// Erases the secret key and the public key.
    pub fn zeroize(&mut self)
        ensures
            final(self).sk@ == zeroes(old(self).sk@.len()),
            final(self).sk.suite == old(self).sk.suite,
            final(self).pk@ == zeroes(old(self).pk@.len()),
            final(self).pk.suite == old(self).pk.suite,
    {
        let n = self.sk.bytes.len();
        self.sk.bytes = vec_zeroes(n);
        let m = self.pk.bytes.len();
        self.pk.bytes = vec_zeroes(m);
    }
}

impl Proof {
    /// Serialization into bytes.
    pub fn serialize(&self) -> (r: Vec<u8>)
        ensures
            r@ == proof_layout(*self),
    {
        let mut v = self.c_scalar.serialize();
        push_bytes(&mut v, &self.s_scalar.bytes);
        v
    }

    /// Deserialization from bytes.
    pub fn deserialize(s: CipherSuite, input: &Vec<u8>) -> (r: Result<Proof, Error>)
        ensures
            match r {
                Ok(p) => proof_parse(s, input@) == Ok::<(Seq<u8>, Seq<u8>), Error>(
                    (p.c_scalar@, p.s_scalar@),
                ) && p.c_scalar.wf() && p.c_scalar.suite == s && p.s_scalar.wf()
                    && p.s_scalar.suite == s,
                Err(e) => proof_parse(s, input@) == Err::<(Seq<u8>, Seq<u8>), Error>(e),
            },
    {
        let sl = s.scalar_len();
        if input.len() < sl + sl {
            return Err(Error::SizeError);
        }
        let cpart = copy_range(input, 0, sl);
        let c_scalar = match deserialize_scalar(s, &cpart) {
            Ok(b) => b,
            Err(e) => {
                return Err(e);
            }
        };
        let spart = copy_range(input, sl, sl);
        match deserialize_scalar(s, &spart) {
            Ok(s_scalar) => Ok(Proof { c_scalar, s_scalar }),
            Err(e) => Err(e),
        }
    }

    /// Erases both proof scalars.
    pub fn zeroize(&mut self)
        ensures
            final(self).c_scalar@ == zeroes(old(self).c_scalar@.len()),
            final(self).c_scalar.suite == old(self).c_scalar.suite,
            final(self).s_scalar@ == zeroes(old(self).s_scalar@.len()),
            final(self).s_scalar.suite == old(self).s_scalar.suite,
    {
        let n = self.c_scalar.bytes.len();
        self.c_scalar.bytes = vec_zeroes(n);
        let m = self.s_scalar.bytes.len();
        self.s_scalar.bytes = vec_zeroes(m);
    }
}

impl BlindedElement {
    /// Serialization into bytes.
    pub fn serialize(&self) -> (r: Vec<u8>)
        ensures
            r@ == blinded_layout(*self),
    {
        self.value.serialize()
    }

    /// Deserialization from bytes, rejecting the identity element.
    pub fn deserialize(s: CipherSuite, input: &Vec<u8>) -> (r: Result<BlindedElement, Error>)
        ensures
            match r {
                Ok(b) => elem_parse(s, input@) == Ok::<Seq<u8>, Error>(b.value@) && b.wf()
                    && b.suite() == s,
                Err(e) => elem_parse(s, input@) == Err::<Seq<u8>, Error>(e),
            },
    {
        let el = s.elem_len();
        if input.len() < el {
            return Err(Error::SizeError);
        }
        let part = copy_range(input, 0, el);
        match deserialize_elem(s, &part) {
            Ok(value) => Ok(BlindedElement { value }),
            Err(e) => Err(e),
        }
    }

    /// Erases the element.
    pub fn zeroize(&mut self)
        ensures
            final(self).value@ == zeroes(old(self).value@.len()),
            final(self).value.suite == old(self).value.suite,
    {
        let n = self.value.bytes.len();
        self.value.bytes = vec_zeroes(n);
    }
}

impl EvaluationElement {
    /// Serialization into bytes.
    pub fn serialize(&self) -> (r: Vec<u8>)
        ensures
            r@ == eval_layout(*self),
    {
        self.value.serialize()
    }

    /// Deserialization from bytes, rejecting the identity element.
    pub fn deserialize(s: CipherSuite, input: &Vec<u8>) -> (r: Result<EvaluationElement, Error>)
        ensures
            match r {
                Ok(b) => elem_parse(s, input@) == Ok::<Seq<u8>, Error>(b.value@) && b.wf()
                    && b.suite() == s,
                Err(e) => elem_parse(s, input@) == Err::<Seq<u8>, Error>(e),
            },
    {
        let el = s.elem_len();
        if input.len() < el {
            return Err(Error::SizeError);
        }
        let part = copy_range(input, 0, el);
        match deserialize_elem(s, &part) {
            Ok(value) => Ok(EvaluationElement { value }),
            Err(e) => Err(e),
        }
    }

    /// Erases the element.
    pub fn zeroize(&mut self)
        ensures
            final(self).value@ == zeroes(old(self).value@.len()),
            final(self).value.suite == old(self).value.suite,
    {
        let n = self.value.bytes.len();
        self.value.bytes = vec_zeroes(n);
    }
}

impl PreparedTscalar {
    /// Erases the prepared evaluation scalar; it is a secret of the
    /// same weight as the key itself.
    pub fn zeroize(&mut self)
        ensures
            final(self).0@ == zeroes(old(self).0@.len()),
            final(self).0.suite == old(self).0.suite,
    {
        let n = self.0.bytes.len();
        self.0.bytes = vec_zeroes(n);
    }
}

// ------------------------------------------------------------------
// Laws.
// ------------------------------------------------------------------

/// Round-trip: the serialized form of a well-formed non-verifiable
/// client with a nonzero blinding factor deserializes back to the same
/// state.
pub proof fn lemma_nonverifiable_client_roundtrip(s: CipherSuite, c: NonVerifiableClient)
    requires
        c.wf(),
        c.suite() == s,
        c.blind@ != zero_scalar_enc(s),
    ensures
        nvc_parse(s, nvc_layout(c)) == Ok::<Seq<u8>, Error>(c.blind@),
{
    assert(nvc_layout(c).subrange(0, scalar_len(s) as int) =~= c.blind@);
}

/// Round-trip: the serialized form of a well-formed verifiable client
/// with a nonzero blinding factor and a non-identity blinded element
/// deserializes back to the same state.
pub proof fn lemma_verifiable_client_roundtrip(s: CipherSuite, c: VerifiableClient)
    requires
        c.wf(),
        c.suite() == s,
        c.blind@ != zero_scalar_enc(s),
        c.blinded_element@ != identity_enc(s),
    ensures
        vc_parse(s, vc_layout(c)) == Ok::<(Seq<u8>, Seq<u8>), Error>(
            (c.blind@, c.blinded_element@),
        ),
{
    assert(vc_layout(c).subrange(0, scalar_len(s) as int) =~= c.blind@);
    assert(vc_layout(c).subrange(scalar_len(s) as int, (scalar_len(s) + elem_len(s)) as int)
        =~= c.blinded_element@);
}

/// Round-trip: the serialized form of a well-formed non-verifiable
/// server with a nonzero key deserializes back to the same state.
pub proof fn lemma_nonverifiable_server_roundtrip(s: CipherSuite, v: NonVerifiableServer)
    requires
        v.wf(),
        v.suite() == s,
        v.sk@ != zero_scalar_enc(s),
    ensures
        nvs_parse(s, nvs_layout(v)) == Ok::<Seq<u8>, Error>(v.sk@),
{
    assert(nvs_layout(v).subrange(0, scalar_len(s) as int) =~= v.sk@);
}

/// Round-trip: the serialized form of a well-formed verifiable server
/// with a nonzero key and a non-identity public key deserializes back
/// to the same state.
pub proof fn lemma_verifiable_server_roundtrip(s: CipherSuite, v: VerifiableServer)
    requires
        v.wf(),
        v.suite() == s,
        v.sk@ != zero_scalar_enc(s),
        v.pk@ != identity_enc(s),
    ensures
        vs_parse(s, vs_layout(v)) == Ok::<(Seq<u8>, Seq<u8>), Error>((v.sk@, v.pk@)),
{
    assert(vs_layout(v).subrange(0, scalar_len(s) as int) =~= v.sk@);
    assert(vs_layout(v).subrange(scalar_len(s) as int, (scalar_len(s) + elem_len(s)) as int) =~= v.pk@);
}

/// Round-trip: the serialized form of a proof with two well-formed
/// nonzero scalars deserializes back to the same proof.
pub proof fn lemma_proof_roundtrip(s: CipherSuite, p: Proof)
    requires
        p.c_scalar.wf(),
        p.c_scalar.suite == s,
        p.c_scalar@ != zero_scalar_enc(s),
        p.s_scalar.wf(),
        p.s_scalar.suite == s,
        p.s_scalar@ != zero_scalar_enc(s),
    ensures
        proof_parse(s, proof_layout(p)) == Ok::<(Seq<u8>, Seq<u8>), Error>(
            (p.c_scalar@, p.s_scalar@),
        ),
{
    assert(proof_layout(p).subrange(0, scalar_len(s) as int) =~= p.c_scalar@);
    assert(proof_layout(p).subrange(scalar_len(s) as int, (scalar_len(s) + scalar_len(s)) as int)
        =~= p.s_scalar@);
}

/// Round-trip: the serialized form of a well-formed, non-identity
/// blinded element deserializes back to the same message.
pub proof fn lemma_blinded_element_roundtrip(s: CipherSuite, b: BlindedElement)
    requires
        b.wf(),
        b.suite() == s,
        b.value@ != identity_enc(s),
    ensures
        elem_parse(s, blinded_layout(b)) == Ok::<Seq<u8>, Error>(b.value@),
{
    assert(blinded_layout(b).subrange(0, elem_len(s) as int) =~= b.value@);
}

/// Round-trip: the serialized form of a well-formed, non-identity
/// evaluation element deserializes back to the same message.
pub proof fn lemma_evaluation_element_roundtrip(s: CipherSuite, e: EvaluationElement)
    requires
        e.wf(),
        e.suite() == s,
        e.value@ != identity_enc(s),
    ensures
        elem_parse(s, eval_layout(e)) == Ok::<Seq<u8>, Error>(e.value@),
{
    assert(eval_layout(e).subrange(0, elem_len(s) as int) =~= e.value@);
}

/// Identity rejection: the encoding of the identity element never
/// deserializes.
pub proof fn lemma_identity_rejected(s: CipherSuite)
    ensures
        elem_parse(s, identity_enc(s)) == Err::<Seq<u8>, Error>(Error::Deserialization),
{
    assert(identity_enc(s).subrange(0, elem_len(s) as int) =~= identity_enc(s));
}

/// Zero rejection: the encoding of the zero scalar never
/// deserializes.
pub proof fn lemma_zero_scalar_rejected(s: CipherSuite)
    ensures
        !scalar_decodable(s, zero_scalar_enc(s)),
{
}

} // verus!
