//! The VOPRF protocol: blinding, evaluation, finalization, and the
//! batched DLEQ proof of the verifiable mode.
//!
//! Every transcript byte is pinned down by the spec functions at the
//! top of this module; the executable protocol functions are verified
//! to produce exactly those transcripts over the group model.

use vstd::prelude::*;
use crate::Error;
use crate::group::Elem;
use crate::group::Scalar;
use crate::group::base_elem;
use crate::group::deserialize_scalar;
use crate::group::elem_add;
use crate::group::elem_mul;
use crate::group::hash_to_curve;
use crate::group::hash_to_scalar;
use crate::group::identity_elem;
use crate::group::invert_scalar;
use crate::group::is_all_zero;
use crate::group::random_nonzero_scalar;
use crate::group::scalar_add;
use crate::group::scalar_mul;
use crate::group::scalar_sub;
use crate::group::model::base_enc;
use crate::group::model::h2c_ok;
use crate::group::model::identity_enc;
use crate::group::model::is_scalar;
use crate::group::model::scalar_decodable;
use crate::group::model::spec_hash_to_curve;
use crate::group::model::spec_hash_to_scalar;
use crate::group::model::zero_scalar_enc;
use crate::hash::hash;
use crate::hash::spec_hash;
use crate::rng::EntropySource;
use crate::suite::CipherSuite;
use crate::suite::Label;
use crate::suite::all_zero;
use crate::suite::context_string;
use crate::suite::dst;
use crate::suite::get_context_string;
use crate::suite::hash_len;
use crate::suite::i2osp2;
use crate::suite::label_vec;
use crate::suite::lp;
use crate::suite::make_dst;
use crate::suite::push_bytes;
use crate::suite::push_i2osp2;
use crate::suite::push_lp;
use crate::suite::str_context;

pub use crate::suite::Mode;

verus! {

// ------------------------------------------------------------------
// The transcript model.
// ------------------------------------------------------------------

/// A valid protocol input: 1 to 65535 bytes.
pub open spec fn valid_input(x: Seq<u8>) -> bool {
    1 <= x.len() <= 65535
}

/// Valid metadata: at most 65535 - 21 bytes, so that the context
/// message stays under the two-byte length limit.
pub open spec fn valid_info(info: Seq<u8>) -> bool {
    info.len() <= 65535 - 21
}

/// A valid key-derivation seed: 1 to 65535 bytes.
pub open spec fn valid_seed(seed: Seq<u8>) -> bool {
    1 <= seed.len() <= 65535
}

/// The metadata bytes an optional argument stands for.
pub open spec fn spec_info(m: Option<&Vec<u8>>) -> Seq<u8> {
    match m {
        Some(v) => v@,
        None => Seq::empty(),
    }
}

/// The context message whose hash keys an evaluation:
/// "Context-" || contextString || I2OSP(|info|, 2) || info.
pub open spec fn context_msg(s: CipherSuite, m: Mode, info: Seq<u8>) -> Seq<u8> {
    str_context() + context_string(s, m) + i2osp2(info.len()) + info
}

/// The scalar `m` derived from the metadata.
pub open spec fn spec_m_scalar(s: CipherSuite, m: Mode, info: Seq<u8>) -> Seq<u8> {
    spec_hash_to_scalar(s, context_msg(s, m, info), dst(Label::HashToScalar, s, m))
}

/// The evaluation scalar `t = sk + m`.
pub open spec fn spec_t_scalar(s: CipherSuite, m: Mode, sk: Seq<u8>, info: Seq<u8>) -> Seq<u8> {
    crate::group::model::scalar_add(s, sk, spec_m_scalar(s, m, info))
}

/// The input hashed to the group: `P = hash_to_curve(x)`.
pub open spec fn spec_input_elem(s: CipherSuite, m: Mode, x: Seq<u8>) -> Seq<u8> {
    spec_hash_to_curve(s, x, dst(Label::HashToGroup, s, m))
}

/// The blinded element `B = P * blind`.
pub open spec fn spec_blinded(s: CipherSuite, m: Mode, x: Seq<u8>, blind: Seq<u8>) -> Seq<u8> {
    crate::group::model::elem_mul(s, spec_input_elem(s, m, x), blind)
}

/// The evaluated element `E = B * t^(-1)`.
pub open spec fn spec_eval(s: CipherSuite, m: Mode, b: Seq<u8>, sk: Seq<u8>, info: Seq<u8>) -> Seq<
    u8,
> {
    crate::group::model::elem_mul(
        s,
        b,
        crate::group::model::scalar_invert(s, spec_t_scalar(s, m, sk, info)),
    )
}

/// The unblinded element `N = E * blind^(-1)`.
pub open spec fn spec_unblind(s: CipherSuite, e: Seq<u8>, blind: Seq<u8>) -> Seq<u8> {
    crate::group::model::elem_mul(s, e, crate::group::model::scalar_invert(s, blind))
}

/// The message hashed into the PRF output:
/// each part under its two-byte length prefix.
pub open spec fn finalize_msg(s: CipherSuite, m: Mode, x: Seq<u8>, info: Seq<u8>, n: Seq<u8>) -> Seq<
    u8,
> {
    lp(x) + lp(info) + lp(n) + lp(dst(Label::Finalize, s, m))
}

/// The PRF output for an unblinded element `n`.
pub open spec fn spec_finalize_output(
    s: CipherSuite,
    m: Mode,
    x: Seq<u8>,
    info: Seq<u8>,
    n: Seq<u8>,
) -> Seq<u8> {
    spec_hash(s, finalize_msg(s, m, x, info, n))
}

/// What a client that blinded `x` with `blind` outputs on the
/// evaluated element `e`.
pub open spec fn client_output(
    s: CipherSuite,
    m: Mode,
    x: Seq<u8>,
    info: Seq<u8>,
    e: Seq<u8>,
    blind: Seq<u8>,
) -> Seq<u8> {
    spec_finalize_output(s, m, x, info, spec_unblind(s, e, blind))
}

/// The reference PRF: `F(k, x) = H(framed(x, info,
/// hash_to_curve(x) * (k + m)^(-1)))`.
pub open spec fn prf_reference(
    s: CipherSuite,
    m: Mode,
    x: Seq<u8>,
    k: Seq<u8>,
    info: Seq<u8>,
) -> Seq<u8> {
    spec_finalize_output(s, m, x, info, spec_eval(s, m, spec_input_elem(s, m, x), k, info))
}

// ------------------------------------------------------------------
// Protocol types.
// ------------------------------------------------------------------

/// The first message of the flow: the blinded input element.
#[derive(Debug)]
pub struct BlindedElement {
    pub value: Elem,
}

/// The server's reply: the evaluated element.
#[derive(Debug)]
pub struct EvaluationElement {
    pub value: Elem,
}

/// A client of the non-verifiable flow; holds only its blinding
/// factor.
#[derive(Debug)]
pub struct NonVerifiableClient {
    pub blind: Scalar,
}

/// A client of the verifiable flow; holds its blinding factor and the
/// blinded element it sent.
#[derive(Debug)]
pub struct VerifiableClient {
    pub blind: Scalar,
    pub blinded_element: Elem,
}

/// A server of the non-verifiable flow; holds the secret key.
#[derive(Debug)]
pub struct NonVerifiableServer {
    pub sk: Scalar,
}

/// A server of the verifiable flow; holds the secret key and the
/// public key `pk = g * sk`.
#[derive(Debug)]
pub struct VerifiableServer {
    pub sk: Scalar,
    pub pk: Elem,
}

/// The DLEQ proof: the challenge scalar `c` and the response scalar
/// `s`.
#[derive(Debug)]
pub struct Proof {
    pub c_scalar: Scalar,
    pub s_scalar: Scalar,
}

impl BlindedElement {
    /// The suite this message belongs to.
    pub open spec fn suite(self) -> CipherSuite {
        self.value.suite
    }

    /// Well-formed: the element is.
    pub open spec fn wf(self) -> bool {
        self.value.wf()
    }

    /// An explicit copy.
    pub fn copy(&self) -> (r: BlindedElement)
        ensures
            r.suite() == self.suite(),
            r.value@ == self.value@,
    {
        BlindedElement { value: self.value.copy() }
    }

    /// Wraps a raw group element without any checks.
    pub fn from_value_unchecked(value: Elem) -> (r: BlindedElement)
        ensures
            r.value == value,
    {
        BlindedElement { value }
    }

    /// The raw group element.
    pub fn value(&self) -> (r: Elem)
        ensures
            r.suite == self.suite(),
            r@ == self.value@,
    {
        self.value.copy()
    }
}

impl EvaluationElement {
    /// The suite this message belongs to.
    pub open spec fn suite(self) -> CipherSuite {
        self.value.suite
    }

    /// Well-formed: the element is.
    pub open spec fn wf(self) -> bool {
        self.value.wf()
    }

    /// An explicit copy.
    pub fn copy(&self) -> (r: EvaluationElement)
        ensures
            r.suite() == self.suite(),
            r.value@ == self.value@,
    {
        EvaluationElement { value: self.value.copy() }
    }

    /// Wraps a raw group element without any checks.
    pub fn from_value_unchecked(value: Elem) -> (r: EvaluationElement)
        ensures
            r.value == value,
    {
        EvaluationElement { value }
    }

    /// The raw group element.
    pub fn value(&self) -> (r: Elem)
        ensures
            r.suite == self.suite(),
            r@ == self.value@,
    {
        self.value.copy()
    }
}

// ------------------------------------------------------------------
// Result structs.
// ------------------------------------------------------------------

/// What a non-verifiable blind returns.
#[derive(Debug)]
pub struct NonVerifiableClientBlindResult {
    /// The state to be persisted on the client.
    pub state: NonVerifiableClient,
    /// The message to send to the server.
    pub message: BlindedElement,
}

/// What a non-verifiable evaluate returns.
#[derive(Debug)]
pub struct NonVerifiableServerEvaluateResult {
    /// The message to send to the client.
    pub message: EvaluationElement,
}

/// What a verifiable blind returns.
#[derive(Debug)]
pub struct VerifiableClientBlindResult {
    /// The state to be persisted on the client.
    pub state: VerifiableClient,
    /// The message to send to the server.
    pub message: BlindedElement,
}

/// What a verifiable evaluate returns.
#[derive(Debug)]
pub struct VerifiableServerEvaluateResult {
    /// The message to send to the client.
    pub message: EvaluationElement,
    /// The proof for the client to verify.
    pub proof: Proof,
}

/// An evaluated element prepared by the first phase of a batched
/// evaluation.
#[derive(Debug)]
pub struct PreparedEvaluationElement(pub EvaluationElement);

/// The evaluation scalar `t` prepared by the first phase of a batched
/// evaluation.
#[derive(Debug)]
pub struct PreparedTscalar(pub Scalar);

/// What the first phase of a batched evaluation returns.
#[derive(Debug)]
pub struct VerifiableServerBatchEvaluatePrepareResult {
    /// Prepared evaluated elements that will become messages.
    pub prepared_evaluation_elements: Vec<PreparedEvaluationElement>,
    /// The prepared `t` needed to finish the batch.
    pub t: PreparedTscalar,
}

/// What the second phase of a batched evaluation returns.
#[derive(Debug)]
pub struct VerifiableServerBatchEvaluateFinishResult {
    /// The messages to send to the client.
    pub messages: Vec<EvaluationElement>,
    /// The proof for the client to verify.
    pub proof: Proof,
}

/// What the allocating batched evaluation returns.
#[derive(Debug)]
pub struct VerifiableServerBatchEvaluateResult {
    /// The messages to send to the client.
    pub messages: Vec<EvaluationElement>,
    /// The proof for the client to verify.
    pub proof: Proof,
}

// ------------------------------------------------------------------
// Shared helpers.
// ------------------------------------------------------------------

/// Builds the context message "Context-" || contextString ||
/// I2OSP(|info|, 2) || info.
fn build_context_msg(s: CipherSuite, m: Mode, info: &Vec<u8>) -> (r: Vec<u8>)
    requires
        info@.len() <= 65535,
    ensures
        r@ == context_msg(s, m, info@),
{
    let mut v = label_vec(Label::Context);
    let ctx = get_context_string(s, m);
    push_bytes(&mut v, &ctx);
    push_i2osp2(&mut v, info.len() as u16);
    push_bytes(&mut v, info);
    assert(v@ =~= context_msg(s, m, info@));
    v
}

/// Derives the metadata scalar `m`.  The tag is never empty, so the
/// hash cannot fail.
fn derive_m_scalar(s: CipherSuite, m: Mode, info: &Vec<u8>) -> (r: Scalar)
    requires
        info@.len() <= 65535,
    ensures
        r.suite == s,
        r.wf(),
        r@ == spec_m_scalar(s, m, info@),
{
    let msg = build_context_msg(s, m, info);
    let tag = make_dst(Label::HashToScalar, s, m);
    assert(h2c_ok(s, tag@)) by {
        match s {
            CipherSuite::Ristretto255Sha512 => {}
            CipherSuite::P256Sha256 => {}
        }
    }
    match hash_to_scalar(s, &msg, &tag) {
        Ok(k) => k,
        Err(_) => vstd::pervasive::unreached(),
    }
}

/// Hashes the input to the group.  The tag is never empty, so the hash
/// cannot fail.
fn derive_input_elem(s: CipherSuite, m: Mode, input: &Vec<u8>) -> (r: Elem)
    ensures
        r.suite == s,
        r.wf(),
        r@ == spec_input_elem(s, m, input@),
{
    let tag = make_dst(Label::HashToGroup, s, m);
    assert(h2c_ok(s, tag@)) by {
        match s {
            CipherSuite::Ristretto255Sha512 => {}
            CipherSuite::P256Sha256 => {}
        }
    }
    match hash_to_curve(s, input, &tag) {
        Ok(e) => e,
        Err(_) => vstd::pervasive::unreached(),
    }
}

/// The inner blinding step: hashes the input to the group and
/// multiplies by the supplied blinding factor.
pub(crate) fn deterministic_blind_unchecked_inner(
    s: CipherSuite,
    input: &Vec<u8>,
    blind: &Scalar,
    m: Mode,
) -> (r: Result<Elem, Error>)
    requires
        blind.wf(),
        blind.suite == s,
    ensures
        match r {
            Ok(e) => valid_input(input@) && e.suite == s && e.wf() && e@ == spec_blinded(
                s,
                m,
                input@,
                blind@,
            ),
            Err(er) => !valid_input(input@) && er == Error::Input,
        },
{
    if input.len() == 0 || input.len() > 65535 {
        return Err(Error::Input);
    }
    let hashed_point = derive_input_elem(s, m, input);
    Ok(elem_mul(&hashed_point, blind))
}

/// The inner blinding step with a freshly sampled blinding factor.
pub(crate) fn blind_inner<R: EntropySource>(
    s: CipherSuite,
    input: &Vec<u8>,
    rng: &mut R,
    m: Mode,
) -> (r: Result<(Scalar, Elem), Error>)
    ensures
        match r {
            Ok((blind, e)) => valid_input(input@) && blind.suite == s && blind.wf() && blind@
                != zero_scalar_enc(s) && e.suite == s && e.wf() && e@ == spec_blinded(
                s,
                m,
                input@,
                blind@,
            ),
            Err(er) => (er == Error::Input && !valid_input(input@)) || (er == Error::PointError
                && valid_input(input@)),
        },
{
    if input.len() == 0 || input.len() > 65535 {
        return Err(Error::Input);
    }
    let blind = match random_nonzero_scalar(s, rng) {
        Ok(k) => k,
        Err(er) => {
            return Err(er);
        }
    };
    match deterministic_blind_unchecked_inner(s, input, &blind, m) {
        Ok(e) => Ok((blind, e)),
        Err(_) => vstd::pervasive::unreached(),
    }
}

/// Finalizes a batch of inputs and unblinded elements into PRF
/// outputs: `H(framed(x_i, info, n_i))` for each pair, in order.
#[verifier::loop_isolation(false)]
pub(crate) fn finalize_after_unblind(
    s: CipherSuite,
    m: Mode,
    inputs: &Vec<Vec<u8>>,
    unblinded: &Vec<Elem>,
    info: &Vec<u8>,
) -> (r: Result<Vec<Vec<u8>>, Error>)
    requires
        inputs@.len() == unblinded@.len(),
        forall|i: int| 0 <= i < unblinded@.len() ==> (#[trigger] unblinded@[i]).wf()
            && unblinded@[i].suite == s,
    ensures
        match r {
            Ok(outs) => valid_info(info@) && (forall|i: int|
                0 <= i < inputs@.len() ==> valid_input(#[trigger] inputs@[i]@)) && outs@.len()
                == inputs@.len() && (forall|i: int|
                0 <= i < outs@.len() ==> (#[trigger] outs@[i])@ == spec_finalize_output(
                    s,
                    m,
                    inputs@[i]@,
                    info@,
                    unblinded@[i]@,
                ) && outs@[i]@.len() == hash_len(s)),
            Err(er) => (er == Error::Metadata && !valid_info(info@)) || (er == Error::Input
                && valid_info(info@) && !(forall|i: int|
                0 <= i < inputs@.len() ==> valid_input(#[trigger] inputs@[i]@))),
        },
{
    if info.len() > 65535 - 21 {
        return Err(Error::Metadata);
    }
    let finalize_dst = make_dst(Label::Finalize, s, m);
    let n = inputs.len();
    let mut outs: Vec<Vec<u8>> = Vec::new();
    let mut i: usize = 0;
    while i < n
        invariant
            i <= n,
            outs@.len() == i,
            forall|j: int| 0 <= j < i ==> valid_input(#[trigger] inputs@[j]@),
            forall|j: int|
                0 <= j < i ==> (#[trigger] outs@[j])@ == spec_finalize_output(
                    s,
                    m,
                    inputs@[j]@,
                    info@,
                    unblinded@[j]@,
                ) && outs@[j]@.len() == hash_len(s),
        decreases n - i,
    {
        let x = &inputs[i];
        if x.len() == 0 || x.len() > 65535 {
            return Err(Error::Input);
        }
        let nb = &unblinded[i].bytes;
        let mut msg: Vec<u8> = Vec::new();
        push_lp(&mut msg, x);
        push_lp(&mut msg, info);
        push_lp(&mut msg, nb);
        push_lp(&mut msg, &finalize_dst);
        assert(msg@ =~= finalize_msg(s, m, x@, info@, nb@));
        let out = hash(s, &msg);
        outs.push(out);
        i = i + 1;
    }
    Ok(outs)
}

// ------------------------------------------------------------------
// The non-verifiable flow.
// ------------------------------------------------------------------

impl NonVerifiableClient {
    /// The suite the client runs.
    pub open spec fn suite(self) -> CipherSuite {
        self.blind.suite
    }

    /// Well-formed: the blinding factor is a canonical scalar.
    pub open spec fn wf(self) -> bool {
        self.blind.wf()
    }

    /// Blinds an input with a fresh random blinding factor and returns
    /// the client state and the message for the server.
    pub fn blind<R: EntropySource>(s: CipherSuite, input: &Vec<u8>, rng: &mut R) -> (r: Result<
        NonVerifiableClientBlindResult,
        Error,
    >)
        ensures
            match r {
                Ok(res) => valid_input(input@) && res.state.wf() && res.state.suite() == s
                    && res.state.blind@ != zero_scalar_enc(s) && res.message.wf()
                    && res.message.suite() == s && res.message.value@ == spec_blinded(
                    s,
                    Mode::Base,
                    input@,
                    res.state.blind@,
                ),
                Err(er) => (er == Error::Input && !valid_input(input@)) || (er
                    == Error::PointError && valid_input(input@)),
            },
    {
        match blind_inner(s, input, rng, Mode::Base) {
            Ok((blind, e)) => Ok(
                NonVerifiableClientBlindResult {
                    state: NonVerifiableClient { blind },
                    message: BlindedElement { value: e },
                },
            ),
            Err(er) => Err(er),
        }
    }

    /// Blinds an input with a caller-supplied blinding factor instead
    /// of sampling one; the factor is not checked for being nonzero.
    pub fn deterministic_blind_unchecked(s: CipherSuite, input: &Vec<u8>, blind: Scalar) -> (r:
        Result<NonVerifiableClientBlindResult, Error>)
        requires
            blind.wf(),
            blind.suite == s,
        ensures
            match r {
                Ok(res) => valid_input(input@) && res.state.blind == blind && res.message.wf()
                    && res.message.suite() == s && res.message.value@ == spec_blinded(
                    s,
                    Mode::Base,
                    input@,
                    blind@,
                ),
                Err(er) => !valid_input(input@) && er == Error::Input,
            },
    {
        match deterministic_blind_unchecked_inner(s, input, &blind, Mode::Base) {
            Ok(e) => Ok(
                NonVerifiableClientBlindResult {
                    state: NonVerifiableClient { blind },
                    message: BlindedElement { value: e },
                },
            ),
            Err(er) => Err(er),
        }
    }

    /// Unblinds the server's evaluation and hashes the transcript into
    /// the PRF output.
    pub fn finalize(
        &self,
        input: &Vec<u8>,
        evaluation_element: &EvaluationElement,
        metadata: Option<&Vec<u8>>,
    ) -> (r: Result<Vec<u8>, Error>)
        requires
            self.wf(),
            evaluation_element.wf(),
            evaluation_element.suite() == self.suite(),
        ensures
            match r {
                Ok(out) => valid_input(input@) && valid_info(spec_info(metadata)) && out@
                    == client_output(
                    self.suite(),
                    Mode::Base,
                    input@,
                    spec_info(metadata),
                    evaluation_element.value@,
                    self.blind@,
                ),
                Err(er) => (er == Error::Metadata && !valid_info(spec_info(metadata))) || (er
                    == Error::Input && valid_info(spec_info(metadata)) && !valid_input(input@)),
            },
    {
        let s = self.blind.suite;
        let empty: Vec<u8> = Vec::new();
        let info: &Vec<u8> = match metadata {
            Some(v) => v,
            None => &empty,
        };
        let unblinded = elem_mul(&evaluation_element.value, &invert_scalar(&self.blind));
        let mut inputs: Vec<Vec<u8>> = Vec::new();
        inputs.push(vstd::slice::slice_to_vec(input.as_slice()));
        let mut unblindeds: Vec<Elem> = Vec::new();
        unblindeds.push(unblinded);
        match finalize_after_unblind(s, Mode::Base, &inputs, &unblindeds, info) {
            Ok(outs) => {
                assert(outs@[0]@ == client_output(
                    s,
                    Mode::Base,
                    input@,
                    spec_info(metadata),
                    evaluation_element.value@,
                    self.blind@,
                ));
                let mut outs = outs;
                match outs.pop() {
                    Some(out) => Ok(out),
                    None => vstd::pervasive::unreached(),
                }
            }
            Err(er) => Err(er),
        }
    }

    /// Rebuilds a client from a raw blinding factor.
    pub fn from_blind(blind: Scalar) -> (r: NonVerifiableClient)
        ensures
            r.blind == blind,
    {
        NonVerifiableClient { blind }
    }

    /// The blinding factor.
    pub fn get_blind(&self) -> (r: Scalar)
        ensures
            r.suite == self.blind.suite,
            r@ == self.blind@,
    {
        self.blind.copy()
    }
}

impl NonVerifiableServer {
    /// The suite the server runs.
    pub open spec fn suite(self) -> CipherSuite {
        self.sk.suite
    }

    /// Well-formed: the secret key is a canonical scalar.
    pub open spec fn wf(self) -> bool {
        self.sk.wf()
    }

    /// Creates a server with a random key derived from fresh entropy.
    pub fn new<R: EntropySource>(s: CipherSuite, rng: &mut R) -> (r: NonVerifiableServer)
        ensures
            r.wf(),
            r.suite() == s,
    {
        let seed = rng.fill(s.hash_len());
        match Self::new_from_seed(s, &seed) {
            Ok(server) => server,
            Err(_) => vstd::pervasive::unreached(),
        }
    }

    /// Creates a server from raw secret-key bytes, rejecting
    /// non-canonical and zero encodings.
    pub fn new_with_key(s: CipherSuite, private_key_bytes: &Vec<u8>) -> (r: Result<
        NonVerifiableServer,
        Error,
    >)
        ensures
            match r {
                Ok(server) => scalar_decodable(s, private_key_bytes@) && server.wf()
                    && server.suite() == s && server.sk@ == private_key_bytes@,
                Err(er) => !scalar_decodable(s, private_key_bytes@) && er == Error::Deserialization,
            },
    {
        match deserialize_scalar(s, private_key_bytes) {
            Ok(sk) => Ok(NonVerifiableServer { sk }),
            Err(er) => Err(er),
        }
    }

    /// Derives a server key from a seed ("DeriveKeyPair").
    pub fn new_from_seed(s: CipherSuite, seed: &Vec<u8>) -> (r: Result<NonVerifiableServer, Error>)
        ensures
            match r {
                Ok(server) => valid_seed(seed@) && server.wf() && server.suite() == s && server.sk@
                    == spec_hash_to_scalar(s, seed@, dst(Label::DeriveKeyPair, s, Mode::Base)),
                Err(er) => !valid_seed(seed@) && er == Error::Seed,
            },
    {
        match derive_key(s, seed, Mode::Base) {
            Ok(sk) => Ok(NonVerifiableServer { sk }),
            Err(er) => Err(er),
        }
    }

    /// The secret key.
    pub fn get_private_key(&self) -> (r: Scalar)
        ensures
            r.suite == self.sk.suite,
            r@ == self.sk@,
    {
        self.sk.copy()
    }

    /// Evaluates a blinded element under the secret key and the
    /// metadata: `E = B * (sk + m)^(-1)`.
    pub fn evaluate(&self, blinded_element: &BlindedElement, metadata: Option<&Vec<u8>>) -> (r:
        Result<NonVerifiableServerEvaluateResult, Error>)
        requires
            self.wf(),
            blinded_element.wf(),
            blinded_element.suite() == self.suite(),
        ensures
            match r {
                Ok(res) => valid_info(spec_info(metadata)) && spec_t_scalar(
                    self.suite(),
                    Mode::Base,
                    self.sk@,
                    spec_info(metadata),
                ) != zero_scalar_enc(self.suite()) && res.message.wf() && res.message.suite()
                    == self.suite() && res.message.value@ == spec_eval(
                    self.suite(),
                    Mode::Base,
                    blinded_element.value@,
                    self.sk@,
                    spec_info(metadata),
                ),
                Err(er) => er == Error::Metadata && (!valid_info(spec_info(metadata))
                    || spec_t_scalar(self.suite(), Mode::Base, self.sk@, spec_info(metadata))
                    == zero_scalar_enc(self.suite())),
            },
    {
        let s = self.sk.suite;
        let empty: Vec<u8> = Vec::new();
        let info: &Vec<u8> = match metadata {
            Some(v) => v,
            None => &empty,
        };
        if info.len() > 65535 - 21 {
            return Err(Error::Metadata);
        }
        let m = derive_m_scalar(s, Mode::Base, info);
        let t = scalar_add(&self.sk, &m);
        if is_all_zero(&t.bytes) {
            assert(t@ =~= zero_scalar_enc(s));
            return Err(Error::Metadata);
        }
        assert(t@ != zero_scalar_enc(s)) by {
            if t@ == zero_scalar_enc(s) {
                assert(all_zero(t@));
            }
        }
        let z = elem_mul(&blinded_element.value, &invert_scalar(&t));
        Ok(NonVerifiableServerEvaluateResult { message: EvaluationElement { value: z } })
    }
}

/// Derives a secret scalar from a seed under the "DeriveKeyPair" tag.
fn derive_key(s: CipherSuite, seed: &Vec<u8>, m: Mode) -> (r: Result<Scalar, Error>)
    ensures
        match r {
            Ok(sk) => valid_seed(seed@) && sk.wf() && sk.suite == s && sk@ == spec_hash_to_scalar(
                s,
                seed@,
                dst(Label::DeriveKeyPair, s, m),
            ),
            Err(er) => !valid_seed(seed@) && er == Error::Seed,
        },
{
    if seed.len() == 0 || seed.len() > 65535 {
        return Err(Error::Seed);
    }
    let tag = make_dst(Label::DeriveKeyPair, s, m);
    assert(h2c_ok(s, tag@)) by {
        match s {
            CipherSuite::Ristretto255Sha512 => {}
            CipherSuite::P256Sha256 => {}
        }
    }
    match hash_to_scalar(s, seed, &tag) {
        Ok(k) => Ok(k),
        Err(_) => vstd::pervasive::unreached(),
    }
}

// ------------------------------------------------------------------
// The DLEQ proof engine.
// ------------------------------------------------------------------

/// The element encodings of a sequence of evaluation elements.
pub open spec fn eval_views(v: Seq<EvaluationElement>) -> Seq<Seq<u8>> {
    v.map_values(|e: EvaluationElement| e.value@)
}

/// The element encodings of a sequence of blinded elements.
pub open spec fn blinded_views(v: Seq<BlindedElement>) -> Seq<Seq<u8>> {
    v.map_values(|e: BlindedElement| e.value@)
}

/// The element encodings of a sequence of prepared evaluation
/// elements.
pub open spec fn prepared_views(v: Seq<PreparedEvaluationElement>) -> Seq<Seq<u8>> {
    v.map_values(|e: PreparedEvaluationElement| e.0.value@)
}

/// The blinded elements retained by a sequence of verifiable clients.
pub open spec fn client_blinded_views(v: Seq<VerifiableClient>) -> Seq<Seq<u8>> {
    v.map_values(|c: VerifiableClient| c.blinded_element@)
}

/// Well-formed evaluation elements of one suite.
pub open spec fn evals_wf(s: CipherSuite, v: Seq<EvaluationElement>) -> bool {
    forall|i: int| 0 <= i < v.len() ==> (#[trigger] v[i]).wf() && v[i].suite() == s
}

/// Well-formed blinded elements of one suite.
pub open spec fn blinded_wf(s: CipherSuite, v: Seq<BlindedElement>) -> bool {
    forall|i: int| 0 <= i < v.len() ==> (#[trigger] v[i]).wf() && v[i].suite() == s
}

/// Well-formed prepared evaluation elements of one suite.
pub open spec fn prepared_wf(s: CipherSuite, v: Seq<PreparedEvaluationElement>) -> bool {
    forall|i: int| 0 <= i < v.len() ==> (#[trigger] v[i]).0.wf() && v[i].0.suite() == s
}

/// Well-formed verifiable clients of one suite.
pub open spec fn clients_wf(s: CipherSuite, v: Seq<VerifiableClient>) -> bool {
    forall|i: int|
        0 <= i < v.len() ==> (#[trigger] v[i]).wf() && v[i].suite() == s
}

/// The seed message: the proof target `b` and the "Seed-" tag, each
/// length-prefixed.
pub open spec fn seed_msg(s: CipherSuite, b: Seq<u8>) -> Seq<u8> {
    lp(b) + lp(dst(Label::Seed, s, Mode::Verifiable))
}

/// The composite seed: the hash of the seed message.
pub open spec fn spec_seed(s: CipherSuite, b: Seq<u8>) -> Seq<u8> {
    spec_hash(s, seed_msg(s, b))
}

/// The hash input of the i-th composite coefficient.
pub open spec fn composite_msg(s: CipherSuite, b: Seq<u8>, i: nat, c: Seq<u8>, d: Seq<u8>) -> Seq<
    u8,
> {
    lp(spec_seed(s, b)) + i2osp2(i) + lp(c) + lp(d) + lp(dst(Label::Composite, s, Mode::Verifiable))
}

/// The i-th composite coefficient `d_i`.
pub open spec fn spec_di(s: CipherSuite, b: Seq<u8>, i: nat, c: Seq<u8>, d: Seq<u8>) -> Seq<u8> {
    spec_hash_to_scalar(s, composite_msg(s, b, i, c, d), dst(Label::HashToScalar, s, Mode::Verifiable))
}

/// The composite `M` over the first `i` pairs: the sum of
/// `C_j * d_j`, accumulated from the identity.
pub open spec fn spec_comp_m(
    s: CipherSuite,
    b: Seq<u8>,
    cs: Seq<Seq<u8>>,
    ds: Seq<Seq<u8>>,
    i: nat,
) -> Seq<u8>
    decreases i,
{
    if i == 0 {
        identity_enc(s)
    } else {
        crate::group::model::elem_add(
            s,
            spec_comp_m(s, b, cs, ds, (i - 1) as nat),
            crate::group::model::elem_mul(
                s,
                cs[i - 1],
                spec_di(s, b, (i - 1) as nat, cs[i - 1], ds[i - 1]),
            ),
        )
    }
}

/// The composite `Z` over the first `i` pairs: the sum of
/// `D_j * d_j`, accumulated from the identity.
pub open spec fn spec_comp_z(
    s: CipherSuite,
    b: Seq<u8>,
    cs: Seq<Seq<u8>>,
    ds: Seq<Seq<u8>>,
    i: nat,
) -> Seq<u8>
    decreases i,
{
    if i == 0 {
        identity_enc(s)
    } else {
        crate::group::model::elem_add(
            s,
            spec_comp_z(s, b, cs, ds, (i - 1) as nat),
            crate::group::model::elem_mul(
                s,
                ds[i - 1],
                spec_di(s, b, (i - 1) as nat, cs[i - 1], ds[i - 1]),
            ),
        )
    }
}

/// The hash input of the proof challenge: `Bm`, `M`, `Z`, `t2`, `t3`
/// and the "Challenge-" tag, each length-prefixed.
pub open spec fn challenge_msg(
    s: CipherSuite,
    b: Seq<u8>,
    m: Seq<u8>,
    z: Seq<u8>,
    t2: Seq<u8>,
    t3: Seq<u8>,
) -> Seq<u8> {
    lp(b) + lp(m) + lp(z) + lp(t2) + lp(t3) + lp(dst(Label::Challenge, s, Mode::Verifiable))
}

/// The proof challenge scalar.
pub open spec fn spec_challenge(
    s: CipherSuite,
    b: Seq<u8>,
    m: Seq<u8>,
    z: Seq<u8>,
    t2: Seq<u8>,
    t3: Seq<u8>,
) -> Seq<u8> {
    spec_hash_to_scalar(
        s,
        challenge_msg(s, b, m, z, t2, t3),
        dst(Label::HashToScalar, s, Mode::Verifiable),
    )
}

/// The element the client verifies against: `u = g * m + pk`, binding
/// the metadata scalar and the server public key.
pub open spec fn spec_u(s: CipherSuite, pk: Seq<u8>, info: Seq<u8>) -> Seq<u8> {
    crate::group::model::elem_add(
        s,
        crate::group::model::elem_mul(s, base_enc(s), spec_m_scalar(s, Mode::Verifiable, info)),
        pk,
    )
}

/// Whether a proof passes verification against generator `a`, target
/// `b`, and the composite of the pairs `(cs, ds)`: the recomputed
/// challenge equals the proof's challenge scalar.
pub open spec fn proof_checks(
    s: CipherSuite,
    a: Seq<u8>,
    b: Seq<u8>,
    cs: Seq<Seq<u8>>,
    ds: Seq<Seq<u8>>,
    c_sc: Seq<u8>,
    s_sc: Seq<u8>,
) -> bool {
    let m = spec_comp_m(s, b, cs, ds, cs.len());
    let z = spec_comp_z(s, b, cs, ds, cs.len());
    let t2 = crate::group::model::elem_add(
        s,
        crate::group::model::elem_mul(s, a, s_sc),
        crate::group::model::elem_mul(s, b, c_sc),
    );
    let t3 = crate::group::model::elem_add(
        s,
        crate::group::model::elem_mul(s, m, s_sc),
        crate::group::model::elem_mul(s, z, c_sc),
    );
    c_sc == spec_challenge(s, b, m, z, t2, t3)
}

/// What `generate_proof` promises of the proof it returns: there is a
/// nonce scalar `r` such that the challenge hashes the transcript of
/// `t2 = a * r`, `t3 = M * r`, and the response is `s = r - c * k`,
/// where `M` is the composite of the pairs and `Z = M * k`.
pub open spec fn generated_proof_ok(
    s: CipherSuite,
    a: Seq<u8>,
    b: Seq<u8>,
    cs: Seq<Seq<u8>>,
    ds: Seq<Seq<u8>>,
    k: Seq<u8>,
    c_sc: Seq<u8>,
    s_sc: Seq<u8>,
) -> bool {
    let m = spec_comp_m(s, b, cs, ds, cs.len());
    let z = crate::group::model::elem_mul(s, m, k);
    exists|r_enc: Seq<u8>|
        is_scalar(s, r_enc) && c_sc == spec_challenge(
            s,
            b,
            m,
            z,
            #[trigger] crate::group::model::elem_mul(s, a, r_enc),
            crate::group::model::elem_mul(s, m, r_enc),
        ) && s_sc == crate::group::model::scalar_sub(
            s,
            r_enc,
            crate::group::model::scalar_mul(s, c_sc, k),
        )
}

/// Computes the composites `(M, Z)` of a batch of pairs.  With the key
/// (the server side), `Z = M * k`; without it (the client side), `Z`
/// is accumulated from the `D_i`.
#[verifier::loop_isolation(false)]
pub(crate) fn compute_composites(
    s: CipherSuite,
    k_option: Option<&Scalar>,
    b: &Elem,
    cs: &Vec<EvaluationElement>,
    ds: &Vec<BlindedElement>,
) -> (r: Result<(Elem, Elem), Error>)
    requires
        b.wf(),
        b.suite == s,
        match k_option {
            Some(k) => k.wf() && k.suite == s,
            None => true,
        },
        evals_wf(s, cs@),
        blinded_wf(s, ds@),
    ensures
        match r {
            Ok(mz) => cs@.len() == ds@.len() && cs@.len() <= 65535 && mz.0.wf() && mz.0.suite == s
                && mz.1.wf() && mz.1.suite == s && mz.0@ == spec_comp_m(
                s,
                b@,
                eval_views(cs@),
                blinded_views(ds@),
                cs@.len(),
            ) && mz.1@ == (match k_option {
                Some(k) => crate::group::model::elem_mul(s, mz.0@, k@),
                None => spec_comp_z(s, b@, eval_views(cs@), blinded_views(ds@), cs@.len()),
            }),
            Err(er) => er == Error::Batch && !(cs@.len() == ds@.len() && cs@.len() <= 65535),
        },
{
    if cs.len() != ds.len() || cs.len() > 65535 {
        return Err(Error::Batch);
    }
    let ghost cvs: Seq<Seq<u8>> = eval_views(cs@);
    let ghost dvs: Seq<Seq<u8>> = blinded_views(ds@);

    let seed_dst = make_dst(Label::Seed, s, Mode::Verifiable);
    let composite_dst = make_dst(Label::Composite, s, Mode::Verifiable);
    let h2s_tag = make_dst(Label::HashToScalar, s, Mode::Verifiable);
    assert(h2c_ok(s, h2s_tag@)) by {
        match s {
            CipherSuite::Ristretto255Sha512 => {}
            CipherSuite::P256Sha256 => {}
        }
    }

    let mut seed_in: Vec<u8> = Vec::new();
    push_lp(&mut seed_in, &b.bytes);
    push_lp(&mut seed_in, &seed_dst);
    assert(seed_in@ =~= seed_msg(s, b@));
    let seed = hash(s, &seed_in);

    let mut m = identity_elem(s);
    let mut z = identity_elem(s);
    let n = cs.len();
    let mut i: usize = 0;
    while i < n
        invariant
            i <= n,
            m.wf(),
            m.suite == s,
            z.wf(),
            z.suite == s,
            m@ == spec_comp_m(s, b@, cvs, dvs, i as nat),
            match k_option {
                Some(_) => z@ == identity_enc(s),
                None => z@ == spec_comp_z(s, b@, cvs, dvs, i as nat),
            },
        decreases n - i,
    {
        let ci = &cs[i].value;
        let di_el = &ds[i].value;
        let mut h2_in: Vec<u8> = Vec::new();
        push_lp(&mut h2_in, &seed);
        push_i2osp2(&mut h2_in, i as u16);
        push_lp(&mut h2_in, &ci.bytes);
        push_lp(&mut h2_in, &di_el.bytes);
        push_lp(&mut h2_in, &composite_dst);
        assert(h2_in@ =~= composite_msg(s, b@, i as nat, ci@, di_el@));
        let di = match hash_to_scalar(s, &h2_in, &h2s_tag) {
            Ok(k) => k,
            Err(_) => vstd::pervasive::unreached(),
        };
        assert(di@ == spec_di(s, b@, i as nat, cvs[i as int], dvs[i as int]));
        m = elem_add(&m, &elem_mul(ci, &di));
        match k_option {
            Some(_) => {}
            None => {
                z = elem_add(&z, &elem_mul(di_el, &di));
            }
        }
        i = i + 1;
        assert(m@ == spec_comp_m(s, b@, cvs, dvs, i as nat));
    }
    match k_option {
        Some(k) => {
            z = elem_mul(&m, k);
        }
        None => {}
    }
    Ok((m, z))
}

/// Generates the batched DLEQ proof over the pairs `(cs, ds)` with the
/// key `k`, against generator `a` and target `b`.
pub(crate) fn generate_proof<R: EntropySource>(
    s: CipherSuite,
    rng: &mut R,
    k: &Scalar,
    a: &Elem,
    b: &Elem,
    cs: &Vec<EvaluationElement>,
    ds: &Vec<BlindedElement>,
) -> (r: Result<Proof, Error>)
    requires
        k.wf(),
        k.suite == s,
        a.wf(),
        a.suite == s,
        b.wf(),
        b.suite == s,
        evals_wf(s, cs@),
        blinded_wf(s, ds@),
    ensures
        match r {
            Ok(p) => cs@.len() == ds@.len() && cs@.len() <= 65535 && p.c_scalar.wf()
                && p.c_scalar.suite == s && p.s_scalar.wf() && p.s_scalar.suite == s
                && generated_proof_ok(
                s,
                a@,
                b@,
                eval_views(cs@),
                blinded_views(ds@),
                k@,
                p.c_scalar@,
                p.s_scalar@,
            ),
            Err(er) => (er == Error::Batch && !(cs@.len() == ds@.len() && cs@.len() <= 65535)) || (
            er == Error::PointError && cs@.len() == ds@.len() && cs@.len() <= 65535),
        },
{
    let mz = match compute_composites(s, Some(k), b, cs, ds) {
        Ok(mz) => mz,
        Err(er) => {
            return Err(er);
        }
    };
    let (m, z) = mz;
    let r_scalar = match random_nonzero_scalar(s, rng) {
        Ok(r_scalar) => r_scalar,
        Err(er) => {
            return Err(er);
        }
    };
    let t2 = elem_mul(a, &r_scalar);
    let t3 = elem_mul(&m, &r_scalar);

    let challenge_dst = make_dst(Label::Challenge, s, Mode::Verifiable);
    let h2s_tag = make_dst(Label::HashToScalar, s, Mode::Verifiable);
    assert(h2c_ok(s, h2s_tag@)) by {
        match s {
            CipherSuite::Ristretto255Sha512 => {}
            CipherSuite::P256Sha256 => {}
        }
    }
    let mut h2_in: Vec<u8> = Vec::new();
    push_lp(&mut h2_in, &b.bytes);
    push_lp(&mut h2_in, &m.bytes);
    push_lp(&mut h2_in, &z.bytes);
    push_lp(&mut h2_in, &t2.bytes);
    push_lp(&mut h2_in, &t3.bytes);
    push_lp(&mut h2_in, &challenge_dst);
    assert(h2_in@ =~= challenge_msg(s, b@, m@, z@, t2@, t3@));
    let c_scalar = match hash_to_scalar(s, &h2_in, &h2s_tag) {
        Ok(c) => c,
        Err(_) => vstd::pervasive::unreached(),
    };
    let s_scalar = scalar_sub(&r_scalar, &scalar_mul(&c_scalar, k));
    proof {
        let ghost w = r_scalar@;
        assert(is_scalar(s, w) && c_scalar@ == spec_challenge(
            s,
            b@,
            spec_comp_m(s, b@, eval_views(cs@), blinded_views(ds@), eval_views(cs@).len()),
            crate::group::model::elem_mul(
                s,
                spec_comp_m(s, b@, eval_views(cs@), blinded_views(ds@), eval_views(cs@).len()),
                k@,
            ),
            crate::group::model::elem_mul(s, a@, w),
            crate::group::model::elem_mul(
                s,
                spec_comp_m(s, b@, eval_views(cs@), blinded_views(ds@), eval_views(cs@).len()),
                w,
            ),
        ) && s_scalar@ == crate::group::model::scalar_sub(
            s,
            w,
            crate::group::model::scalar_mul(s, c_scalar@, k@),
        ));
    }
    Ok(Proof { c_scalar, s_scalar })
}

/// Verifies a batched DLEQ proof over the pairs `(cs, ds)` against
/// generator `a` and target `b`: recomputes the composites and the
/// challenge and compares in constant time.
pub(crate) fn verify_proof(
    s: CipherSuite,
    a: &Elem,
    b: &Elem,
    cs: &Vec<EvaluationElement>,
    ds: &Vec<BlindedElement>,
    proof: &Proof,
) -> (r: Result<(), Error>)
    requires
        a.wf(),
        a.suite == s,
        b.wf(),
        b.suite == s,
        evals_wf(s, cs@),
        blinded_wf(s, ds@),
        proof.c_scalar.wf(),
        proof.c_scalar.suite == s,
        proof.s_scalar.wf(),
        proof.s_scalar.suite == s,
    ensures
        match r {
            Ok(u) => cs@.len() == ds@.len() && cs@.len() <= 65535 && proof_checks(
                s,
                a@,
                b@,
                eval_views(cs@),
                blinded_views(ds@),
                proof.c_scalar@,
                proof.s_scalar@,
            ),
            Err(er) => (er == Error::Batch && !(cs@.len() == ds@.len() && cs@.len() <= 65535)) || (
            er == Error::ProofVerification && cs@.len() == ds@.len() && cs@.len() <= 65535
                && !proof_checks(
                s,
                a@,
                b@,
                eval_views(cs@),
                blinded_views(ds@),
                proof.c_scalar@,
                proof.s_scalar@,
            )),
        },
{
    let mz = match compute_composites(s, None, b, cs, ds) {
        Ok(mz) => mz,
        Err(er) => {
            return Err(er);
        }
    };
    let (m, z) = mz;
    let t2 = elem_add(&elem_mul(a, &proof.s_scalar), &elem_mul(b, &proof.c_scalar));
    let t3 = elem_add(&elem_mul(&m, &proof.s_scalar), &elem_mul(&z, &proof.c_scalar));

    let challenge_dst = make_dst(Label::Challenge, s, Mode::Verifiable);
    let h2s_tag = make_dst(Label::HashToScalar, s, Mode::Verifiable);
    assert(h2c_ok(s, h2s_tag@)) by {
        match s {
            CipherSuite::Ristretto255Sha512 => {}
            CipherSuite::P256Sha256 => {}
        }
    }
    let mut h2_in: Vec<u8> = Vec::new();
    push_lp(&mut h2_in, &b.bytes);
    push_lp(&mut h2_in, &m.bytes);
    push_lp(&mut h2_in, &z.bytes);
    push_lp(&mut h2_in, &t2.bytes);
    push_lp(&mut h2_in, &t3.bytes);
    push_lp(&mut h2_in, &challenge_dst);
    assert(h2_in@ =~= challenge_msg(s, b@, m@, z@, t2@, t3@));
    let c = match hash_to_scalar(s, &h2_in, &h2s_tag) {
        Ok(c) => c,
        Err(_) => vstd::pervasive::unreached(),
    };
    if crate::group::backend::ct_eq(&c.bytes, &proof.c_scalar.bytes) {
        Ok(())
    } else {
        Err(Error::ProofVerification)
    }
}


// ------------------------------------------------------------------
// The verifiable flow.
// ------------------------------------------------------------------

impl VerifiableClient {
    /// The suite the client runs.
    pub open spec fn suite(self) -> CipherSuite {
        self.blind.suite
    }

    /// Well-formed: the blinding factor is canonical and the retained
    /// blinded element is a valid encoding of the same suite.
    pub open spec fn wf(self) -> bool {
        self.blind.wf() && self.blinded_element.wf() && self.blinded_element.suite
            == self.blind.suite
    }

    /// Blinds an input with a fresh random blinding factor; the state
    /// retains the blinded element for proof verification.
    pub fn blind<R: EntropySource>(s: CipherSuite, input: &Vec<u8>, rng: &mut R) -> (r: Result<
        VerifiableClientBlindResult,
        Error,
    >)
        ensures
            match r {
                Ok(res) => valid_input(input@) && res.state.wf() && res.state.suite() == s
                    && res.state.blind@ != zero_scalar_enc(s) && res.state.blinded_element@
                    == spec_blinded(s, Mode::Verifiable, input@, res.state.blind@)
                    && res.message.wf() && res.message.suite() == s && res.message.value@
                    == res.state.blinded_element@,
                Err(er) => (er == Error::Input && !valid_input(input@)) || (er
                    == Error::PointError && valid_input(input@)),
            },
    {
        match blind_inner(s, input, rng, Mode::Verifiable) {
            Ok((blind, e)) => {
                let retained = e.copy();
                Ok(
                    VerifiableClientBlindResult {
                        state: VerifiableClient { blind, blinded_element: retained },
                        message: BlindedElement { value: e },
                    },
                )
            }
            Err(er) => Err(er),
        }
    }

    /// Blinds an input with a caller-supplied blinding factor instead
    /// of sampling one; the factor is not checked for being nonzero.
    pub fn deterministic_blind_unchecked(s: CipherSuite, input: &Vec<u8>, blind: Scalar) -> (r:
        Result<VerifiableClientBlindResult, Error>)
        requires
            blind.wf(),
            blind.suite == s,
        ensures
            match r {
                Ok(res) => valid_input(input@) && res.state.wf() && res.state.suite() == s
                    && res.state.blind == blind && res.state.blinded_element@ == spec_blinded(
                    s,
                    Mode::Verifiable,
                    input@,
                    blind@,
                ) && res.message.wf() && res.message.suite() == s && res.message.value@
                    == res.state.blinded_element@,
                Err(er) => !valid_input(input@) && er == Error::Input,
            },
    {
        match deterministic_blind_unchecked_inner(s, input, &blind, Mode::Verifiable) {
            Ok(e) => {
                let retained = e.copy();
                Ok(
                    VerifiableClientBlindResult {
                        state: VerifiableClient { blind, blinded_element: retained },
                        message: BlindedElement { value: e },
                    },
                )
            }
            Err(er) => Err(er),
        }
    }

    /// Verifies the server's proof, unblinds the evaluation, and
    /// hashes the transcript into the PRF output.
    pub fn finalize(
        &self,
        input: &Vec<u8>,
        evaluation_element: &EvaluationElement,
        proof: &Proof,
        pk: &Elem,
        metadata: Option<&Vec<u8>>,
    ) -> (r: Result<Vec<u8>, Error>)
        requires
            self.wf(),
            evaluation_element.wf(),
            evaluation_element.suite() == self.suite(),
            pk.wf(),
            pk.suite == self.suite(),
            proof.c_scalar.wf(),
            proof.c_scalar.suite == self.suite(),
            proof.s_scalar.wf(),
            proof.s_scalar.suite == self.suite(),
        ensures
            match r {
                Ok(out) => valid_info(spec_info(metadata)) && proof_checks(
                    self.suite(),
                    base_enc(self.suite()),
                    spec_u(self.suite(), pk@, spec_info(metadata)),
                    seq![evaluation_element.value@],
                    seq![self.blinded_element@],
                    proof.c_scalar@,
                    proof.s_scalar@,
                ) && valid_input(input@) && out@ == client_output(
                    self.suite(),
                    Mode::Verifiable,
                    input@,
                    spec_info(metadata),
                    evaluation_element.value@,
                    self.blind@,
                ),
                Err(er) => (er == Error::Metadata && !valid_info(spec_info(metadata))) || (er
                    == Error::ProofVerification && valid_info(spec_info(metadata)) && !proof_checks(
                    self.suite(),
                    base_enc(self.suite()),
                    spec_u(self.suite(), pk@, spec_info(metadata)),
                    seq![evaluation_element.value@],
                    seq![self.blinded_element@],
                    proof.c_scalar@,
                    proof.s_scalar@,
                )) || (er == Error::Input && valid_info(spec_info(metadata)) && proof_checks(
                    self.suite(),
                    base_enc(self.suite()),
                    spec_u(self.suite(), pk@, spec_info(metadata)),
                    seq![evaluation_element.value@],
                    seq![self.blinded_element@],
                    proof.c_scalar@,
                    proof.s_scalar@,
                ) && !valid_input(input@)),
            },
    {
        let s = self.blind.suite;
        let mut inputs: Vec<Vec<u8>> = Vec::new();
        inputs.push(vstd::slice::slice_to_vec(input.as_slice()));
        let mut clients: Vec<VerifiableClient> = Vec::new();
        clients.push(
            VerifiableClient {
                blind: self.blind.copy(),
                blinded_element: self.blinded_element.copy(),
            },
        );
        let mut messages: Vec<EvaluationElement> = Vec::new();
        messages.push(evaluation_element.copy());
        assert(eval_views(messages@) =~= seq![evaluation_element.value@]);
        assert(client_blinded_views(clients@) =~= seq![self.blinded_element@]);
        match Self::batch_finalize(&inputs, &clients, &messages, proof, pk, metadata) {
            Ok(outs) => {
                assert(valid_input(inputs@[0]@));
                assert(outs@[0]@ == spec_finalize_output(
                    s,
                    Mode::Verifiable,
                    inputs@[0]@,
                    spec_info(metadata),
                    spec_unblind(s, messages@[0].value@, clients@[0].blind@),
                ));
                assert(inputs@[0]@ == input@);
                assert(messages@[0].value@ == evaluation_element.value@);
                assert(clients@[0].blind@ == self.blind@);
                let mut outs = outs;
                match outs.pop() {
                    Some(out) => Ok(out),
                    None => vstd::pervasive::unreached(),
                }
            }
            Err(er) => Err(er),
        }
    }

    /// Verifies one proof over a whole batch, unblinds every
    /// evaluation, and hashes each transcript into its PRF output.
    pub fn batch_finalize(
        inputs: &Vec<Vec<u8>>,
        clients: &Vec<VerifiableClient>,
        messages: &Vec<EvaluationElement>,
        proof: &Proof,
        pk: &Elem,
        metadata: Option<&Vec<u8>>,
    ) -> (r: Result<Vec<Vec<u8>>, Error>)
        requires
            pk.wf(),
            clients_wf(pk.suite, clients@),
            evals_wf(pk.suite, messages@),
            proof.c_scalar.wf(),
            proof.c_scalar.suite == pk.suite,
            proof.s_scalar.wf(),
            proof.s_scalar.suite == pk.suite,
        ensures
            match r {
                Ok(outs) => inputs@.len() == clients@.len() && clients@.len() == messages@.len()
                    && clients@.len() <= 65535 && valid_info(spec_info(metadata)) && proof_checks(
                    pk.suite,
                    base_enc(pk.suite),
                    spec_u(pk.suite, pk@, spec_info(metadata)),
                    eval_views(messages@),
                    client_blinded_views(clients@),
                    proof.c_scalar@,
                    proof.s_scalar@,
                ) && (forall|i: int| 0 <= i < inputs@.len() ==> valid_input(#[trigger] inputs@[i]@))
                    && outs@.len() == inputs@.len() && (forall|i: int|
                    0 <= i < outs@.len() ==> (#[trigger] outs@[i])@ == spec_finalize_output(
                        pk.suite,
                        Mode::Verifiable,
                        inputs@[i]@,
                        spec_info(metadata),
                        spec_unblind(pk.suite, messages@[i].value@, clients@[i].blind@),
                    )),
                Err(er) => (er == Error::Batch && !(inputs@.len() == clients@.len() && clients@.len()
                    == messages@.len() && clients@.len() <= 65535)) || (er == Error::Metadata && inputs@.len() == clients@.len() && clients@.len()
                    == messages@.len() && clients@.len() <= 65535 && !valid_info(
                    spec_info(metadata),
                )) || (er == Error::ProofVerification && inputs@.len() == clients@.len() && clients@.len()
                    == messages@.len() && clients@.len() <= 65535 && valid_info(spec_info(metadata)) && !proof_checks(
                    pk.suite,
                    base_enc(pk.suite),
                    spec_u(pk.suite, pk@, spec_info(metadata)),
                    eval_views(messages@),
                    client_blinded_views(clients@),
                    proof.c_scalar@,
                    proof.s_scalar@,
                )) || (er == Error::Input && inputs@.len() == clients@.len() && clients@.len()
                    == messages@.len() && clients@.len() <= 65535 && valid_info(spec_info(metadata)) && proof_checks(
                    pk.suite,
                    base_enc(pk.suite),
                    spec_u(pk.suite, pk@, spec_info(metadata)),
                    eval_views(messages@),
                    client_blinded_views(clients@),
                    proof.c_scalar@,
                    proof.s_scalar@,
                ) && !(forall|i: int|
                    0 <= i < inputs@.len() ==> valid_input(#[trigger] inputs@[i]@))),
            },
    {
        let s = pk.suite;
        if inputs.len() != clients.len() || clients.len() != messages.len() || clients.len()
            > 65535 {
            return Err(Error::Batch);
        }
        let empty: Vec<u8> = Vec::new();
        let info: &Vec<u8> = match metadata {
            Some(v) => v,
            None => &empty,
        };
        let unblinded = match verifiable_unblind(s, clients, messages, pk, proof, info) {
            Ok(u) => u,
            Err(er) => {
                return Err(er);
            }
        };
        match finalize_after_unblind(s, Mode::Verifiable, inputs, &unblinded, info) {
            Ok(outs) => Ok(outs),
            Err(er) => Err(er),
        }
    }

    /// Rebuilds a client from a raw blinding factor and blinded
    /// element.
    pub fn from_blind_and_element(blind: Scalar, blinded_element: Elem) -> (r: VerifiableClient)
        ensures
            r.blind == blind,
            r.blinded_element == blinded_element,
    {
        VerifiableClient { blind, blinded_element }
    }

    /// The blinding factor.
    pub fn get_blind(&self) -> (r: Scalar)
        ensures
            r.suite == self.blind.suite,
            r@ == self.blind@,
    {
        self.blind.copy()
    }
}

/// Recomputes the metadata binding `u = g * m + pk`, verifies the
/// proof over the batch, and unblinds each evaluated element.
#[verifier::loop_isolation(false)]
pub(crate) fn verifiable_unblind(
    s: CipherSuite,
    clients: &Vec<VerifiableClient>,
    messages: &Vec<EvaluationElement>,
    pk: &Elem,
    proof: &Proof,
    info: &Vec<u8>,
) -> (r: Result<Vec<Elem>, Error>)
    requires
        pk.wf(),
        pk.suite == s,
        clients_wf(s, clients@),
        evals_wf(s, messages@),
        proof.c_scalar.wf(),
        proof.c_scalar.suite == s,
        proof.s_scalar.wf(),
        proof.s_scalar.suite == s,
    ensures
        match r {
            Ok(outs) => valid_info(info@) && clients@.len() == messages@.len() && clients@.len()
                <= 65535 && proof_checks(
                s,
                base_enc(s),
                spec_u(s, pk@, info@),
                eval_views(messages@),
                client_blinded_views(clients@),
                proof.c_scalar@,
                proof.s_scalar@,
            ) && outs@.len() == clients@.len() && (forall|i: int|
                0 <= i < outs@.len() ==> (#[trigger] outs@[i]).wf() && outs@[i].suite == s
                    && outs@[i]@ == spec_unblind(s, messages@[i].value@, clients@[i].blind@)),
            Err(er) => (er == Error::Metadata && !valid_info(info@)) || (er == Error::Batch
                && valid_info(info@) && !(clients@.len() == messages@.len() && clients@.len()
                <= 65535)) || (er == Error::ProofVerification && valid_info(info@)
                && clients@.len() == messages@.len() && clients@.len() <= 65535 && !proof_checks(
                s,
                base_enc(s),
                spec_u(s, pk@, info@),
                eval_views(messages@),
                client_blinded_views(clients@),
                proof.c_scalar@,
                proof.s_scalar@,
            )),
        },
{
    if info.len() > 65535 - 21 {
        return Err(Error::Metadata);
    }
    let m = derive_m_scalar(s, Mode::Verifiable, info);
    let g = base_elem(s);
    let t = elem_mul(&g, &m);
    let u = elem_add(&t, pk);

    let n = clients.len();
    let mut ds: Vec<BlindedElement> = Vec::new();
    let mut i: usize = 0;
    while i < n
        invariant
            i <= n,
            ds@.len() == i,
            forall|j: int|
                0 <= j < i ==> (#[trigger] ds@[j]).wf() && ds@[j].suite() == s && ds@[j].value@
                    == clients@[j].blinded_element@,
        decreases n - i,
    {
        ds.push(BlindedElement { value: clients[i].blinded_element.copy() });
        i = i + 1;
    }
    assert(blinded_views(ds@) =~= client_blinded_views(clients@));

    match verify_proof(s, &g, &u, messages, &ds, proof) {
        Ok(_) => {}
        Err(er) => {
            return Err(er);
        }
    }

    let mut outs: Vec<Elem> = Vec::new();
    let mut j: usize = 0;
    while j < n
        invariant
            j <= n,
            n == clients@.len(),
            outs@.len() == j,
            forall|i2: int|
                0 <= i2 < j ==> (#[trigger] outs@[i2]).wf() && outs@[i2].suite == s && outs@[i2]@
                    == spec_unblind(s, messages@[i2].value@, clients@[i2].blind@),
        decreases n - j,
    {
        outs.push(elem_mul(&messages[j].value, &invert_scalar(&clients[j].blind)));
        j = j + 1;
    }
    Ok(outs)
}

impl VerifiableServer {
    /// The suite the server runs.
    pub open spec fn suite(self) -> CipherSuite {
        self.sk.suite
    }

    /// Well-formed: the secret key is canonical and the public key is
    /// a valid element of the same suite.
    pub open spec fn wf(self) -> bool {
        self.sk.wf() && self.pk.wf() && self.pk.suite == self.sk.suite
    }

    /// Creates a server with a random key derived from fresh entropy.
    pub fn new<R: EntropySource>(s: CipherSuite, rng: &mut R) -> (r: VerifiableServer)
        ensures
            r.wf(),
            r.suite() == s,
            r.pk@ == crate::group::model::elem_mul(s, base_enc(s), r.sk@),
    {
        let seed = rng.fill(s.hash_len());
        match Self::new_from_seed(s, &seed) {
            Ok(server) => server,
            Err(_) => vstd::pervasive::unreached(),
        }
    }

    /// Creates a server from raw secret-key bytes, rejecting
    /// non-canonical and zero encodings; the public key is `g * sk`.
    pub fn new_with_key(s: CipherSuite, key: &Vec<u8>) -> (r: Result<VerifiableServer, Error>)
        ensures
            match r {
                Ok(server) => scalar_decodable(s, key@) && server.wf() && server.suite() == s
                    && server.sk@ == key@ && server.pk@ == crate::group::model::elem_mul(
                    s,
                    base_enc(s),
                    key@,
                ),
                Err(er) => !scalar_decodable(s, key@) && er == Error::Deserialization,
            },
    {
        match deserialize_scalar(s, key) {
            Ok(sk) => {
                let pk = elem_mul(&base_elem(s), &sk);
                Ok(VerifiableServer { sk, pk })
            }
            Err(er) => Err(er),
        }
    }

    /// Derives a server key pair from a seed ("DeriveKeyPair").
    pub fn new_from_seed(s: CipherSuite, seed: &Vec<u8>) -> (r: Result<VerifiableServer, Error>)
        ensures
            match r {
                Ok(server) => valid_seed(seed@) && server.wf() && server.suite() == s && server.sk@
                    == spec_hash_to_scalar(s, seed@, dst(Label::DeriveKeyPair, s, Mode::Verifiable))
                    && server.pk@ == crate::group::model::elem_mul(s, base_enc(s), server.sk@),
                Err(er) => !valid_seed(seed@) && er == Error::Seed,
            },
    {
        match derive_key(s, seed, Mode::Verifiable) {
            Ok(sk) => {
                let pk = elem_mul(&base_elem(s), &sk);
                Ok(VerifiableServer { sk, pk })
            }
            Err(er) => Err(er),
        }
    }

    /// The secret key.
    pub fn get_private_key(&self) -> (r: Scalar)
        ensures
            r.suite == self.sk.suite,
            r@ == self.sk@,
    {
        self.sk.copy()
    }

    /// The public key.
    pub fn get_public_key(&self) -> (r: Elem)
        ensures
            r.suite == self.pk.suite,
            r@ == self.pk@,
    {
        self.pk.copy()
    }

    /// Evaluates one blinded element and proves the evaluation: the
    /// batched flow over a single pair.
    pub fn evaluate<R: EntropySource>(
        &self,
        rng: &mut R,
        blinded_element: &BlindedElement,
        metadata: Option<&Vec<u8>>,
    ) -> (r: Result<VerifiableServerEvaluateResult, Error>)
        requires
            self.wf(),
            blinded_element.wf(),
            blinded_element.suite() == self.suite(),
        ensures
            match r {
                Ok(res) => valid_info(spec_info(metadata)) && spec_t_scalar(
                    self.suite(),
                    Mode::Verifiable,
                    self.sk@,
                    spec_info(metadata),
                ) != zero_scalar_enc(self.suite()) && res.message.wf() && res.message.suite()
                    == self.suite() && res.message.value@ == spec_eval(
                    self.suite(),
                    Mode::Verifiable,
                    blinded_element.value@,
                    self.sk@,
                    spec_info(metadata),
                ) && res.proof.c_scalar.wf() && res.proof.c_scalar.suite == self.suite()
                    && res.proof.s_scalar.wf() && res.proof.s_scalar.suite == self.suite()
                    && generated_proof_ok(
                    self.suite(),
                    base_enc(self.suite()),
                    crate::group::model::elem_mul(
                        self.suite(),
                        base_enc(self.suite()),
                        spec_t_scalar(self.suite(), Mode::Verifiable, self.sk@, spec_info(metadata)),
                    ),
                    seq![res.message.value@],
                    seq![blinded_element.value@],
                    spec_t_scalar(self.suite(), Mode::Verifiable, self.sk@, spec_info(metadata)),
                    res.proof.c_scalar@,
                    res.proof.s_scalar@,
                ),
                Err(er) => (er == Error::Metadata && (!valid_info(spec_info(metadata))
                    || spec_t_scalar(self.suite(), Mode::Verifiable, self.sk@, spec_info(metadata))
                    == zero_scalar_enc(self.suite()))) || (er == Error::PointError && valid_info(
                    spec_info(metadata),
                ) && spec_t_scalar(self.suite(), Mode::Verifiable, self.sk@, spec_info(metadata))
                    != zero_scalar_enc(self.suite())),
            },
    {
        let s = self.sk.suite;
        let mut blinded: Vec<BlindedElement> = Vec::new();
        blinded.push(blinded_element.copy());
        let prep = match self.batch_evaluate_prepare(&blinded, metadata) {
            Ok(prep) => prep,
            Err(er) => {
                return Err(er);
            }
        };
        let finish = match Self::batch_evaluate_finish(
            rng,
            &blinded,
            &prep.prepared_evaluation_elements,
            &prep.t,
        ) {
            Ok(f) => f,
            Err(er) => {
                assert(er == Error::PointError);
                return Err(er);
            }
        };
        assert(prepared_views(prep.prepared_evaluation_elements@) =~= seq![
            spec_eval(s, Mode::Verifiable, blinded_element.value@, self.sk@, spec_info(metadata)),
        ]);
        assert(blinded_views(blinded@) =~= seq![blinded_element.value@]);
        let mut messages = finish.messages;
        let message = match messages.pop() {
            Some(msg) => msg,
            None => vstd::pervasive::unreached(),
        };
        assert(seq![message.value@] =~= prepared_views(prep.prepared_evaluation_elements@));
        Ok(VerifiableServerEvaluateResult { message, proof: finish.proof })
    }

    /// Evaluates a whole batch under one proof.
    pub fn batch_evaluate<R: EntropySource>(
        &self,
        rng: &mut R,
        blinded_elements: &Vec<BlindedElement>,
        metadata: Option<&Vec<u8>>,
    ) -> (r: Result<VerifiableServerBatchEvaluateResult, Error>)
        requires
            self.wf(),
            blinded_wf(self.suite(), blinded_elements@),
        ensures
            match r {
                Ok(res) => valid_info(spec_info(metadata)) && spec_t_scalar(
                    self.suite(),
                    Mode::Verifiable,
                    self.sk@,
                    spec_info(metadata),
                ) != zero_scalar_enc(self.suite()) && blinded_elements@.len() <= 65535
                    && res.messages@.len() == blinded_elements@.len() && (forall|i: int|
                    0 <= i < res.messages@.len() ==> (#[trigger] res.messages@[i]).wf()
                        && res.messages@[i].suite() == self.suite() && res.messages@[i].value@
                        == spec_eval(
                        self.suite(),
                        Mode::Verifiable,
                        blinded_elements@[i].value@,
                        self.sk@,
                        spec_info(metadata),
                    )) && res.proof.c_scalar.wf() && res.proof.c_scalar.suite == self.suite()
                    && res.proof.s_scalar.wf() && res.proof.s_scalar.suite == self.suite()
                    && generated_proof_ok(
                    self.suite(),
                    base_enc(self.suite()),
                    crate::group::model::elem_mul(
                        self.suite(),
                        base_enc(self.suite()),
                        spec_t_scalar(self.suite(), Mode::Verifiable, self.sk@, spec_info(metadata)),
                    ),
                    eval_views(res.messages@),
                    blinded_views(blinded_elements@),
                    spec_t_scalar(self.suite(), Mode::Verifiable, self.sk@, spec_info(metadata)),
                    res.proof.c_scalar@,
                    res.proof.s_scalar@,
                ),
                Err(er) => (er == Error::Metadata && (!valid_info(spec_info(metadata))
                    || spec_t_scalar(self.suite(), Mode::Verifiable, self.sk@, spec_info(metadata))
                    == zero_scalar_enc(self.suite()))) || (er == Error::Batch
                    && blinded_elements@.len() > 65535) || (er == Error::PointError && valid_info(
                    spec_info(metadata),
                ) && spec_t_scalar(self.suite(), Mode::Verifiable, self.sk@, spec_info(metadata))
                    != zero_scalar_enc(self.suite()) && blinded_elements@.len() <= 65535),
            },
    {
        let prep = match self.batch_evaluate_prepare(blinded_elements, metadata) {
            Ok(prep) => prep,
            Err(er) => {
                return Err(er);
            }
        };
        let finish = match Self::batch_evaluate_finish(
            rng,
            blinded_elements,
            &prep.prepared_evaluation_elements,
            &prep.t,
        ) {
            Ok(f) => f,
            Err(er) => {
                return Err(er);
            }
        };
        assert(eval_views(finish.messages@) =~= prepared_views(
            prep.prepared_evaluation_elements@,
        ));
        Ok(VerifiableServerBatchEvaluateResult { messages: finish.messages, proof: finish.proof })
    }

    /// The first phase of a batched evaluation: derives the evaluation
    /// scalar once and multiplies every blinded element by its
    /// inverse.
    #[verifier::loop_isolation(false)]
    pub fn batch_evaluate_prepare(
        &self,
        blinded_elements: &Vec<BlindedElement>,
        metadata: Option<&Vec<u8>>,
    ) -> (r: Result<VerifiableServerBatchEvaluatePrepareResult, Error>)
        requires
            self.wf(),
            blinded_wf(self.suite(), blinded_elements@),
        ensures
            match r {
                Ok(res) => valid_info(spec_info(metadata)) && spec_t_scalar(
                    self.suite(),
                    Mode::Verifiable,
                    self.sk@,
                    spec_info(metadata),
                ) != zero_scalar_enc(self.suite()) && res.t.0.wf() && res.t.0.suite == self.suite()
                    && res.t.0@ == spec_t_scalar(
                    self.suite(),
                    Mode::Verifiable,
                    self.sk@,
                    spec_info(metadata),
                ) && res.prepared_evaluation_elements@.len() == blinded_elements@.len() && (forall|
                    i: int,
                |
                    0 <= i < blinded_elements@.len() ==> (
                    #[trigger] res.prepared_evaluation_elements@[i]).0.wf()
                        && res.prepared_evaluation_elements@[i].0.suite() == self.suite()
                        && res.prepared_evaluation_elements@[i].0.value@ == spec_eval(
                        self.suite(),
                        Mode::Verifiable,
                        blinded_elements@[i].value@,
                        self.sk@,
                        spec_info(metadata),
                    )),
                Err(er) => er == Error::Metadata && (!valid_info(spec_info(metadata))
                    || spec_t_scalar(self.suite(), Mode::Verifiable, self.sk@, spec_info(metadata))
                    == zero_scalar_enc(self.suite())),
            },
    {
        let s = self.sk.suite;
        let empty: Vec<u8> = Vec::new();
        let info: &Vec<u8> = match metadata {
            Some(v) => v,
            None => &empty,
        };
        if info.len() > 65535 - 21 {
            return Err(Error::Metadata);
        }
        let m = derive_m_scalar(s, Mode::Verifiable, info);
        let t = scalar_add(&self.sk, &m);
        if is_all_zero(&t.bytes) {
            assert(t@ =~= zero_scalar_enc(s));
            return Err(Error::Metadata);
        }
        assert(t@ != zero_scalar_enc(s)) by {
            if t@ == zero_scalar_enc(s) {
                assert(all_zero(t@));
            }
        }
        let ti = invert_scalar(&t);
        let n = blinded_elements.len();
        let mut prepared: Vec<PreparedEvaluationElement> = Vec::new();
        let mut i: usize = 0;
        while i < n
            invariant
                i <= n,
                prepared@.len() == i,
                forall|j: int|
                    0 <= j < i ==> (#[trigger] prepared@[j]).0.wf() && prepared@[j].0.suite() == s
                        && prepared@[j].0.value@ == spec_eval(
                        s,
                        Mode::Verifiable,
                        blinded_elements@[j].value@,
                        self.sk@,
                        spec_info(metadata),
                    ),
            decreases n - i,
        {
            let z = elem_mul(&blinded_elements[i].value, &ti);
            prepared.push(PreparedEvaluationElement(EvaluationElement { value: z }));
            i = i + 1;
        }
        Ok(
            VerifiableServerBatchEvaluatePrepareResult {
                prepared_evaluation_elements: prepared,
                t: PreparedTscalar(t),
            },
        )
    }

    /// The second phase of a batched evaluation: proves the batch
    /// against `u = g * t` and returns the messages with the proof.
    #[verifier::loop_isolation(false)]
    pub fn batch_evaluate_finish<R: EntropySource>(
        rng: &mut R,
        blinded_elements: &Vec<BlindedElement>,
        evaluation_elements: &Vec<PreparedEvaluationElement>,
        t: &PreparedTscalar,
    ) -> (r: Result<VerifiableServerBatchEvaluateFinishResult, Error>)
        requires
            t.0.wf(),
            blinded_wf(t.0.suite, blinded_elements@),
            prepared_wf(t.0.suite, evaluation_elements@),
        ensures
            match r {
                Ok(res) => blinded_elements@.len() == evaluation_elements@.len()
                    && blinded_elements@.len() <= 65535 && res.messages@.len()
                    == evaluation_elements@.len() && (forall|i: int|
                    0 <= i < res.messages@.len() ==> (#[trigger] res.messages@[i]).wf()
                        && res.messages@[i].suite() == t.0.suite && res.messages@[i].value@
                        == evaluation_elements@[i].0.value@) && res.proof.c_scalar.wf()
                    && res.proof.c_scalar.suite == t.0.suite && res.proof.s_scalar.wf()
                    && res.proof.s_scalar.suite == t.0.suite && generated_proof_ok(
                    t.0.suite,
                    base_enc(t.0.suite),
                    crate::group::model::elem_mul(t.0.suite, base_enc(t.0.suite), t.0@),
                    prepared_views(evaluation_elements@),
                    blinded_views(blinded_elements@),
                    t.0@,
                    res.proof.c_scalar@,
                    res.proof.s_scalar@,
                ),
                Err(er) => (er == Error::Batch && !(blinded_elements@.len()
                    == evaluation_elements@.len() && blinded_elements@.len() <= 65535)) || (er
                    == Error::PointError && blinded_elements@.len() == evaluation_elements@.len()
                    && blinded_elements@.len() <= 65535),
            },
    {
        let s = t.0.suite;
        let g = base_elem(s);
        let u = elem_mul(&g, &t.0);

        let n = evaluation_elements.len();
        let mut cs: Vec<EvaluationElement> = Vec::new();
        let mut i: usize = 0;
        while i < n
            invariant
                i <= n,
                cs@.len() == i,
                forall|j: int|
                    0 <= j < i ==> (#[trigger] cs@[j]).wf() && cs@[j].suite() == s && cs@[j].value@
                        == evaluation_elements@[j].0.value@,
            decreases n - i,
        {
            cs.push(evaluation_elements[i].0.copy());
            i = i + 1;
        }
        assert(eval_views(cs@) =~= prepared_views(evaluation_elements@));

        let proof = match generate_proof(s, rng, &t.0, &g, &u, &cs, blinded_elements) {
            Ok(p) => p,
            Err(er) => {
                return Err(er);
            }
        };
        Ok(VerifiableServerBatchEvaluateFinishResult { messages: cs, proof })
    }
}

// ------------------------------------------------------------------
// Laws.
// ------------------------------------------------------------------

/// DLEQ completeness, reduced to the group: an honestly generated
/// proof over a batch whose composite `Z` equals `M * k` verifies
/// against generator `a` and target `b = a * k`, provided the two
/// verification equations distribute over the nonce --
/// `a*(r - c*k) + (a*k)*c = a*r`, and likewise over `M` -- which is
/// algebra of the underlying group that lives outside this model.
pub proof fn lemma_proof_completeness_reduction(
    s: CipherSuite,
    a: Seq<u8>,
    k: Seq<u8>,
    cs: Seq<Seq<u8>>,
    ds: Seq<Seq<u8>>,
    c_sc: Seq<u8>,
    s_sc: Seq<u8>,
)
    requires
        generated_proof_ok(s, a, crate::group::model::elem_mul(s, a, k), cs, ds, k, c_sc, s_sc),
        spec_comp_z(s, crate::group::model::elem_mul(s, a, k), cs, ds, cs.len())
            == crate::group::model::elem_mul(
            s,
            spec_comp_m(s, crate::group::model::elem_mul(s, a, k), cs, ds, cs.len()),
            k,
        ),
        forall|r_enc: Seq<u8>|
            s_sc == #[trigger] crate::group::model::scalar_sub(
                s,
                r_enc,
                crate::group::model::scalar_mul(s, c_sc, k),
            ) ==> crate::group::model::elem_add(
                s,
                crate::group::model::elem_mul(s, a, s_sc),
                crate::group::model::elem_mul(s, crate::group::model::elem_mul(s, a, k), c_sc),
            ) == crate::group::model::elem_mul(s, a, r_enc)
                && crate::group::model::elem_add(
                s,
                crate::group::model::elem_mul(
                    s,
                    spec_comp_m(s, crate::group::model::elem_mul(s, a, k), cs, ds, cs.len()),
                    s_sc,
                ),
                crate::group::model::elem_mul(
                    s,
                    crate::group::model::elem_mul(
                        s,
                        spec_comp_m(s, crate::group::model::elem_mul(s, a, k), cs, ds, cs.len()),
                        k,
                    ),
                    c_sc,
                ),
            ) == crate::group::model::elem_mul(
                s,
                spec_comp_m(s, crate::group::model::elem_mul(s, a, k), cs, ds, cs.len()),
                r_enc,
            ),
    ensures
        proof_checks(s, a, crate::group::model::elem_mul(s, a, k), cs, ds, c_sc, s_sc),
{
    let b = crate::group::model::elem_mul(s, a, k);
    let m = spec_comp_m(s, b, cs, ds, cs.len());
    let z = crate::group::model::elem_mul(s, m, k);
    let r_enc = choose|r_enc: Seq<u8>|
        is_scalar(s, r_enc) && c_sc == spec_challenge(
            s,
            b,
            m,
            z,
            #[trigger] crate::group::model::elem_mul(s, a, r_enc),
            crate::group::model::elem_mul(s, m, r_enc),
        ) && s_sc == crate::group::model::scalar_sub(
            s,
            r_enc,
            crate::group::model::scalar_mul(s, c_sc, k),
        );
    assert(crate::group::model::elem_add(
        s,
        crate::group::model::elem_mul(s, a, s_sc),
        crate::group::model::elem_mul(s, b, c_sc),
    ) == crate::group::model::elem_mul(s, a, r_enc));
    assert(crate::group::model::elem_add(
        s,
        crate::group::model::elem_mul(s, m, s_sc),
        crate::group::model::elem_mul(s, z, c_sc),
    ) == crate::group::model::elem_mul(s, m, r_enc));
}

/// Batch equivalence: the output that `batch_finalize` is pinned to at
/// any position is exactly the output that a single `finalize` is
/// pinned to on the same input, blinding factor, evaluated element,
/// and metadata.
/// PRF correctness, reduced to the group: a client that blinded `x`
/// with `r` and finalizes the server's evaluation of its blinded
/// element computes exactly the reference PRF, provided multiplying by
/// `r` and then by `r^(-1)` returns a group element to itself -- the
/// blinding-cancellation property of the underlying group, which lives
/// outside this model.
pub proof fn lemma_prf_correctness_reduction(
    s: CipherSuite,
    m: Mode,
    x: Seq<u8>,
    k: Seq<u8>,
    r_blind: Seq<u8>,
    info: Seq<u8>,
)
    requires
        spec_unblind(s, spec_eval(s, m, spec_blinded(s, m, x, r_blind), k, info), r_blind)
            == spec_eval(s, m, spec_input_elem(s, m, x), k, info),
    ensures
        client_output(
            s,
            m,
            x,
            info,
            spec_eval(s, m, spec_blinded(s, m, x, r_blind), k, info),
            r_blind,
        ) == prf_reference(s, m, x, k, info),
{
}

pub proof fn lemma_batch_equivalence(
    s: CipherSuite,
    x: Seq<u8>,
    info: Seq<u8>,
    e: Seq<u8>,
    blind: Seq<u8>,
)
    ensures
        spec_finalize_output(s, Mode::Verifiable, x, info, spec_unblind(s, e, blind))
            == client_output(s, Mode::Verifiable, x, info, e, blind),
{
}

} // verus!
