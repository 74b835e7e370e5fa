//! Cipher suites, protocol modes, and the transcript primitives that
//! every domain-separation string is built from: two-byte big-endian
//! length prefixes (`I2OSP(n, 2)`) and the fixed ASCII labels.

use vstd::prelude::*;
use crate::Error;

verus! {

/// Protocol mode: plain OPRF or verifiable OPRF.
#[derive(Clone, Copy, Debug, PartialEq, Eq, Structural)]
pub enum Mode {
    /// Non-verifiable mode.
    Base,
    /// Verifiable mode.
    Verifiable,
}

/// The byte that stands for a mode inside a context string.
pub open spec fn mode_byte(m: Mode) -> u8 {
    match m {
        Mode::Base => 0,
        Mode::Verifiable => 1,
    }
}

impl Mode {
    /// Mode as it is represented in a context string.
    pub fn to_u8(self) -> (r: u8)
        ensures
            r == mode_byte(self),
    {
        match self {
            Mode::Base => 0,
            Mode::Verifiable => 1,
        }
    }
}

/// A binding of a prime-order group and a hash function.
#[derive(Clone, Copy, Debug, PartialEq, Eq, Structural)]
pub enum CipherSuite {
    /// Ristretto255 group with SHA-512.
    Ristretto255Sha512,
    /// P-256 prime-order subgroup with SHA-256.
    P256Sha256,
}

/// The 16-bit suite identifier.
pub open spec fn suite_id(s: CipherSuite) -> nat {
    match s {
        CipherSuite::Ristretto255Sha512 => 1,
        CipherSuite::P256Sha256 => 3,
    }
}

/// Size of an encoded group element.
pub open spec fn elem_len(s: CipherSuite) -> nat {
    match s {
        CipherSuite::Ristretto255Sha512 => 32,
        CipherSuite::P256Sha256 => 33,
    }
}

/// Size of an encoded scalar.
pub open spec fn scalar_len(s: CipherSuite) -> nat {
    32
}

/// Output size of the suite's hash function.
pub open spec fn hash_len(s: CipherSuite) -> nat {
    match s {
        CipherSuite::Ristretto255Sha512 => 64,
        CipherSuite::P256Sha256 => 32,
    }
}

/// Input block size of the suite's hash function.
pub open spec fn hash_block_len(s: CipherSuite) -> nat {
    match s {
        CipherSuite::Ristretto255Sha512 => 128,
        CipherSuite::P256Sha256 => 64,
    }
}

impl CipherSuite {
    /// Size of an encoded group element, as a machine integer.
    pub fn elem_len(self) -> (r: usize)
        ensures
            r == elem_len(self),
    {
        match self {
            CipherSuite::Ristretto255Sha512 => 32,
            CipherSuite::P256Sha256 => 33,
        }
    }

    /// Size of an encoded scalar, as a machine integer.
    pub fn scalar_len(self) -> (r: usize)
        ensures
            r == scalar_len(self),
    {
        32
    }

    /// Output size of the suite's hash function, as a machine integer.
    pub fn hash_len(self) -> (r: usize)
        ensures
            r == hash_len(self),
    {
        match self {
            CipherSuite::Ristretto255Sha512 => 64,
            CipherSuite::P256Sha256 => 32,
        }
    }

    /// Input block size of the suite's hash function, as a machine
    /// integer.
    pub fn hash_block_len(self) -> (r: usize)
        ensures
            r == hash_block_len(self),
    {
        match self {
            CipherSuite::Ristretto255Sha512 => 128,
            CipherSuite::P256Sha256 => 64,
        }
    }
}

/// A sequence of `n` zero bytes.
pub open spec fn zeroes(n: nat) -> Seq<u8> {
    Seq::new(n, |i: int| 0u8)
}

/// Whether every byte of `b` is zero.
pub open spec fn all_zero(b: Seq<u8>) -> bool {
    forall|i: int| 0 <= i < b.len() ==> b[i] == 0u8
}

/// `I2OSP(n, 2)`: the two-byte big-endian encoding of `n`, for `n` up
/// to 65535.
pub open spec fn i2osp2(n: nat) -> Seq<u8> {
    seq![(((n / 256) % 256) as u8), ((n % 256) as u8)]
}

/// A byte string under its two-byte big-endian length prefix.
pub open spec fn lp(b: Seq<u8>) -> Seq<u8> {
    i2osp2(b.len()) + b
}

/// The ASCII bytes of "VOPRF08-".
pub open spec fn str_voprf() -> Seq<u8> {
    seq![0x56u8, 0x4fu8, 0x50u8, 0x52u8, 0x46u8, 0x30u8, 0x38u8, 0x2du8]
}

/// The ASCII bytes of "Finalize-".
pub open spec fn str_finalize() -> Seq<u8> {
    seq![0x46u8, 0x69u8, 0x6eu8, 0x61u8, 0x6cu8, 0x69u8, 0x7au8, 0x65u8, 0x2du8]
}

/// The ASCII bytes of "Seed-".
pub open spec fn str_seed() -> Seq<u8> {
    seq![0x53u8, 0x65u8, 0x65u8, 0x64u8, 0x2du8]
}

/// The ASCII bytes of "Context-".
pub open spec fn str_context() -> Seq<u8> {
    seq![0x43u8, 0x6fu8, 0x6eu8, 0x74u8, 0x65u8, 0x78u8, 0x74u8, 0x2du8]
}

/// The ASCII bytes of "Composite-".
pub open spec fn str_composite() -> Seq<u8> {
    seq![0x43u8, 0x6fu8, 0x6du8, 0x70u8, 0x6fu8, 0x73u8, 0x69u8, 0x74u8, 0x65u8, 0x2du8]
}

/// The ASCII bytes of "Challenge-".
pub open spec fn str_challenge() -> Seq<u8> {
    seq![0x43u8, 0x68u8, 0x61u8, 0x6cu8, 0x6cu8, 0x65u8, 0x6eu8, 0x67u8, 0x65u8, 0x2du8]
}

/// The ASCII bytes of "HashToGroup-".
pub open spec fn str_hash_to_group() -> Seq<u8> {
    seq![0x48u8, 0x61u8, 0x73u8, 0x68u8, 0x54u8, 0x6fu8, 0x47u8, 0x72u8, 0x6fu8, 0x75u8,
        0x70u8, 0x2du8]
}

/// The ASCII bytes of "HashToScalar-".
pub open spec fn str_hash_to_scalar() -> Seq<u8> {
    seq![0x48u8, 0x61u8, 0x73u8, 0x68u8, 0x54u8, 0x6fu8, 0x53u8, 0x63u8, 0x61u8, 0x6cu8,
        0x61u8, 0x72u8, 0x2du8]
}

/// The ASCII bytes of "DeriveKeyPair".
pub open spec fn str_derive_key_pair() -> Seq<u8> {
    seq![0x44u8, 0x65u8, 0x72u8, 0x69u8, 0x76u8, 0x65u8, 0x4bu8, 0x65u8, 0x79u8, 0x50u8,
        0x61u8, 0x69u8, 0x72u8]
}

/// The ASCII bytes of "H2C-OVERSIZE-DST-".
pub open spec fn str_oversize_dst() -> Seq<u8> {
    seq![0x48u8, 0x32u8, 0x43u8, 0x2du8, 0x4fu8, 0x56u8, 0x45u8, 0x52u8, 0x53u8, 0x49u8,
        0x5au8, 0x45u8, 0x2du8, 0x44u8, 0x53u8, 0x54u8, 0x2du8]
}

/// The eleven-byte context string: "VOPRF08-", the mode byte, and the
/// big-endian suite identifier.
pub open spec fn context_string(s: CipherSuite, m: Mode) -> Seq<u8> {
    str_voprf() + seq![mode_byte(m)] + i2osp2(suite_id(s))
}

/// Appends the bytes of `b` to `out`.
pub fn push_bytes(out: &mut Vec<u8>, b: &Vec<u8>)
    ensures
        final(out)@ == old(out)@ + b@,
{
    let n = b.len();
    let mut i: usize = 0;
    while i < n
        invariant
            i <= n,
            n == b@.len(),
            out@ == old(out)@ + b@.subrange(0, i as int),
        decreases n - i,
    {
        out.push(b[i]);
        i = i + 1;
        assert(out@ =~= old(out)@ + b@.subrange(0, i as int));
    }
    assert(out@ =~= old(out)@ + b@);
}

/// Appends `I2OSP(n, 2)` to `out`.
pub fn push_i2osp2(out: &mut Vec<u8>, n: u16)
    ensures
        final(out)@ == old(out)@ + i2osp2(n as nat),
{
    let hi: u8 = (n / 256) as u8;
    let lo: u8 = (n % 256) as u8;
    out.push(hi);
    out.push(lo);
    assert(out@ =~= old(out)@ + i2osp2(n as nat));
}

/// Appends `b` under its two-byte length prefix to `out`.
pub fn push_lp(out: &mut Vec<u8>, b: &Vec<u8>)
    requires
        b@.len() <= 65535,
    ensures
        final(out)@ == old(out)@ + lp(b@),
{
    push_i2osp2(out, b.len() as u16);
    push_bytes(out, b);
    assert(out@ =~= old(out)@ + lp(b@));
}

/// `I2OSP(n, 2)` for a length already known to be small enough, as a
/// free-standing two-byte vector.
pub fn i2osp_2(n: usize) -> (r: Result<Vec<u8>, Error>)
    ensures
        match r {
            Ok(v) => n <= 65535 && v@ == i2osp2(n as nat),
            Err(e) => n > 65535 && e == Error::SizeError,
        },
{
    if n > 65535 {
        return Err(Error::SizeError);
    }
    let mut v: Vec<u8> = Vec::new();
    push_i2osp2(&mut v, n as u16);
    Ok(v)
}

/// The fixed ASCII labels that frame the protocol transcripts.
pub enum Label {
    /// "Finalize-"
    Finalize,
    /// "Seed-"
    Seed,
    /// "Context-"
    Context,
    /// "Composite-"
    Composite,
    /// "Challenge-"
    Challenge,
    /// "HashToGroup-"
    HashToGroup,
    /// "HashToScalar-"
    HashToScalar,
    /// "DeriveKeyPair"
    DeriveKeyPair,
    /// "H2C-OVERSIZE-DST-"
    OversizeDst,
}

/// The bytes a label stands for.
pub open spec fn label_bytes(l: Label) -> Seq<u8> {
    match l {
        Label::Finalize => str_finalize(),
        Label::Seed => str_seed(),
        Label::Context => str_context(),
        Label::Composite => str_composite(),
        Label::Challenge => str_challenge(),
        Label::HashToGroup => str_hash_to_group(),
        Label::HashToScalar => str_hash_to_scalar(),
        Label::DeriveKeyPair => str_derive_key_pair(),
        Label::OversizeDst => str_oversize_dst(),
    }
}

/// The ASCII bytes of a label, as a vector.
pub fn label_vec(l: Label) -> (r: Vec<u8>)
    ensures
        r@ == label_bytes(l),
{
    let mut v: Vec<u8> = Vec::new();
    match l {
        Label::Finalize => {
            v.push(0x46); v.push(0x69); v.push(0x6e); v.push(0x61); v.push(0x6c);
            v.push(0x69); v.push(0x7a); v.push(0x65); v.push(0x2d);
            assert(v@ =~= str_finalize());
        }
        Label::Seed => {
            v.push(0x53); v.push(0x65); v.push(0x65); v.push(0x64); v.push(0x2d);
            assert(v@ =~= str_seed());
        }
        Label::Context => {
            v.push(0x43); v.push(0x6f); v.push(0x6e); v.push(0x74); v.push(0x65);
            v.push(0x78); v.push(0x74); v.push(0x2d);
            assert(v@ =~= str_context());
        }
        Label::Composite => {
            v.push(0x43); v.push(0x6f); v.push(0x6d); v.push(0x70); v.push(0x6f);
            v.push(0x73); v.push(0x69); v.push(0x74); v.push(0x65); v.push(0x2d);
            assert(v@ =~= str_composite());
        }
        Label::Challenge => {
            v.push(0x43); v.push(0x68); v.push(0x61); v.push(0x6c); v.push(0x6c);
            v.push(0x65); v.push(0x6e); v.push(0x67); v.push(0x65); v.push(0x2d);
            assert(v@ =~= str_challenge());
        }
        Label::HashToGroup => {
            v.push(0x48); v.push(0x61); v.push(0x73); v.push(0x68); v.push(0x54);
            v.push(0x6f); v.push(0x47); v.push(0x72); v.push(0x6f); v.push(0x75);
            v.push(0x70); v.push(0x2d);
            assert(v@ =~= str_hash_to_group());
        }
        Label::HashToScalar => {
            v.push(0x48); v.push(0x61); v.push(0x73); v.push(0x68); v.push(0x54);
            v.push(0x6f); v.push(0x53); v.push(0x63); v.push(0x61); v.push(0x6c);
            v.push(0x61); v.push(0x72); v.push(0x2d);
            assert(v@ =~= str_hash_to_scalar());
        }
        Label::DeriveKeyPair => {
            v.push(0x44); v.push(0x65); v.push(0x72); v.push(0x69); v.push(0x76);
            v.push(0x65); v.push(0x4b); v.push(0x65); v.push(0x79); v.push(0x50);
            v.push(0x61); v.push(0x69); v.push(0x72);
            assert(v@ =~= str_derive_key_pair());
        }
        Label::OversizeDst => {
            v.push(0x48); v.push(0x32); v.push(0x43); v.push(0x2d); v.push(0x4f);
            v.push(0x56); v.push(0x45); v.push(0x52); v.push(0x53); v.push(0x49);
            v.push(0x5a); v.push(0x45); v.push(0x2d); v.push(0x44); v.push(0x53);
            v.push(0x54); v.push(0x2d);
            assert(v@ =~= str_oversize_dst());
        }
    }
    v
}

/// Generates the context string: "VOPRF08-" with the mode byte and the
/// big-endian suite identifier appended.
pub fn get_context_string(s: CipherSuite, m: Mode) -> (r: Vec<u8>)
    ensures
        r@ == context_string(s, m),
        r@.len() == 11,
{
    let mut v: Vec<u8> = Vec::new();
    v.push(0x56); v.push(0x4f); v.push(0x50); v.push(0x52); v.push(0x46);
    v.push(0x30); v.push(0x38); v.push(0x2d);
    v.push(m.to_u8());
    match s {
        CipherSuite::Ristretto255Sha512 => {
            v.push(0x00);
            v.push(0x01);
        }
        CipherSuite::P256Sha256 => {
            v.push(0x00);
            v.push(0x03);
        }
    }
    assert(v@ =~= context_string(s, m));
    v
}

/// A domain-separation tag: a label followed by the context string.
pub open spec fn dst(l: Label, s: CipherSuite, m: Mode) -> Seq<u8> {
    label_bytes(l) + context_string(s, m)
}

/// Builds a domain-separation tag from a label and the context string.
pub fn make_dst(l: Label, s: CipherSuite, m: Mode) -> (r: Vec<u8>)
    ensures
        r@ == dst(l, s, m),
        r@.len() == label_bytes(l).len() + 11,
{
    let mut v = label_vec(l);
    let ctx = get_context_string(s, m);
    push_bytes(&mut v, &ctx);
    v
}

} // verus!
