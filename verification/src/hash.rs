//! The suite hash function and the domain-separated expansion
//! `expand_message_xmd` (RFC 9380, section 5.4.1).
//!
//! The two digests themselves come from the `sha2` crate; their outputs
//! are named by the uninterpreted functions [`sha256_of`] and
//! [`sha512_of`].  The expansion algorithm on top of them is verified
//! against a direct recursive statement of the RFC construction.

use vstd::prelude::*;
use sha2::Digest;
use crate::Error;
use crate::suite::CipherSuite;
use crate::suite::Label;
use crate::suite::all_zero;
use crate::suite::hash_block_len;
use crate::suite::hash_len;
use crate::suite::i2osp2;
use crate::suite::label_vec;
use crate::suite::push_bytes;
use crate::suite::push_i2osp2;
use crate::suite::str_oversize_dst;
use crate::suite::zeroes;

verus! {

/// What `sha2::Sha256` returns on a given input.
pub uninterp spec fn sha256_of(m: Seq<u8>) -> Seq<u8>;

/// What `sha2::Sha512` returns on a given input.
pub uninterp spec fn sha512_of(m: Seq<u8>) -> Seq<u8>;

/// The suite's hash of `m`.
pub open spec fn spec_hash(s: CipherSuite, m: Seq<u8>) -> Seq<u8> {
    match s {
        CipherSuite::Ristretto255Sha512 => sha512_of(m),
        CipherSuite::P256Sha256 => sha256_of(m),
    }
}

/// Relies on `sha2::Sha256::digest`: the digest is 32 bytes and is a
/// function of the input bytes alone.
#[verifier::external_body]
fn sha256(m: &Vec<u8>) -> (r: Vec<u8>)
    ensures
        r@ == sha256_of(m@),
        r@.len() == 32,
{
    sha2::Sha256::digest(m.as_slice()).to_vec()
}

/// Relies on `sha2::Sha512::digest`: the digest is 64 bytes and is a
/// function of the input bytes alone.
#[verifier::external_body]
fn sha512(m: &Vec<u8>) -> (r: Vec<u8>)
    ensures
        r@ == sha512_of(m@),
        r@.len() == 64,
{
    sha2::Sha512::digest(m.as_slice()).to_vec()
}

/// Hashes `m` with the suite's hash function.
pub fn hash(s: CipherSuite, m: &Vec<u8>) -> (r: Vec<u8>)
    ensures
        r@ == spec_hash(s, m@),
        r@.len() == hash_len(s),
{
    match s {
        CipherSuite::Ristretto255Sha512 => sha512(m),
        CipherSuite::P256Sha256 => sha256(m),
    }
}

/// Byte-wise exclusive or; meaningful when both inputs have the same
/// length.
pub open spec fn xor_seq(a: Seq<u8>, b: Seq<u8>) -> Seq<u8> {
    Seq::new(a.len(), |i: int| a[i] ^ b[i])
}

/// The tag actually expanded: an oversized tag is first replaced by its
/// hash under the "H2C-OVERSIZE-DST-" prefix.
pub open spec fn xmd_actual_dst(s: CipherSuite, dst: Seq<u8>) -> Seq<u8> {
    if dst.len() > 255 {
        spec_hash(s, str_oversize_dst() + dst)
    } else {
        dst
    }
}

/// `DST_prime`: the actual tag followed by its one-byte length.
pub open spec fn xmd_dst_prime(s: CipherSuite, dst: Seq<u8>) -> Seq<u8> {
    xmd_actual_dst(s, dst) + seq![((xmd_actual_dst(s, dst).len() % 256) as u8)]
}

/// The number of hash blocks the expansion draws from.
pub open spec fn xmd_ell(s: CipherSuite, l: nat) -> nat {
    ((l + hash_len(s) - 1) / (hash_len(s) as int)) as nat
}

/// Whether the expansion is defined for this tag and output length.
pub open spec fn xmd_ok(s: CipherSuite, dst: Seq<u8>, l: nat) -> bool {
    dst.len() >= 1 && l <= 65535 && xmd_ell(s, l) <= 255
}

/// `b_0`: the hash of the zero block, the message, the output length,
/// a zero byte, and `DST_prime`.
pub open spec fn xmd_b0(s: CipherSuite, msg: Seq<u8>, dst: Seq<u8>, l: nat) -> Seq<u8> {
    spec_hash(s, zeroes(hash_block_len(s)) + msg + i2osp2(l) + seq![0u8] + xmd_dst_prime(s, dst))
}

/// `b_i` for `i >= 1`: each block hashes the previous block (xor-ed
/// with `b_0` from the second block on), the block index, and
/// `DST_prime`.
pub open spec fn xmd_block(s: CipherSuite, msg: Seq<u8>, dst: Seq<u8>, l: nat, i: nat) -> Seq<u8>
    decreases i,
{
    if i <= 1 {
        spec_hash(s, xmd_b0(s, msg, dst, l) + seq![1u8] + xmd_dst_prime(s, dst))
    } else {
        spec_hash(
            s,
            xor_seq(xmd_b0(s, msg, dst, l), xmd_block(s, msg, dst, l, (i - 1) as nat))
                + seq![((i % 256) as u8)] + xmd_dst_prime(s, dst),
        )
    }
}

/// The concatenation `b_1 || ... || b_i`.
pub open spec fn xmd_blocks(s: CipherSuite, msg: Seq<u8>, dst: Seq<u8>, l: nat, i: nat) -> Seq<u8>
    decreases i,
{
    if i == 0 {
        Seq::empty()
    } else {
        xmd_blocks(s, msg, dst, l, (i - 1) as nat) + xmd_block(s, msg, dst, l, i)
    }
}

/// The expansion: the first `l` bytes of `b_1 || ... || b_ell`.
pub open spec fn spec_expand_xmd(s: CipherSuite, msg: Seq<u8>, dst: Seq<u8>, l: nat) -> Seq<u8> {
    xmd_blocks(s, msg, dst, l, xmd_ell(s, l)).take(l as int)
}

/// A vector of `n` zero bytes.
pub fn vec_zeroes(n: usize) -> (r: Vec<u8>)
    ensures
        r@ == zeroes(n as nat),
        all_zero(r@),
{
    let mut v: Vec<u8> = Vec::new();
    let mut i: usize = 0;
    while i < n
        invariant
            i <= n,
            v@ == zeroes(i as nat),
        decreases n - i,
    {
        v.push(0);
        i = i + 1;
        assert(v@ =~= zeroes(i as nat));
    }
    v
}

/// Byte-wise exclusive or of two equally long vectors.
fn xor_bytes(a: &Vec<u8>, b: &Vec<u8>) -> (r: Vec<u8>)
    requires
        a@.len() == b@.len(),
    ensures
        r@ == xor_seq(a@, b@),
{
    let n = a.len();
    let mut v: Vec<u8> = Vec::new();
    let mut i: usize = 0;
    while i < n
        invariant
            i <= n,
            n == a@.len(),
            n == b@.len(),
            v@ == xor_seq(a@, b@).take(i as int),
        decreases n - i,
    {
        v.push(a[i] ^ b[i]);
        i = i + 1;
        assert(v@ =~= xor_seq(a@, b@).take(i as int));
    }
    assert(v@ =~= xor_seq(a@, b@));
    v
}

/// `expand_message_xmd` (RFC 9380, section 5.4.1): expands `msg` under
/// the domain-separation tag `dst` into `len_in_bytes` pseudorandom
/// bytes, using the suite's hash function.
#[verifier::loop_isolation(false)]
pub fn expand_message_xmd(s: CipherSuite, msg: &Vec<u8>, dst: &Vec<u8>, len_in_bytes: usize) -> (r:
    Result<Vec<u8>, Error>)
    ensures
        match r {
            Ok(v) => xmd_ok(s, dst@, len_in_bytes as nat) && v@ == spec_expand_xmd(
                s,
                msg@,
                dst@,
                len_in_bytes as nat,
            ) && v@.len() == len_in_bytes,
            Err(e) => !xmd_ok(s, dst@, len_in_bytes as nat) && e == Error::HashToCurveError,
        },
{
    let ghost l: nat = len_in_bytes as nat;
    if dst.len() == 0 || len_in_bytes > 65535 {
        return Err(Error::HashToCurveError);
    }
    let hl = s.hash_len();
    let ell: usize = (len_in_bytes + hl - 1) / hl;
    assert(ell == xmd_ell(s, l));
    if ell > 255 {
        return Err(Error::HashToCurveError);
    }
    if len_in_bytes == 0 {
        let v: Vec<u8> = Vec::new();
        assert(v@ =~= spec_expand_xmd(s, msg@, dst@, l));
        return Ok(v);
    }

    // DST_prime
    let mut dst_prime: Vec<u8>;
    if dst.len() > 255 {
        let mut t = label_vec(Label::OversizeDst);
        push_bytes(&mut t, dst);
        assert(t@ =~= str_oversize_dst() + dst@);
        dst_prime = hash(s, &t);
        let n = dst_prime.len();
        dst_prime.push(n as u8);
    } else {
        dst_prime = Vec::new();
        push_bytes(&mut dst_prime, dst);
        let n = dst_prime.len();
        dst_prime.push(n as u8);
    }
    assert(dst_prime@ =~= xmd_dst_prime(s, dst@));

    // b_0
    let mut inp = vec_zeroes(s.hash_block_len());
    push_bytes(&mut inp, msg);
    push_i2osp2(&mut inp, len_in_bytes as u16);
    inp.push(0);
    push_bytes(&mut inp, &dst_prime);
    assert(inp@ =~= zeroes(hash_block_len(s)) + msg@ + i2osp2(l) + seq![0u8] + xmd_dst_prime(
        s,
        dst@,
    ));
    let b0 = hash(s, &inp);
    assert(b0@ == xmd_b0(s, msg@, dst@, l));

    // b_1
    let mut inp1: Vec<u8> = Vec::new();
    push_bytes(&mut inp1, &b0);
    inp1.push(1);
    push_bytes(&mut inp1, &dst_prime);
    assert(inp1@ =~= xmd_b0(s, msg@, dst@, l) + seq![1u8] + xmd_dst_prime(s, dst@));
    let b1 = hash(s, &inp1);
    assert(b1@ == xmd_block(s, msg@, dst@, l, 1));

    let mut uniform: Vec<u8> = Vec::new();
    push_bytes(&mut uniform, &b1);
    let mut prev = b1;
    let mut i: usize = 2;
    assert(xmd_blocks(s, msg@, dst@, l, 0) =~= Seq::<u8>::empty());
    assert(uniform@ =~= xmd_blocks(s, msg@, dst@, l, 1));
    while i <= ell
        invariant
            2 <= i <= ell + 1,
            uniform@ == xmd_blocks(s, msg@, dst@, l, (i - 1) as nat),
            uniform@.len() == (i - 1) * hash_len(s),
            prev@ == xmd_block(s, msg@, dst@, l, (i - 1) as nat),
            prev@.len() == hash_len(s),
        decreases ell + 1 - i,
    {
        let mut inpi = xor_bytes(&b0, &prev);
        inpi.push(i as u8);
        push_bytes(&mut inpi, &dst_prime);
        assert(inpi@ =~= xor_seq(xmd_b0(s, msg@, dst@, l), xmd_block(s, msg@, dst@, l, (i
            - 1) as nat)) + seq![((i as nat % 256) as u8)] + xmd_dst_prime(s, dst@));
        let bi = hash(s, &inpi);
        assert(bi@ == xmd_block(s, msg@, dst@, l, i as nat));
        push_bytes(&mut uniform, &bi);
        assert(uniform@ =~= xmd_blocks(s, msg@, dst@, l, i as nat));
        assert((i - 1) * hash_len(s) + hash_len(s) == i * hash_len(s)) by (nonlinear_arith);
        prev = bi;
        i = i + 1;
    }
    assert(uniform@ == xmd_blocks(s, msg@, dst@, l, xmd_ell(s, l)));

    proof {
        let hl_i = hash_len(s) as int;
        let x = l + hash_len(s) - 1;
        vstd::arithmetic::div_mod::lemma_fundamental_div_mod(x as int, hl_i);
        vstd::arithmetic::div_mod::lemma_mod_bound(x as int, hl_i);
        assert(hl_i * (xmd_ell(s, l) as int) >= l);
        assert(hl_i * (xmd_ell(s, l) as int) == (xmd_ell(s, l) as int) * hl_i) by (nonlinear_arith);
    }
    uniform.truncate(len_in_bytes);
    assert(uniform@ =~= spec_expand_xmd(s, msg@, dst@, l));
    Ok(uniform)
}

} // verus!
