//! Sources of randomness for blinding factors and key generation.
//!
//! The protocol only ever asks a source for a given number of bytes;
//! nothing can be promised about their values.  [`OsEntropy`] draws
//! from the operating system, [`SeededRng`] expands a caller-supplied
//! seed deterministically with SHA-512.

use vstd::prelude::*;
use rand_core::RngCore;
use crate::hash::hash;
use crate::suite::CipherSuite;

verus! {

/// A source of random or pseudorandom bytes.
pub trait EntropySource {
    /// Draws `n` bytes from the source.
    fn fill(&mut self, n: usize) -> (r: Vec<u8>)
        ensures
            r@.len() == n,
    ;
}

/// Relies on `rand_core::OsRng::fill_bytes`: it fills the buffer from
/// the operating system's secure generator, and aborts the process if
/// that generator is unavailable.  Nothing is assumed about the
/// values.
#[verifier::external_body]
fn os_fill(n: usize) -> (r: Vec<u8>)
    ensures
        r@.len() == n,
{
    let mut v = vec![0u8; n];
    rand_core::OsRng.fill_bytes(&mut v);
    v
}

/// The operating system's cryptographically secure generator.
pub struct OsEntropy {}

impl EntropySource for OsEntropy {
    fn fill(&mut self, n: usize) -> (r: Vec<u8>) {
        os_fill(n)
    }
}

/// A deterministic byte source: a SHA-512 chain over a seed.  Meant for
/// reproducible runs; every state of the chain is hashed once more for
/// each block of output.
pub struct SeededRng {
    /// The current chain value.
    state: Vec<u8>,
}

impl SeededRng {
    /// Starts the chain from a seed.
    pub fn from_seed(seed: &Vec<u8>) -> (r: SeededRng) {
        SeededRng { state: hash(CipherSuite::Ristretto255Sha512, seed) }
    }
}

impl EntropySource for SeededRng {
    fn fill(&mut self, n: usize) -> (r: Vec<u8>) {
        let blocks = n / 64 + 1;
        let mut out: Vec<u8> = Vec::new();
        let mut b: usize = 0;
        while b < blocks
            invariant
                b <= blocks,
                out@.len() == 64 * b,
            decreases blocks - b,
        {
            let block = hash(CipherSuite::Ristretto255Sha512, &self.state);
            self.state = hash(CipherSuite::Ristretto255Sha512, &block);
            let mut i: usize = 0;
            let ghost len0: nat = out@.len();
            while i < 64
                invariant
                    i <= 64,
                    block@.len() == 64,
                    out@.len() == len0 + i,
                decreases 64 - i,
            {
                out.push(block[i]);
                i = i + 1;
            }
            b = b + 1;
        }
        proof {
            vstd::arithmetic::div_mod::lemma_fundamental_div_mod(n as int, 64);
            vstd::arithmetic::div_mod::lemma_mod_bound(n as int, 64);
        }
        out.truncate(n);
        out
    }
}

} // verus!
