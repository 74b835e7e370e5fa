//! A verifiable oblivious pseudorandom function (VOPRF).
//!
//! A client and a server jointly evaluate a pseudorandom function
//! `F(k, x)` keyed by the server's secret scalar `k` on a client input
//! `x`, without the server learning `x` and without the client learning
//! `k`.  In the verifiable mode the server additionally returns a
//! non-interactive proof that it used the key committed to by its
//! public key.
//!
//! Two cipher suites are offered: Ristretto255 with SHA-512 and the
//! P-256 prime-order subgroup with SHA-256.  Group elements and scalars
//! are carried as their canonical encodings; the curve arithmetic
//! itself is delegated to `curve25519_dalek` and `p256`.

pub mod suite;
pub mod hash;
pub mod group;
pub mod rng;
pub mod voprf;
pub mod serialization;

pub use suite::CipherSuite;
pub use suite::Mode;
pub use voprf::BlindedElement;
pub use voprf::EvaluationElement;
pub use voprf::NonVerifiableClient;
pub use voprf::NonVerifiableServer;
pub use voprf::Proof;
pub use voprf::VerifiableClient;
pub use voprf::VerifiableServer;

use vstd::prelude::*;

verus! {

/// The error cases that the protocol surfaces to its caller.
#[derive(Clone, Copy, Debug, PartialEq, Eq, Structural)]
pub enum Error {
    /// A protocol input was empty or longer than 65535 bytes.
    Input,
    /// The metadata (`info`) was longer than 65535 - 21 bytes, or the
    /// derived evaluation scalar `sk + m` was zero.
    Metadata,
    /// A key-derivation seed was empty or longer than 65535 bytes.
    Seed,
    /// A wire encoding was malformed: an invalid element or scalar
    /// encoding, the identity element, or the zero scalar.
    Deserialization,
    /// A serialized state or message was shorter than its fixed layout.
    SizeError,
    /// The DLEQ proof challenge did not match.
    ProofVerification,
    /// Batched sequences had different lengths, or more than 65535 items.
    Batch,
    /// Hashing to the curve could not be carried out.
    HashToCurveError,
    /// A group element operation could not be carried out.
    PointError,
}

} // verus!
