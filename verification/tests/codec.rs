//! Exact values of the transcript building blocks, the group
//! arithmetic on known scalars, and the round-trip behaviour of every
//! serialized type.

use voprf::CipherSuite;
use voprf::Error;
use voprf::Mode;
use voprf::group::Scalar;
use voprf::group::base_elem;
use voprf::group::deserialize_elem;
use voprf::group::deserialize_scalar;
use voprf::group::elem_add;
use voprf::group::elem_mul;
use voprf::group::identity_elem;
use voprf::group::invert_scalar;
use voprf::group::scalar_mul;
use voprf::group::scalar_sub;
use voprf::group::zero_scalar;
use voprf::hash::expand_message_xmd;
use voprf::hash::hash;
use voprf::rng::EntropySource;
use voprf::rng::OsEntropy;
use voprf::suite::Label;
use voprf::suite::get_context_string;
use voprf::suite::label_vec;
use voprf::suite::i2osp_2;
use voprf::voprf::NonVerifiableClient;
use voprf::voprf::NonVerifiableServer;
use voprf::voprf::Proof;
use voprf::voprf::VerifiableClient;
use voprf::voprf::VerifiableServer;
use voprf::voprf::BlindedElement;
use voprf::voprf::EvaluationElement;

fn hex(s: &str) -> Vec<u8> {
    let digits: Vec<u8> = s
        .bytes()
        .map(|b| match b {
            b'0'..=b'9' => b - b'0',
            b'a'..=b'f' => b - b'a' + 10,
            _ => panic!("not a hex digit"),
        })
        .collect();
    digits.chunks(2).map(|p| p[0] * 16 + p[1]).collect()
}

/// A scalar from a small integer value, honouring the suite's
/// endianness.
fn small_scalar(s: CipherSuite, v: u8) -> Scalar {
    let mut bytes = vec![0u8; 32];
    match s {
        CipherSuite::Ristretto255Sha512 => bytes[0] = v,
        CipherSuite::P256Sha256 => bytes[31] = v,
    }
    deserialize_scalar(s, &bytes).unwrap()
}

#[test]
fn context_string_exact_values() {
    assert_eq!(
        get_context_string(CipherSuite::Ristretto255Sha512, Mode::Base),
        b"VOPRF08-\x00\x00\x01".to_vec()
    );
    assert_eq!(
        get_context_string(CipherSuite::Ristretto255Sha512, Mode::Verifiable),
        b"VOPRF08-\x01\x00\x01".to_vec()
    );
    assert_eq!(
        get_context_string(CipherSuite::P256Sha256, Mode::Base),
        b"VOPRF08-\x00\x00\x03".to_vec()
    );
    assert_eq!(
        get_context_string(CipherSuite::P256Sha256, Mode::Verifiable),
        b"VOPRF08-\x01\x00\x03".to_vec()
    );
}

#[test]
fn i2osp_2_exact_values() {
    assert_eq!(i2osp_2(0).unwrap(), vec![0, 0]);
    assert_eq!(i2osp_2(258).unwrap(), vec![1, 2]);
    assert_eq!(i2osp_2(65535).unwrap(), vec![0xff, 0xff]);
    assert_eq!(i2osp_2(65536).unwrap_err(), Error::SizeError);
}

#[test]
fn suite_hash_known_vectors() {
    // SHA-512("abc")
    let abc = b"abc".to_vec();
    assert_eq!(
        hash(CipherSuite::Ristretto255Sha512, &abc),
        hex(
            "ddaf35a193617abacc417349ae20413112e6fa4e89a97ea20a9eeee64b55d39a\
             2192992a274fc1a836ba3c23a3feebbd454d4423643ce80e2a9ac94fa54ca49f"
        )
    );
    // SHA-256 of the empty string
    let empty = Vec::new();
    assert_eq!(
        hash(CipherSuite::P256Sha256, &empty),
        hex("e3b0c44298fc1c149afbf4c8996fb92427ae41e4649b934ca495991b7852b855")
    );
}

#[test]
fn generator_exact_encodings() {
    assert_eq!(
        base_elem(CipherSuite::Ristretto255Sha512).serialize(),
        hex("e2f2ae0a6abc4e71a884a961c500515f58e30b6aa582dd8db6a65945e08d2d76")
    );
    assert_eq!(
        base_elem(CipherSuite::P256Sha256).serialize(),
        hex("036b17d1f2e12c4247f8bce6e563a440f277037d812deb33a0f4a13945d898c296")
    );
}

#[test]
fn identity_and_zero_encode_as_zeroes() {
    for suite in [CipherSuite::Ristretto255Sha512, CipherSuite::P256Sha256] {
        let identity = identity_elem(suite).serialize();
        assert!(identity.iter().all(|&x| x == 0));
        assert_eq!(identity.len(), suite.elem_len());
        let zero = zero_scalar(suite).serialize();
        assert!(zero.iter().all(|&x| x == 0));
        assert_eq!(zero.len(), 32);
    }
}

#[test]
fn scalar_arithmetic_small_values() {
    for suite in [CipherSuite::Ristretto255Sha512, CipherSuite::P256Sha256] {
        let one = small_scalar(suite, 1);
        let two = small_scalar(suite, 2);
        let three = small_scalar(suite, 3);
        let six = small_scalar(suite, 6);
        assert_eq!(
            voprf::group::scalar_add(&one, &two).serialize(),
            three.serialize()
        );
        assert_eq!(scalar_sub(&three, &two).serialize(), one.serialize());
        assert_eq!(scalar_mul(&two, &three).serialize(), six.serialize());
        // 2 * 2^(-1) = 1
        assert_eq!(
            scalar_mul(&two, &invert_scalar(&two)).serialize(),
            one.serialize()
        );
        // 0^(-1) = 0 by convention
        let zero = zero_scalar(suite);
        assert!(invert_scalar(&zero).serialize().iter().all(|&x| x == 0));
    }
}

#[test]
fn element_arithmetic_consistency() {
    for suite in [CipherSuite::Ristretto255Sha512, CipherSuite::P256Sha256] {
        let g = base_elem(suite);
        let one = small_scalar(suite, 1);
        let two = small_scalar(suite, 2);
        let three = small_scalar(suite, 3);
        assert_eq!(elem_mul(&g, &one).serialize(), g.serialize());
        let g2 = elem_add(&g, &g);
        assert_eq!(elem_mul(&g, &two).serialize(), g2.serialize());
        assert_ne!(g2.serialize(), g.serialize());
        let g3 = elem_add(&g2, &g);
        assert_eq!(elem_mul(&g, &three).serialize(), g3.serialize());
        // g + 0 = g
        assert_eq!(elem_add(&g, &identity_elem(suite)).serialize(), g.serialize());
    }
}

#[test]
fn expand_message_xmd_behaviour() {
    let suite = CipherSuite::Ristretto255Sha512;
    let msg = b"message".to_vec();
    let dst = b"TEST-DST".to_vec();
    let out = expand_message_xmd(suite, &msg, &dst, 64).unwrap();
    assert_eq!(out.len(), 64);
    // Deterministic.
    assert_eq!(out, expand_message_xmd(suite, &msg, &dst, 64).unwrap());
    // Longer outputs draw more blocks.
    let out200 = expand_message_xmd(suite, &msg, &dst, 200).unwrap();
    assert_eq!(out200.len(), 200);
    // The tag separates domains.
    let other = b"TEST-DST2".to_vec();
    assert_ne!(out, expand_message_xmd(suite, &msg, &other, 64).unwrap());
    // An empty tag is refused.
    let empty = Vec::new();
    assert_eq!(
        expand_message_xmd(suite, &msg, &empty, 64).unwrap_err(),
        Error::HashToCurveError
    );
}

#[test]
fn malformed_encodings_rejected() {
    for suite in [CipherSuite::Ristretto255Sha512, CipherSuite::P256Sha256] {
        // Non-canonical scalar: 32 bytes of 0xff is at least the group
        // order in both conventions.
        let big = vec![0xffu8; 32];
        assert_eq!(deserialize_scalar(suite, &big).unwrap_err(), Error::Deserialization);
        // Wrong length.
        let short = vec![1u8; 5];
        assert_eq!(deserialize_scalar(suite, &short).unwrap_err(), Error::Deserialization);
        // An invalid element encoding.
        let bad = vec![0xffu8; suite.elem_len()];
        assert_eq!(deserialize_elem(suite, &bad).unwrap_err(), Error::Deserialization);
    }
}

#[test]
fn state_and_message_roundtrips() {
    let input = b"input".to_vec();
    let info = b"info".to_vec();
    for suite in [CipherSuite::Ristretto255Sha512, CipherSuite::P256Sha256] {
        let mut rng = OsEntropy {};

        let nvc = NonVerifiableClient::blind(suite, &input, &mut rng).unwrap();
        let ser = nvc.state.serialize();
        let back = NonVerifiableClient::deserialize(suite, &ser).unwrap();
        assert_eq!(back.serialize(), ser);

        let ser = nvc.message.serialize();
        let back = BlindedElement::deserialize(suite, &ser).unwrap();
        assert_eq!(back.serialize(), ser);

        let vc = VerifiableClient::blind(suite, &input, &mut rng).unwrap();
        let ser = vc.state.serialize();
        let back = VerifiableClient::deserialize(suite, &ser).unwrap();
        assert_eq!(back.serialize(), ser);

        let nvs = NonVerifiableServer::new(suite, &mut rng);
        let ser = nvs.serialize();
        let back = NonVerifiableServer::deserialize(suite, &ser).unwrap();
        assert_eq!(back.serialize(), ser);

        let vs = VerifiableServer::new(suite, &mut rng);
        let ser = vs.serialize();
        let back = VerifiableServer::deserialize(suite, &ser).unwrap();
        assert_eq!(back.serialize(), ser);

        let eval = vs.evaluate(&mut rng, &vc.message, Some(&info)).unwrap();
        let ser = eval.message.serialize();
        let back = EvaluationElement::deserialize(suite, &ser).unwrap();
        assert_eq!(back.serialize(), ser);

        let ser = eval.proof.serialize();
        let back = Proof::deserialize(suite, &ser).unwrap();
        assert_eq!(back.serialize(), ser);
    }
}

#[test]
fn truncated_buffers_rejected() {
    for suite in [CipherSuite::Ristretto255Sha512, CipherSuite::P256Sha256] {
        let short = vec![1u8; 16];
        assert_eq!(
            NonVerifiableClient::deserialize(suite, &short).unwrap_err(),
            Error::SizeError
        );
        assert_eq!(
            VerifiableClient::deserialize(suite, &short).unwrap_err(),
            Error::SizeError
        );
        assert_eq!(
            NonVerifiableServer::deserialize(suite, &short).unwrap_err(),
            Error::SizeError
        );
        assert_eq!(
            VerifiableServer::deserialize(suite, &short).unwrap_err(),
            Error::SizeError
        );
        assert_eq!(Proof::deserialize(suite, &short).unwrap_err(), Error::SizeError);
        assert_eq!(
            BlindedElement::deserialize(suite, &short).unwrap_err(),
            Error::SizeError
        );
        assert_eq!(
            EvaluationElement::deserialize(suite, &short).unwrap_err(),
            Error::SizeError
        );
    }
}

#[test]
fn key_material_accessors_consistent() {
    for suite in [CipherSuite::Ristretto255Sha512, CipherSuite::P256Sha256] {
        let mut rng = OsEntropy {};
        let seed = rng.fill(32);
        let a = VerifiableServer::new_from_seed(suite, &seed).unwrap();
        let b = VerifiableServer::new_with_key(suite, &a.get_private_key().serialize()).unwrap();
        assert_eq!(a.serialize(), b.serialize());
        // The public key is the generator raised to the secret key.
        assert_eq!(
            a.get_public_key().serialize(),
            elem_mul(&base_elem(suite), &a.get_private_key()).serialize()
        );
        // Two different draws give two different blinds.
        let input = b"input".to_vec();
        let one = NonVerifiableClient::blind(suite, &input, &mut rng).unwrap();
        let other = NonVerifiableClient::blind(suite, &input, &mut rng).unwrap();
        assert_ne!(one.state.serialize(), other.state.serialize());
        assert_eq!(one.state.get_blind().serialize(), one.state.serialize());
    }
}

#[test]
fn prepared_scalar_zeroizes() {
    let suite = CipherSuite::Ristretto255Sha512;
    let input = b"input".to_vec();
    let info = b"info".to_vec();
    let mut rng = OsEntropy {};
    let blind_result = VerifiableClient::blind(suite, &input, &mut rng).unwrap();
    let server = VerifiableServer::new(suite, &mut rng);
    let messages = vec![blind_result.message];
    let mut prep = server.batch_evaluate_prepare(&messages, Some(&info)).unwrap();
    prep.t.zeroize();
    assert!(prep.t.0.serialize().iter().all(|&x| x == 0));
}

#[test]
fn labels_exact_values() {
    assert_eq!(label_vec(Label::Finalize), b"Finalize-".to_vec());
    assert_eq!(label_vec(Label::Seed), b"Seed-".to_vec());
    assert_eq!(label_vec(Label::Context), b"Context-".to_vec());
    assert_eq!(label_vec(Label::Composite), b"Composite-".to_vec());
    assert_eq!(label_vec(Label::Challenge), b"Challenge-".to_vec());
    assert_eq!(label_vec(Label::HashToGroup), b"HashToGroup-".to_vec());
    assert_eq!(label_vec(Label::HashToScalar), b"HashToScalar-".to_vec());
    assert_eq!(label_vec(Label::DeriveKeyPair), b"DeriveKeyPair".to_vec());
    assert_eq!(label_vec(Label::OversizeDst), b"H2C-OVERSIZE-DST-".to_vec());
}
