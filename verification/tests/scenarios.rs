//! Concrete protocol scenarios: reproducible runs against the
//! reference PRF, tampered public keys, and each input-validation
//! error.

use voprf::CipherSuite;
use voprf::Error;
use voprf::Mode;
use voprf::group::Elem;
use voprf::group::Scalar;
use voprf::group::deserialize_scalar;
use voprf::group::elem_mul;
use voprf::group::hash_to_curve;
use voprf::group::hash_to_scalar;
use voprf::group::invert_scalar;
use voprf::group::scalar_add;
use voprf::hash::hash;
use voprf::rng::EntropySource;
use voprf::rng::OsEntropy;
use voprf::rng::SeededRng;
use voprf::suite::Label;
use voprf::suite::get_context_string;
use voprf::suite::label_vec;
use voprf::suite::push_bytes;
use voprf::suite::push_i2osp2;
use voprf::suite::push_lp;
use voprf::voprf::NonVerifiableClient;
use voprf::voprf::NonVerifiableServer;
use voprf::voprf::VerifiableClient;
use voprf::voprf::VerifiableServer;

fn make_dst(label: Label, s: CipherSuite, mode: Mode) -> Vec<u8> {
    let mut v = label_vec(label);
    let ctx = get_context_string(s, mode);
    push_bytes(&mut v, &ctx);
    v
}

fn finalize_hash(s: CipherSuite, mode: Mode, input: &Vec<u8>, info: &Vec<u8>, n: &Elem) -> Vec<u8> {
    let fdst = make_dst(Label::Finalize, s, mode);
    let mut msg: Vec<u8> = Vec::new();
    push_lp(&mut msg, input);
    push_lp(&mut msg, info);
    push_lp(&mut msg, &n.serialize());
    push_lp(&mut msg, &fdst);
    hash(s, &msg)
}

fn prf(s: CipherSuite, input: &Vec<u8>, key: &Scalar, info: &Vec<u8>, mode: Mode) -> Vec<u8> {
    let point = hash_to_curve(s, input, &make_dst(Label::HashToGroup, s, mode)).unwrap();
    let mut cmsg = label_vec(Label::Context);
    let ctx = get_context_string(s, mode);
    push_bytes(&mut cmsg, &ctx);
    push_i2osp2(&mut cmsg, info.len() as u16);
    push_bytes(&mut cmsg, info);
    let m = hash_to_scalar(s, &cmsg, &make_dst(Label::HashToScalar, s, mode)).unwrap();
    let t = scalar_add(key, &m);
    let res = elem_mul(&point, &invert_scalar(&t));
    finalize_hash(s, mode, input, info, &res)
}

/// A seeded run matches the reference PRF, in both modes.
#[test]
fn seeded_run_matches_reference() {
    let input = b"input".to_vec();
    let info = b"info".to_vec();
    for suite in [CipherSuite::Ristretto255Sha512, CipherSuite::P256Sha256] {
        let seed = b"a reproducible seed".to_vec();
        let mut rng = SeededRng::from_seed(&seed);

        let client_blind_result = NonVerifiableClient::blind(suite, &input, &mut rng).unwrap();
        let server = NonVerifiableServer::new(suite, &mut rng);
        let server_result = server.evaluate(&client_blind_result.message, Some(&info)).unwrap();
        let out = client_blind_result
            .state
            .finalize(&input, &server_result.message, Some(&info))
            .unwrap();
        assert_eq!(out, prf(suite, &input, &server.get_private_key(), &info, Mode::Base));

        let client_blind_result = VerifiableClient::blind(suite, &input, &mut rng).unwrap();
        let server = VerifiableServer::new(suite, &mut rng);
        let server_result = server
            .evaluate(&mut rng, &client_blind_result.message, Some(&info))
            .unwrap();
        let out = client_blind_result
            .state
            .finalize(
                &input,
                &server_result.message,
                &server_result.proof,
                &server.get_public_key(),
                Some(&info),
            )
            .unwrap();
        assert_eq!(out, prf(suite, &input, &server.get_private_key(), &info, Mode::Verifiable));
    }
}

/// A wrong public key makes verifiable finalize fail with
/// `ProofVerification`.
#[test]
fn wrong_public_key_fails_proof() {
    let input = b"input".to_vec();
    let info = b"info".to_vec();
    for suite in [CipherSuite::Ristretto255Sha512, CipherSuite::P256Sha256] {
        let mut rng = OsEntropy {};
        let client_blind_result = VerifiableClient::blind(suite, &input, &mut rng).unwrap();
        let server = VerifiableServer::new(suite, &mut rng);
        let server_result = server
            .evaluate(&mut rng, &client_blind_result.message, Some(&info))
            .unwrap();
        let msg = b"msg".to_vec();
        let wrong_pk =
            hash_to_curve(suite, &msg, &make_dst(Label::HashToGroup, suite, Mode::Base)).unwrap();
        let result = client_blind_result.state.finalize(
            &input,
            &server_result.message,
            &server_result.proof,
            &wrong_pk,
            Some(&info),
        );
        assert_eq!(result.unwrap_err(), Error::ProofVerification);
    }
}

/// A batch of ten random inputs under one verifiable server: all
/// outputs finalize and match the per-input reference PRF.
#[test]
fn batch_matches_reference_per_input() {
    let info = b"info".to_vec();
    let suite = CipherSuite::Ristretto255Sha512;
    let mut rng = OsEntropy {};
    let mut inputs = vec![];
    let mut states = vec![];
    let mut messages = vec![];
    for _ in 0..10 {
        let input = rng.fill(32);
        let blind_result = VerifiableClient::blind(suite, &input, &mut rng).unwrap();
        inputs.push(input);
        states.push(blind_result.state);
        messages.push(blind_result.message);
    }
    let server = VerifiableServer::new(suite, &mut rng);
    let batch_result = server.batch_evaluate(&mut rng, &messages, Some(&info)).unwrap();
    let outputs = VerifiableClient::batch_finalize(
        &inputs,
        &states,
        &batch_result.messages,
        &batch_result.proof,
        &server.get_public_key(),
        Some(&info),
    )
    .unwrap();
    assert_eq!(outputs.len(), 10);
    for (input, output) in inputs.iter().zip(outputs.iter()) {
        assert_eq!(
            *output,
            prf(suite, input, &server.get_private_key(), &info, Mode::Verifiable)
        );
    }
}

/// The same batch with a tampered public key fails as a whole with
/// `ProofVerification`.
#[test]
fn batch_with_tampered_key_fails_proof() {
    let info = b"info".to_vec();
    let suite = CipherSuite::Ristretto255Sha512;
    let mut rng = OsEntropy {};
    let mut inputs = vec![];
    let mut states = vec![];
    let mut messages = vec![];
    for _ in 0..10 {
        let input = rng.fill(32);
        let blind_result = VerifiableClient::blind(suite, &input, &mut rng).unwrap();
        inputs.push(input);
        states.push(blind_result.state);
        messages.push(blind_result.message);
    }
    let server = VerifiableServer::new(suite, &mut rng);
    let batch_result = server.batch_evaluate(&mut rng, &messages, Some(&info)).unwrap();
    let msg = b"msg".to_vec();
    let wrong_pk =
        hash_to_curve(suite, &msg, &make_dst(Label::HashToGroup, suite, Mode::Base)).unwrap();
    let result = VerifiableClient::batch_finalize(
        &inputs,
        &states,
        &batch_result.messages,
        &batch_result.proof,
        &wrong_pk,
        Some(&info),
    );
    assert_eq!(result.unwrap_err(), Error::ProofVerification);
}

/// An empty input is rejected with `Input`.
#[test]
fn empty_input_rejected() {
    for suite in [CipherSuite::Ristretto255Sha512, CipherSuite::P256Sha256] {
        let mut rng = OsEntropy {};
        let empty = Vec::new();
        let result = NonVerifiableClient::blind(suite, &empty, &mut rng);
        assert_eq!(result.unwrap_err(), Error::Input);
    }
}

/// Metadata one byte over the limit is rejected with `Metadata`.
#[test]
fn oversized_info_rejected() {
    for suite in [CipherSuite::Ristretto255Sha512, CipherSuite::P256Sha256] {
        let mut rng = OsEntropy {};
        let input = b"input".to_vec();
        let client_blind_result = NonVerifiableClient::blind(suite, &input, &mut rng).unwrap();
        let server = NonVerifiableServer::new(suite, &mut rng);
        let info = vec![0u8; 65536 - 20];
        let result = server.evaluate(&client_blind_result.message, Some(&info));
        assert_eq!(result.unwrap_err(), Error::Metadata);
    }
}

/// An all-zero scalar buffer is rejected with `Deserialization`.
#[test]
fn zero_scalar_buffer_rejected() {
    for suite in [CipherSuite::Ristretto255Sha512, CipherSuite::P256Sha256] {
        let zeros = vec![0u8; 32];
        let result = deserialize_scalar(suite, &zeros);
        assert_eq!(result.unwrap_err(), Error::Deserialization);
    }
}

/// An empty or oversized key-derivation seed is rejected with `Seed`.
#[test]
fn bad_seed_rejected() {
    for suite in [CipherSuite::Ristretto255Sha512, CipherSuite::P256Sha256] {
        let empty = Vec::new();
        assert_eq!(
            NonVerifiableServer::new_from_seed(suite, &empty).unwrap_err(),
            Error::Seed
        );
        let long = vec![7u8; 65536];
        assert_eq!(
            VerifiableServer::new_from_seed(suite, &long).unwrap_err(),
            Error::Seed
        );
    }
}

/// Batches of different lengths are rejected with `Batch`.
#[test]
fn mismatched_batch_rejected() {
    let info = b"info".to_vec();
    let suite = CipherSuite::Ristretto255Sha512;
    let mut rng = OsEntropy {};
    let mut inputs = vec![];
    let mut states = vec![];
    let mut messages = vec![];
    for _ in 0..3 {
        let input = b"input".to_vec();
        let blind_result = VerifiableClient::blind(suite, &input, &mut rng).unwrap();
        inputs.push(input);
        states.push(blind_result.state);
        messages.push(blind_result.message);
    }
    let server = VerifiableServer::new(suite, &mut rng);
    let batch_result = server.batch_evaluate(&mut rng, &messages, Some(&info)).unwrap();
    let mut fewer_messages = batch_result.messages;
    fewer_messages.pop();
    let result = VerifiableClient::batch_finalize(
        &inputs,
        &states,
        &fewer_messages,
        &batch_result.proof,
        &server.get_public_key(),
        Some(&info),
    );
    assert_eq!(result.unwrap_err(), Error::Batch);
}

/// Tampering with the evaluation element or the metadata breaks the
/// proof.  Tampering with the input alone cannot: the proof binds the
/// blinded element retained at blinding time, so the run still
/// verifies but its output no longer matches the PRF of any input
/// involved.
#[test]
fn tampered_transcript_detected() {
    let input = b"input".to_vec();
    let info = b"info".to_vec();
    for suite in [CipherSuite::Ristretto255Sha512, CipherSuite::P256Sha256] {
        let mut rng = OsEntropy {};
        let client_blind_result = VerifiableClient::blind(suite, &input, &mut rng).unwrap();
        let server = VerifiableServer::new(suite, &mut rng);
        let server_result = server
            .evaluate(&mut rng, &client_blind_result.message, Some(&info))
            .unwrap();
        let pk = server.get_public_key();

        // A different evaluation element.
        let msg = b"msg".to_vec();
        let other_elem =
            hash_to_curve(suite, &msg, &make_dst(Label::HashToGroup, suite, Mode::Base)).unwrap();
        let tampered_message = voprf::voprf::EvaluationElement::from_value_unchecked(other_elem);
        let result = client_blind_result.state.finalize(
            &input,
            &tampered_message,
            &server_result.proof,
            &pk,
            Some(&info),
        );
        assert_eq!(result.unwrap_err(), Error::ProofVerification);

        // Different metadata.
        let other_info = b"other info".to_vec();
        let result = client_blind_result.state.finalize(
            &input,
            &server_result.message,
            &server_result.proof,
            &pk,
            Some(&other_info),
        );
        assert_eq!(result.unwrap_err(), Error::ProofVerification);

        // A different input: the proof still verifies, but the output
        // matches neither the PRF of the new input nor of the old one.
        let other_input = b"inputx".to_vec();
        let out = client_blind_result
            .state
            .finalize(
                &other_input,
                &server_result.message,
                &server_result.proof,
                &pk,
                Some(&info),
            )
            .unwrap();
        let key = server.get_private_key();
        assert_ne!(out, prf(suite, &other_input, &key, &info, Mode::Verifiable));
        assert_ne!(out, prf(suite, &input, &key, &info, Mode::Verifiable));
    }
}
