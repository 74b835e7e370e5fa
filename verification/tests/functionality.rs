//! The full protocol flow, checked against an independently computed
//! reference PRF, for both cipher suites and both modes, together with
//! the zeroization behaviour of every state and message.

use voprf::CipherSuite;
use voprf::Mode;
use voprf::group::Elem;
use voprf::group::Scalar;
use voprf::group::elem_mul;
use voprf::group::hash_to_curve;
use voprf::group::hash_to_scalar;
use voprf::group::invert_scalar;
use voprf::group::scalar_add;
use voprf::hash::hash;
use voprf::rng::OsEntropy;
use voprf::rng::EntropySource;
use voprf::suite::Label;
use voprf::suite::get_context_string;
use voprf::suite::label_vec;
use voprf::suite::push_bytes;
use voprf::suite::push_i2osp2;
use voprf::suite::push_lp;
use voprf::voprf::EvaluationElement;
use voprf::voprf::NonVerifiableClient;
use voprf::voprf::NonVerifiableServer;
use voprf::voprf::VerifiableClient;
use voprf::voprf::VerifiableServer;

fn make_dst(label: Label, s: CipherSuite, mode: Mode) -> Vec<u8> {
    let mut v = label_vec(label);
    let ctx = get_context_string(s, mode);
    push_bytes(&mut v, &ctx);
    v
}

fn finalize_hash(s: CipherSuite, mode: Mode, input: &Vec<u8>, info: &Vec<u8>, n: &Elem) -> Vec<u8> {
    let fdst = make_dst(Label::Finalize, s, mode);
    let mut msg: Vec<u8> = Vec::new();
    push_lp(&mut msg, input);
    push_lp(&mut msg, info);
    push_lp(&mut msg, &n.serialize());
    push_lp(&mut msg, &fdst);
    hash(s, &msg)
}

/// The reference PRF: `H(framed(x, info, hash_to_curve(x) * (k + m)^(-1)))`.
fn prf(s: CipherSuite, input: &Vec<u8>, key: &Scalar, info: &Vec<u8>, mode: Mode) -> Vec<u8> {
    let point = hash_to_curve(s, input, &make_dst(Label::HashToGroup, s, mode)).unwrap();
    let mut cmsg = label_vec(Label::Context);
    let ctx = get_context_string(s, mode);
    push_bytes(&mut cmsg, &ctx);
    push_i2osp2(&mut cmsg, info.len() as u16);
    push_bytes(&mut cmsg, info);
    let m = hash_to_scalar(s, &cmsg, &make_dst(Label::HashToScalar, s, mode)).unwrap();
    let t = scalar_add(key, &m);
    let res = elem_mul(&point, &invert_scalar(&t));
    finalize_hash(s, mode, input, info, &res)
}

fn base_retrieval(s: CipherSuite) {
    let input = b"input".to_vec();
    let info = b"info".to_vec();
    let mut rng = OsEntropy {};
    let client_blind_result = NonVerifiableClient::blind(s, &input, &mut rng).unwrap();
    let server = NonVerifiableServer::new(s, &mut rng);
    let server_result = server.evaluate(&client_blind_result.message, Some(&info)).unwrap();
    let client_finalize_result = client_blind_result
        .state
        .finalize(&input, &server_result.message, Some(&info))
        .unwrap();
    let res2 = prf(s, &input, &server.get_private_key(), &info, Mode::Base);
    assert_eq!(client_finalize_result, res2);
}

fn base_inversion_unsalted(s: CipherSuite) {
    let mut rng = OsEntropy {};
    let input = rng.fill(64);
    let info = b"info".to_vec();
    let client_blind_result = NonVerifiableClient::blind(s, &input, &mut rng).unwrap();
    let message_as_evaluation = EvaluationElement::from_value_unchecked(
        client_blind_result.message.value(),
    );
    let client_finalize_result = client_blind_result
        .state
        .finalize(&input, &message_as_evaluation, Some(&info))
        .unwrap();

    let point = hash_to_curve(s, &input, &make_dst(Label::HashToGroup, s, Mode::Base)).unwrap();
    let res2 = finalize_hash(s, Mode::Base, &input, &info, &point);
    assert_eq!(client_finalize_result, res2);
}

fn verifiable_retrieval(s: CipherSuite) {
    let input = b"input".to_vec();
    let info = b"info".to_vec();
    let mut rng = OsEntropy {};
    let client_blind_result = VerifiableClient::blind(s, &input, &mut rng).unwrap();
    let server = VerifiableServer::new(s, &mut rng);
    let server_result = server
        .evaluate(&mut rng, &client_blind_result.message, Some(&info))
        .unwrap();
    let client_finalize_result = client_blind_result
        .state
        .finalize(
            &input,
            &server_result.message,
            &server_result.proof,
            &server.get_public_key(),
            Some(&info),
        )
        .unwrap();
    let res2 = prf(s, &input, &server.get_private_key(), &info, Mode::Verifiable);
    assert_eq!(client_finalize_result, res2);
}

fn verifiable_bad_public_key(s: CipherSuite) {
    let input = b"input".to_vec();
    let info = b"info".to_vec();
    let mut rng = OsEntropy {};
    let client_blind_result = VerifiableClient::blind(s, &input, &mut rng).unwrap();
    let server = VerifiableServer::new(s, &mut rng);
    let server_result = server
        .evaluate(&mut rng, &client_blind_result.message, Some(&info))
        .unwrap();
    // A group element that is almost surely not the right public key.
    let msg = b"msg".to_vec();
    let wrong_pk = hash_to_curve(s, &msg, &make_dst(Label::HashToGroup, s, Mode::Base)).unwrap();
    let client_finalize_result = client_blind_result.state.finalize(
        &input,
        &server_result.message,
        &server_result.proof,
        &wrong_pk,
        Some(&info),
    );
    assert!(client_finalize_result.is_err());
}

fn verifiable_batch_retrieval(s: CipherSuite) {
    let info = b"info".to_vec();
    let mut rng = OsEntropy {};
    let mut inputs = vec![];
    let mut client_states = vec![];
    let mut client_messages = vec![];
    let num_iterations = 10;
    for _ in 0..num_iterations {
        let input = rng.fill(32);
        let client_blind_result = VerifiableClient::blind(s, &input, &mut rng).unwrap();
        inputs.push(input);
        client_states.push(client_blind_result.state);
        client_messages.push(client_blind_result.message);
    }
    let server = VerifiableServer::new(s, &mut rng);
    let prepare_result = server
        .batch_evaluate_prepare(&client_messages, Some(&info))
        .unwrap();
    let finish_result = VerifiableServer::batch_evaluate_finish(
        &mut rng,
        &client_messages,
        &prepare_result.prepared_evaluation_elements,
        &prepare_result.t,
    )
    .unwrap();
    let client_finalize_result = VerifiableClient::batch_finalize(
        &inputs,
        &client_states,
        &finish_result.messages,
        &finish_result.proof,
        &server.get_public_key(),
        Some(&info),
    )
    .unwrap();
    let mut res2 = vec![];
    for input in inputs.iter().take(num_iterations) {
        let output = prf(s, input, &server.get_private_key(), &info, Mode::Verifiable);
        res2.push(output);
    }
    assert_eq!(client_finalize_result, res2);
}

fn verifiable_batch_bad_public_key(s: CipherSuite) {
    let info = b"info".to_vec();
    let mut rng = OsEntropy {};
    let mut inputs = vec![];
    let mut client_states = vec![];
    let mut client_messages = vec![];
    let num_iterations = 10;
    for _ in 0..num_iterations {
        let input = rng.fill(32);
        let client_blind_result = VerifiableClient::blind(s, &input, &mut rng).unwrap();
        inputs.push(input);
        client_states.push(client_blind_result.state);
        client_messages.push(client_blind_result.message);
    }
    let server = VerifiableServer::new(s, &mut rng);
    let prepare_result = server
        .batch_evaluate_prepare(&client_messages, Some(&info))
        .unwrap();
    let finish_result = VerifiableServer::batch_evaluate_finish(
        &mut rng,
        &client_messages,
        &prepare_result.prepared_evaluation_elements,
        &prepare_result.t,
    )
    .unwrap();
    let msg = b"msg".to_vec();
    let wrong_pk = hash_to_curve(s, &msg, &make_dst(Label::HashToGroup, s, Mode::Base)).unwrap();
    let client_finalize_result = VerifiableClient::batch_finalize(
        &inputs,
        &client_states,
        &finish_result.messages,
        &finish_result.proof,
        &wrong_pk,
        Some(&info),
    );
    assert!(client_finalize_result.is_err());
}

fn zeroize_base_client(s: CipherSuite) {
    let input = b"input".to_vec();
    let mut rng = OsEntropy {};
    let client_blind_result = NonVerifiableClient::blind(s, &input, &mut rng).unwrap();

    let mut state = client_blind_result.state;
    state.zeroize();
    assert!(state.serialize().iter().all(|&x| x == 0));

    let mut message = client_blind_result.message;
    message.zeroize();
    assert!(message.serialize().iter().all(|&x| x == 0));
}

fn zeroize_verifiable_client(s: CipherSuite) {
    let input = b"input".to_vec();
    let mut rng = OsEntropy {};
    let client_blind_result = VerifiableClient::blind(s, &input, &mut rng).unwrap();

    let mut state = client_blind_result.state;
    state.zeroize();
    assert!(state.serialize().iter().all(|&x| x == 0));

    let mut message = client_blind_result.message;
    message.zeroize();
    assert!(message.serialize().iter().all(|&x| x == 0));
}

fn zeroize_base_server(s: CipherSuite) {
    let input = b"input".to_vec();
    let info = b"info".to_vec();
    let mut rng = OsEntropy {};
    let client_blind_result = NonVerifiableClient::blind(s, &input, &mut rng).unwrap();
    let server = NonVerifiableServer::new(s, &mut rng);
    let server_result = server.evaluate(&client_blind_result.message, Some(&info)).unwrap();

    let mut state = server;
    state.zeroize();
    assert!(state.serialize().iter().all(|&x| x == 0));

    let mut message = server_result.message;
    message.zeroize();
    assert!(message.serialize().iter().all(|&x| x == 0));
}

fn zeroize_verifiable_server(s: CipherSuite) {
    let input = b"input".to_vec();
    let info = b"info".to_vec();
    let mut rng = OsEntropy {};
    let client_blind_result = VerifiableClient::blind(s, &input, &mut rng).unwrap();
    let server = VerifiableServer::new(s, &mut rng);
    let server_result = server
        .evaluate(&mut rng, &client_blind_result.message, Some(&info))
        .unwrap();

    let mut state = server;
    state.zeroize();
    assert!(state.serialize().iter().all(|&x| x == 0));

    let mut message = server_result.message;
    message.zeroize();
    assert!(message.serialize().iter().all(|&x| x == 0));

    let mut proof = server_result.proof;
    proof.zeroize();
    assert!(proof.serialize().iter().all(|&x| x == 0));
}

#[test]
fn test_functionality() {
    for suite in [CipherSuite::Ristretto255Sha512, CipherSuite::P256Sha256] {
        base_retrieval(suite);
        base_inversion_unsalted(suite);
        verifiable_retrieval(suite);
        verifiable_batch_retrieval(suite);
        verifiable_bad_public_key(suite);
        verifiable_batch_bad_public_key(suite);

        zeroize_base_client(suite);
        zeroize_base_server(suite);
        zeroize_verifiable_client(suite);
        zeroize_verifiable_server(suite);
    }
}
