use typenum::Unsigned;
use voprf_exchange::client::{ClientState, MAX_INPUT_LEN, OUTPUT_LEN};
use voprf_exchange::dleq::{Proof, PROOF_LEN};
use voprf_exchange::error::Error;
use voprf_exchange::group::{all_zero, GroupElement, Scalar, ELEMENT_LEN, SCALAR_LEN};
use voprf_exchange::keys::KeyPair;
use voprf_exchange::server::{
    evaluate, evaluate_with, init_server, pubkey, voprf, voprf_with, NONCE_SEED_LEN,
};
use voprf_exchange::wire::{decode_evaluation, encode_evaluation, RESPONSE_LEN};

const INFO: &[u8] = b"voprf-server";

fn seed() -> Vec<u8> {
    (0u8..32).collect()
}

fn factor(low: u8) -> Vec<u8> {
    let mut f = vec![0u8; 32];
    f[0] = low;
    f[1] = 0x5a;
    f
}

fn nonce(fill: u8) -> Vec<u8> {
    vec![fill; NONCE_SEED_LEN]
}

fn server() -> KeyPair {
    KeyPair::derive_key_pair(&seed(), INFO).expect("a key pair")
}

fn hex(bytes: &[u8]) -> String {
    let mut s = String::new();
    for b in bytes {
        s.push_str(&format!("{:02x}", b));
    }
    s
}

fn round_trip(input: &[u8], factor_bytes: &[u8], nonce_seed: &[u8]) -> Vec<u8> {
    let key = server();
    let (state, message) = ClientState::blind_with(input, factor_bytes).expect("blinding");
    let request = message.serialize();
    let response = voprf_with(&key, &request, nonce_seed).expect("an evaluation");
    state.complete(&response, &pubkey(&key)).expect("an output")
}

#[test]
fn output_does_not_depend_on_the_blinding_factor() {
    let first = round_trip(b"hello", &factor(1), &nonce(9));
    let second = round_trip(b"hello", &factor(2), &nonce(9));
    assert_eq!(first.len(), OUTPUT_LEN);
    assert_eq!(first, second);
}

#[test]
fn different_factors_give_different_blinded_elements() {
    let (_, a) = ClientState::blind_with(b"hello", &factor(1)).unwrap();
    let (_, b) = ClientState::blind_with(b"hello", &factor(2)).unwrap();
    assert_ne!(a, b);
    assert_ne!(a.serialize(), b.serialize());
}

#[test]
fn output_does_not_depend_on_the_proof_nonce() {
    let first = round_trip(b"hello", &factor(1), &nonce(1));
    let second = round_trip(b"hello", &factor(1), &nonce(2));
    assert_eq!(first, second);
}

#[test]
fn output_depends_on_input_and_key() {
    let a = round_trip(b"hello", &factor(1), &nonce(1));
    let b = round_trip(b"hellp", &factor(1), &nonce(1));
    assert_ne!(a, b);

    let other = KeyPair::derive_key_pair(&vec![0x11u8; 32], INFO).unwrap();
    let (state, message) = ClientState::blind_with(b"hello", &factor(1)).unwrap();
    let response = voprf_with(&other, &message.serialize(), &nonce(1)).unwrap();
    let c = state.complete(&response, &pubkey(&other)).unwrap();
    assert_ne!(a, c);
}

#[test]
fn known_vector_round_trip() {
    let key = server();
    let (state, message) = ClientState::blind_with(b"hello", &factor(1)).unwrap();
    let response = voprf_with(&key, &message.serialize(), &nonce(9)).unwrap();
    let output = state.complete(&response, &pubkey(&key)).unwrap();
    assert_eq!(
        hex(&pubkey(&key)),
        "6cfd754632f2e584c76e10a3f4e4c13465fcb6a9b50161841f4a9a146a052e2f"
    );
    assert_eq!(
        hex(&message.serialize()),
        "3e4b9aead60b446ea263b2de61f5e831f8bc17221f9697c63a85aaab650bcc13"
    );
    assert_eq!(
        hex(&response),
        "9afe3b998eb9eca527608b36120ceef1215134d771f472fa058fda2dcd646242d3e0bb6a793cc1f00de9a78acc6a10a4c2b7d5512acc7ae4b449ac384bbc8b06f8f8de7da4427599c8edddce2df9f3ae2593cdc95a1a712a52e22488a0ecb507"
    );
    assert_eq!(
        hex(&output),
        "aff7c565faf81e502d2cd505267d9a07cdc0d992f2252b6d9d69dda9a0cdfb8f0e46a6b959456179b6b7d47bf99393d92ed5afaf98b50f292ae4e5d991a1a652"
    );
}

#[test]
fn published_vector_round_trip() {
    let key = KeyPair::derive_key_pair(&vec![0xa3u8; 32], b"test key").unwrap();
    let blind = [
        0x64u8, 0xd3, 0x7a, 0xed, 0x22, 0xa2, 0x7f, 0x51, 0x91, 0xde, 0x1c, 0x1d, 0x69, 0xfa,
        0xdb, 0x89, 0x9d, 0x88, 0x62, 0xb5, 0x8e, 0xb4, 0x22, 0x00, 0x29, 0xe0, 0x36, 0xec,
        0x4c, 0x1f, 0x67, 0x06,
    ];
    let (state, message) = ClientState::blind_with(&[0x00], &blind).unwrap();
    let response = voprf_with(&key, &message.serialize(), &nonce(9)).unwrap();
    let output = state.complete(&response, &pubkey(&key)).unwrap();
    assert_eq!(
        hex(&message.serialize()),
        "863f330cc1a1259ed5a5998a23acfd37fb4351a793a5b3c090b642ddc439b945"
    );
    assert_eq!(
        hex(&response[..ELEMENT_LEN]),
        "aa8fa048764d5623868679402ff6108d2521884fa138cd7f9c7669a9a014267e"
    );
    assert_eq!(
        hex(&output),
        "b58cfbe118e0cb94d79b5fd6a6dafb98764dff49c14e1770b566e42402da1a7da4d8527693914139caee5bd03903af43a491351d23b430948dd50cde10d32b3c"
    );
}

#[test]
fn derivation_matches_the_published_vector() {
    let key = KeyPair::derive_key_pair(&vec![0xa3u8; 32], b"test key").unwrap();
    assert_eq!(
        hex(&pubkey(&key)),
        "c803e2cc6b05fc15064549b5920659ca4a77b2cca6f04f6b357009335476ad4e"
    );
}

fn tampering_is_refused(positions: std::ops::Range<usize>) {
    let key = server();
    let public_key = pubkey(&key);
    let (_, message) = ClientState::blind_with(b"hello", &factor(1)).unwrap();
    let response = voprf_with(&key, &message.serialize(), &nonce(9)).unwrap();
    for position in positions {
        let mut tampered = response.clone();
        tampered[position] ^= 1u8 << (position % 8);
        let (state, _) = ClientState::blind_with(b"hello", &factor(1)).unwrap();
        let result = state.complete(&tampered, &public_key);
        assert!(
            matches!(
                result,
                Err(Error::ProofVerificationFailed)
                    | Err(Error::InvalidElement)
                    | Err(Error::InvalidScalar)
            ),
            "byte {}",
            position
        );
    }
}

#[test]
fn tampered_element_is_never_accepted() {
    tampering_is_refused(0..ELEMENT_LEN);
}

#[test]
fn tampered_challenge_is_never_accepted() {
    tampering_is_refused(ELEMENT_LEN..ELEMENT_LEN + SCALAR_LEN);
}

#[test]
fn tampered_response_scalar_is_never_accepted() {
    tampering_is_refused(ELEMENT_LEN + SCALAR_LEN..RESPONSE_LEN);
}

#[test]
fn tampered_proof_scalar_fails_verification() {
    let key = server();
    let (state, message) = ClientState::blind_with(b"hello", &factor(1)).unwrap();
    let blinded = GroupElement::deserialize(&message.serialize()).unwrap();
    let (element, proof) = evaluate_with(&key, &blinded, &nonce(9)).unwrap();
    let mut bytes = proof.serialize();
    bytes[0] ^= 0x01;
    let forged = Proof::deserialize(&bytes).expect("still a pair of scalars");
    assert_eq!(
        state.finalize(&element, &forged, &key.public_key()),
        Err(Error::ProofVerificationFailed)
    );
}

#[test]
fn verification_accepts_the_honest_answer_only() {
    let key = server();
    let other = KeyPair::derive_key_pair(&vec![0x11u8; 32], INFO).unwrap();
    let (state, message) = ClientState::blind_with(b"hello", &factor(1)).unwrap();
    let (element, proof) = evaluate_with(&key, &message, &nonce(9)).unwrap();
    let (forged_element, forged_proof) = evaluate_with(&other, &message, &nonce(9)).unwrap();
    assert!(state.verify(&element, &proof, &key.public_key()));
    assert!(!state.verify(&element, &proof, &other.public_key()));
    assert!(!state.verify(&forged_element, &proof, &key.public_key()));
    assert!(!state.verify(&element, &forged_proof, &key.public_key()));
    assert!(!state.verify(&forged_element, &forged_proof, &key.public_key()));
    assert!(state.verify(&forged_element, &forged_proof, &other.public_key()));
    assert!(state.finalize(&element, &proof, &key.public_key()).is_ok());
}

#[test]
fn wrong_public_key_fails_verification() {
    let key = server();
    let other = KeyPair::derive_key_pair(&vec![0x11u8; 32], INFO).unwrap();
    let (state, message) = ClientState::blind_with(b"hello", &factor(1)).unwrap();
    let response = voprf_with(&key, &message.serialize(), &nonce(9)).unwrap();
    assert_eq!(
        state.complete(&response, &pubkey(&other)),
        Err(Error::ProofVerificationFailed)
    );
}

#[test]
fn answer_to_another_request_fails_verification() {
    let key = server();
    let (state, _) = ClientState::blind_with(b"hello", &factor(1)).unwrap();
    let (_, other_message) = ClientState::blind_with(b"hello", &factor(2)).unwrap();
    let response = voprf_with(&key, &other_message.serialize(), &nonce(9)).unwrap();
    assert_eq!(
        state.complete(&response, &pubkey(&key)),
        Err(Error::ProofVerificationFailed)
    );
}

#[test]
fn element_round_trip() {
    let key = server();
    let element = key.public_key();
    let bytes = element.serialize();
    assert_eq!(bytes.len(), ELEMENT_LEN);
    assert_eq!(element.as_bytes(), &bytes[..]);
    assert_eq!(GroupElement::deserialize(&bytes), Ok(element.clone()));
    assert_eq!(GroupElement::deserialize(&bytes).unwrap().serialize(), bytes);
}

#[test]
fn scalar_round_trip() {
    let bytes = factor(7);
    let scalar = Scalar::deserialize(&bytes).unwrap();
    assert_eq!(scalar.serialize(), bytes);
    assert_eq!(scalar.as_bytes(), &bytes[..]);
    assert_eq!(Scalar::deserialize(&scalar.serialize()), Ok(scalar.clone()));
}

#[test]
fn proof_round_trip() {
    let key = server();
    let (_, message) = ClientState::blind_with(b"hello", &factor(1)).unwrap();
    let (element, proof) = evaluate_with(&key, &message, &nonce(3)).unwrap();
    let bytes = proof.serialize();
    assert_eq!(bytes.len(), PROOF_LEN);
    assert_eq!(Proof::deserialize(&bytes), Ok(proof.clone()));
    let body = encode_evaluation(&element, &proof);
    assert_eq!(body.len(), RESPONSE_LEN);
    assert_eq!(&body[..ELEMENT_LEN], &element.serialize()[..]);
    assert_eq!(&body[ELEMENT_LEN..], &bytes[..]);
    assert_eq!(decode_evaluation(&body), Ok((element, proof)));
}

#[test]
fn wrong_lengths_are_malformed() {
    let good = pubkey(&server());
    for len in [0usize, 1, 31, 33, 64] {
        let mut bytes = good.clone();
        bytes.resize(len, 7);
        assert_eq!(GroupElement::deserialize(&bytes), Err(Error::MalformedEncoding));
        assert_eq!(Scalar::deserialize(&bytes), Err(Error::MalformedEncoding));
        assert_eq!(voprf(&server(), &bytes), Err(Error::MalformedEncoding));
    }
    for len in [0usize, 32, 63, 65, 96] {
        assert_eq!(Proof::deserialize(&vec![1u8; len]), Err(Error::MalformedEncoding));
    }
    for len in [0usize, 32, 95, 97, 128] {
        assert_eq!(decode_evaluation(&vec![1u8; len]), Err(Error::MalformedEncoding));
    }
}

#[test]
fn response_of_wrong_length_is_refused_before_decoding() {
    let key = server();
    let (_, message) = ClientState::blind_with(b"hello", &factor(1)).unwrap();
    let mut response = voprf_with(&key, &message.serialize(), &nonce(9)).unwrap();
    response.push(0);
    let (state, _) = ClientState::blind_with(b"hello", &factor(1)).unwrap();
    assert_eq!(state.complete(&response, &pubkey(&key)), Err(Error::MalformedEncoding));
    response.pop();
    let (state, _) = ClientState::blind_with(b"hello", &factor(1)).unwrap();
    let mut long_key = pubkey(&key);
    long_key.push(0);
    assert_eq!(state.complete(&response, &long_key), Err(Error::MalformedEncoding));
}

#[test]
fn identity_is_rejected() {
    let identity = vec![0u8; ELEMENT_LEN];
    assert_eq!(GroupElement::deserialize(&identity), Err(Error::InvalidElement));
    assert_eq!(voprf(&server(), &identity), Err(Error::InvalidElement));
    assert_eq!(voprf_with(&server(), &identity, &nonce(1)), Err(Error::InvalidElement));
    let (state, message) = ClientState::blind_with(b"hello", &factor(1)).unwrap();
    let mut response = voprf_with(&server(), &message.serialize(), &nonce(1)).unwrap();
    for b in response.iter_mut().take(ELEMENT_LEN) {
        *b = 0;
    }
    assert_eq!(state.complete(&response, &pubkey(&server())), Err(Error::InvalidElement));
}

#[test]
fn non_canonical_encodings_are_rejected() {
    assert_eq!(GroupElement::deserialize(&vec![0xffu8; 32]), Err(Error::InvalidElement));
    assert_eq!(Scalar::deserialize(&vec![0xffu8; 32]), Err(Error::InvalidScalar));
    assert_eq!(Scalar::deserialize(&vec![0u8; 32]), Err(Error::InvalidScalar));
    let mut proof = factor(1);
    proof.extend_from_slice(&vec![0xffu8; 32]);
    assert_eq!(Proof::deserialize(&proof), Err(Error::InvalidScalar));
}

#[test]
fn zero_blinding_factor_is_never_used() {
    assert!(all_zero(&vec![0u8; SCALAR_LEN]));
    assert!(!all_zero(&factor(1)));
    assert!(all_zero(&[]));
    assert_eq!(
        ClientState::blind_with(b"hello", &vec![0u8; SCALAR_LEN]).err(),
        Some(Error::DivisionByZero)
    );
}

#[test]
fn unusable_blinding_factors_are_refused() {
    assert_eq!(
        ClientState::blind_with(b"hello", &vec![0xffu8; 32]).err(),
        Some(Error::InvalidScalar)
    );
    assert_eq!(
        ClientState::blind_with(b"hello", &vec![1u8; 31]).err(),
        Some(Error::MalformedEncoding)
    );
    assert_eq!(
        ClientState::blind_with(&vec![0u8; MAX_INPUT_LEN + 1], &factor(1)).err(),
        Some(Error::InvalidInput)
    );
    assert_eq!(ClientState::blind(&vec![0u8; MAX_INPUT_LEN + 1]).err(), Some(Error::InvalidInput));
    assert!(ClientState::blind_with(&vec![0u8; MAX_INPUT_LEN], &factor(1)).is_ok());
    assert!(ClientState::blind_with(b"", &factor(1)).is_ok());
}

#[test]
fn state_keeps_what_was_blinded() {
    let (state, message) = ClientState::blind_with(b"hello", &factor(3)).unwrap();
    assert_eq!(state.input(), b"hello");
    assert_eq!(state.blinding_factor().serialize(), factor(3));
    assert_eq!(state.blinded_element(), &message);
    assert_ne!(message.serialize(), factor(3));
}

#[test]
fn fresh_blinding_round_trip() {
    let key = server();
    let (state_a, message_a) = ClientState::blind(b"hello").unwrap();
    let (state_b, message_b) = ClientState::blind(b"hello").unwrap();
    assert_ne!(message_a, message_b);
    assert_ne!(state_a.blinding_factor(), state_b.blinding_factor());
    let response_a = voprf(&key, &message_a.serialize()).unwrap();
    let response_b = voprf(&key, &message_b.serialize()).unwrap();
    assert_eq!(response_a.len(), RESPONSE_LEN);
    let out_a = state_a.complete(&response_a, &pubkey(&key)).unwrap();
    let out_b = state_b.complete(&response_b, &pubkey(&key)).unwrap();
    assert_eq!(out_a, out_b);
    assert_eq!(out_a, round_trip(b"hello", &factor(1), &nonce(9)));
}

#[test]
fn fresh_evaluation_verifies() {
    let key = server();
    let (state, message) = ClientState::blind_with(b"hello", &factor(1)).unwrap();
    let (element, proof) = evaluate(&key, &message).unwrap();
    let (_, again) = evaluate(&key, &message).unwrap();
    assert_ne!(proof, again);
    let output = state.finalize(&element, &proof, &key.public_key()).unwrap();
    assert_eq!(output, round_trip(b"hello", &factor(1), &nonce(9)));
}

#[test]
fn evaluation_is_fixed_by_its_nonce_seed() {
    let key = server();
    let (_, message) = ClientState::blind_with(b"hello", &factor(1)).unwrap();
    let a = evaluate_with(&key, &message, &nonce(4)).unwrap();
    let b = evaluate_with(&key, &message, &nonce(4)).unwrap();
    let c = evaluate_with(&key, &message, &nonce(5)).unwrap();
    assert_eq!(a, b);
    assert_eq!(a.0, c.0);
    assert_ne!(a.1, c.1);
    assert_ne!(a.0, message);
    assert_eq!(
        evaluate_with(&key, &message, &vec![4u8; 31]).err(),
        Some(Error::MalformedEncoding)
    );
}

#[test]
fn key_derivation_is_deterministic() {
    let a = KeyPair::derive_key_pair(&seed(), INFO).unwrap();
    let b = KeyPair::derive_key_pair(&seed(), INFO).unwrap();
    assert_eq!(a.public_key(), b.public_key());
    let (_, message) = ClientState::blind_with(b"hello", &factor(1)).unwrap();
    assert_eq!(
        evaluate_with(&a, &message, &nonce(1)),
        evaluate_with(&b, &message, &nonce(1))
    );
    assert_eq!(pubkey(&a), a.public_key().serialize());
    let c = KeyPair::derive_key_pair(&seed(), b"another").unwrap();
    assert_ne!(a.public_key(), c.public_key());
    let d = KeyPair::derive_key_pair(&vec![0x11u8; 32], INFO).unwrap();
    assert_ne!(a.public_key(), d.public_key());
    assert_ne!(pubkey(&a), seed());
}

#[test]
fn short_seed_is_invalid() {
    assert_eq!(KeyPair::derive_key_pair(&[], INFO).err(), Some(Error::InvalidSeed));
    assert_eq!(KeyPair::derive_key_pair(&vec![1u8; 31], INFO).err(), Some(Error::InvalidSeed));
    assert!(KeyPair::derive_key_pair(&vec![1u8; 32], INFO).is_ok());
    assert!(KeyPair::derive_key_pair(&vec![1u8; 48], INFO).is_ok());
    assert_eq!(
        KeyPair::derive_key_pair(&vec![1u8; 32], &vec![0u8; 70000]).err(),
        Some(Error::InvalidSeed)
    );
}

#[test]
fn server_needs_its_secret() {
    assert_eq!(init_server(None).err(), Some(Error::SecretUnavailable));
    assert_eq!(init_server(Some(&[1u8; 8])).err(), Some(Error::InvalidSeed));
    assert_eq!(
        init_server(Some(&seed())).map(|k| pubkey(&k)),
        Ok(pubkey(&server()))
    );
    assert!(!Error::SecretUnavailable.is_request_scoped());
    assert!(!Error::InvalidSeed.is_request_scoped());
    assert!(Error::MalformedEncoding.is_request_scoped());
    assert!(Error::InvalidElement.is_request_scoped());
    assert!(Error::InvalidScalar.is_request_scoped());
    assert!(Error::InvalidInput.is_request_scoped());
    assert!(Error::ProofVerificationFailed.is_request_scoped());
    assert!(Error::DivisionByZero.is_request_scoped());
}

#[test]
fn lengths_agree_with_the_group() {
    assert_eq!(
        ELEMENT_LEN,
        <voprf::BlindedElementLen<voprf::Ristretto255> as Unsigned>::USIZE
    );
    assert_eq!(
        ELEMENT_LEN,
        <voprf::EvaluationElementLen<voprf::Ristretto255> as Unsigned>::USIZE
    );
    assert_eq!(PROOF_LEN, <voprf::ProofLen<voprf::Ristretto255> as Unsigned>::USIZE);
    assert_eq!(RESPONSE_LEN, ELEMENT_LEN + PROOF_LEN);
    assert_eq!(PROOF_LEN, 2 * SCALAR_LEN);
}

#[test]
fn fresh_factor_is_a_usable_scalar() {
    for _ in 0..8 {
        let (state, message) = ClientState::blind(b"hello").unwrap();
        let bytes = state.blinding_factor().serialize();
        assert!(!all_zero(&bytes));
        assert_eq!(Scalar::deserialize(&bytes).map(|s| s.serialize()), Ok(bytes.clone()));
        let (_, again) = ClientState::blind_with(b"hello", &bytes).unwrap();
        assert_eq!(again, message);
    }
}

#[test]
fn fresh_evaluations_agree_on_the_element() {
    let key = server();
    let (_, message) = ClientState::blind_with(b"hello", &factor(1)).unwrap();
    let (fixed, _) = evaluate_with(&key, &message, &nonce(4)).unwrap();
    let (a, proof_a) = evaluate(&key, &message).unwrap();
    let (b, proof_b) = evaluate(&key, &message).unwrap();
    assert_eq!(a, fixed);
    assert_eq!(b, fixed);
    assert_ne!(proof_a, proof_b);
    let first = voprf(&key, &message.serialize()).unwrap();
    let second = voprf(&key, &message.serialize()).unwrap();
    assert_eq!(&first[..ELEMENT_LEN], &fixed.serialize()[..]);
    assert_eq!(&first[..ELEMENT_LEN], &second[..ELEMENT_LEN]);
    assert_ne!(&first[ELEMENT_LEN..], &second[ELEMENT_LEN..]);
}
