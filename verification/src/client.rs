//! The client's two steps: blinding an input, and checking and unblinding
//! the server's answer.

use vstd::prelude::*;
use vstd::slice::slice_to_vec;
use rand::thread_rng;
use voprf::{EvaluationElement, Group, Ristretto255, VoprfClient};
use crate::bytes::{join, lemma_split_joined};
use crate::dleq::{Proof, ProofView};
use crate::error::Error;
use crate::group::{
    all_zero, element_from_bytes, is_element, is_scalar, scalar_decodes, zero_bytes,
    GroupElement, Scalar, SCALAR_LEN,
};
use crate::wire::{decode_evaluation, evaluation_from_bytes};

verus! {

/// The longest input that can be blinded: its length must fit in the two
/// bytes that precede it when the output is hashed.
pub const MAX_INPUT_LEN: usize = 65535;

/// Length in bytes of the final output.
pub const OUTPUT_LEN: usize = 64;

/// The encoding of the element that blinding `input` with the scalar
/// encoded by `factor` gives, or `None` where the group refuses the input.
pub uninterp spec fn blinded_message(input: Seq<u8>, factor: Seq<u8>) -> Option<Seq<u8>>;

/// Whether the client accepts the encoded proof as binding the evaluated
/// element to the public key for the blinded element that it sent.
pub uninterp spec fn proof_accepted(
    blinded: Seq<u8>,
    evaluation: Seq<u8>,
    proof: Seq<u8>,
    public_key: Seq<u8>,
) -> bool;

/// The output that the client hashes from its input and from the evaluated
/// element with the blinding factor removed.
pub uninterp spec fn unblinded_output(factor: Seq<u8>, input: Seq<u8>, evaluation: Seq<u8>) -> Seq<
    u8,
>;

/// Calls `Group::random_scalar` of `voprf::Ristretto255` on the thread's
/// generator and encodes the scalar with `Group::serialize_scalar`.
/// Trusted: an encoded scalar has 32 bytes; they are not all zero, since
/// `random_scalar` draws again until the scalar is not zero; and they are
/// the canonical encoding of that reduced scalar, which
/// `Group::deserialize_scalar` accepts. Nothing is claimed of which scalar
/// it is.
#[verifier::external_body]
pub(crate) fn random_factor() -> (r: Vec<u8>)
    ensures
        r@.len() == 32,
        r@ != zero_bytes(32),
        scalar_decodes(r@),
{
    let scalar = <Ristretto255 as Group>::random_scalar(&mut thread_rng());
    <Ristretto255 as Group>::serialize_scalar(scalar).to_vec()
}

/// Calls `VoprfClient::deterministic_blind_unchecked` for ristretto255 with
/// the scalar that `factor` encodes, and encodes the message it returns.
/// Trusted: the outcome is a function of input and factor, and an encoded
/// message has 32 bytes.
#[verifier::external_body]
pub(crate) fn blind_bytes(input: &[u8], factor: &[u8]) -> (r: Option<Vec<u8>>)
    requires
        is_scalar(factor@),
    ensures
        match r {
            Some(message) => blinded_message(input@, factor@) == Some(message@) && message@.len()
                == 32,
            None => blinded_message(input@, factor@) is None,
        },
{
    let blind = <Ristretto255 as Group>::deserialize_scalar(factor).unwrap();
    match VoprfClient::<Ristretto255>::deterministic_blind_unchecked(input, blind) {
        Ok(result) => Some(result.message.serialize().to_vec()),
        Err(_) => None,
    }
}

/// Calls `VoprfClient::finalize` for ristretto255 on the values that the
/// arguments encode. Trusted: for an input whose length fits in two bytes
/// the call fails exactly where the proof is not accepted, which is decided
/// by the state's blinded element, the evaluated element, the proof and the
/// public key; the output is hashed from the input and from the evaluated
/// element multiplied by the inverse of the state's blinding factor, and
/// has 64 bytes.
#[verifier::external_body]
pub(crate) fn finalize_bytes(
    state: &[u8],
    input: &[u8],
    evaluation: &[u8],
    proof: &[u8],
    public_key: &[u8],
) -> (r: Option<Vec<u8>>)
    requires
        state@.len() == 64,
        is_scalar(state@.subrange(0, 32)),
        is_element(state@.subrange(32, 64)),
        input@.len() <= 65535,
        is_element(evaluation@),
        proof@.len() == 64,
        is_scalar(proof@.subrange(0, 32)),
        is_scalar(proof@.subrange(32, 64)),
        is_element(public_key@),
    ensures
        r is Some <==> proof_accepted(state@.subrange(32, 64), evaluation@, proof@, public_key@),
        r matches Some(output) ==> output@ == unblinded_output(
            state@.subrange(0, 32),
            input@,
            evaluation@,
        ) && output@.len() == 64,
{
    let client = VoprfClient::<Ristretto255>::deserialize(state).unwrap();
    let element = EvaluationElement::<Ristretto255>::deserialize(evaluation).unwrap();
    let proof = voprf::Proof::<Ristretto255>::deserialize(proof).unwrap();
    let key = <Ristretto255 as Group>::deserialize_elem(public_key).unwrap();
    match client.finalize(input, &element, &proof, key) {
        Ok(output) => Some(output.to_vec()),
        Err(_) => None,
    }
}

/// What a client state holds, as plain bytes.
pub struct ClientStateView {
    pub input: Seq<u8>,
    pub factor: Seq<u8>,
    pub blinded: Seq<u8>,
}

/// What the client keeps between sending its blinded element and receiving
/// the answer: its input, the blinding factor, and the element it sent.
/// Finalizing consumes it, so that no state serves two exchanges.
pub struct ClientState {
    input: Vec<u8>,
    factor: Scalar,
    blinded: GroupElement,
}

impl View for ClientState {
    type V = ClientStateView;

    closed spec fn view(&self) -> ClientStateView {
        ClientStateView { input: self.input@, factor: self.factor@, blinded: self.blinded@ }
    }
}

/// What blinding `input` with the blinding factor encoded by `factor`
/// gives. A zero factor is never used: it is `DivisionByZero`.
pub open spec fn spec_blind(input: Seq<u8>, factor: Seq<u8>) -> Result<ClientStateView, Error> {
    if input.len() > MAX_INPUT_LEN {
        Err(Error::InvalidInput)
    } else if factor.len() != SCALAR_LEN {
        Err(Error::MalformedEncoding)
    } else if factor == zero_bytes(32) {
        Err(Error::DivisionByZero)
    } else if !scalar_decodes(factor) {
        Err(Error::InvalidScalar)
    } else {
        match blinded_message(input, factor) {
            None => Err(Error::InvalidInput),
            Some(message) => match element_from_bytes(message) {
                Err(err) => Err(err),
                Ok(_) => Ok(ClientStateView { input, factor, blinded: message }),
            },
        }
    }
}

/// Whether `r` is what blinding `input` with `factor` gives: on success the
/// state that `spec_blind` names, with the state's blinded element as the
/// message to send.
pub open spec fn is_blind_of(
    r: Result<(ClientState, GroupElement), Error>,
    input: Seq<u8>,
    factor: Seq<u8>,
) -> bool {
    match r {
        Ok((state, message)) => spec_blind(input, factor) == Ok::<ClientStateView, Error>(state@)
            && message@ == state@.blinded,
        Err(err) => spec_blind(input, factor) == Err::<ClientStateView, Error>(err),
    }
}

/// What finalizing gives: where the proof is accepted, the output, which
/// the proof has no part in; where it is not, `ProofVerificationFailed`.
pub open spec fn spec_finalize(
    state: ClientStateView,
    evaluation: Seq<u8>,
    proof: ProofView,
    public_key: Seq<u8>,
) -> Result<Seq<u8>, Error> {
    if proof_accepted(state.blinded, evaluation, proof.encoding(), public_key) {
        Ok(unblinded_output(state.factor, state.input, evaluation))
    } else {
        Err(Error::ProofVerificationFailed)
    }
}

/// What the client makes of a response body and a public key body: both
/// are decoded, the response first, and then the exchange is finalized.
pub open spec fn spec_complete(
    state: ClientStateView,
    response: Seq<u8>,
    public_key: Seq<u8>,
) -> Result<Seq<u8>, Error> {
    match evaluation_from_bytes(response) {
        Err(err) => Err(err),
        Ok((evaluation, proof)) => match element_from_bytes(public_key) {
            Err(err) => Err(err),
            Ok(key) => spec_finalize(state, evaluation, proof, key),
        },
    }
}

/// An output as plain bytes.
pub open spec fn output_view(r: Result<Vec<u8>, Error>) -> Result<Seq<u8>, Error> {
    match r {
        Ok(output) => Ok(output@),
        Err(err) => Err(err),
    }
}

/// A blinding factor of zero is never used, whatever the input: blinding
/// with it is refused with `DivisionByZero`. And where blinding succeeds,
/// the factor is a usable scalar other than zero, the blinded element is a
/// usable element, and the state keeps the input and the factor as given.
pub proof fn lemma_blinding_factor_is_usable(input: Seq<u8>, factor: Seq<u8>)
    ensures
        input.len() <= MAX_INPUT_LEN ==> spec_blind(input, zero_bytes(32)) == Err::<
            ClientStateView,
            Error,
        >(Error::DivisionByZero),
        spec_blind(input, factor) matches Ok(state) ==> {
            &&& factor != zero_bytes(32)
            &&& is_scalar(factor)
            &&& is_element(state.blinded)
            &&& state.input == input
            &&& state.factor == factor
            &&& blinded_message(input, factor) == Some(state.blinded)
        },
{
    assert(zero_bytes(32).len() == 32);
}

/// Finalizing fails in one way only, by refusing the proof. Where it
/// succeeds the output is fixed by the input, the blinding factor and the
/// evaluated element: two accepted proofs, under whatever public keys,
/// give the same output.
pub proof fn lemma_output_ignores_the_proof(
    state: ClientStateView,
    evaluation: Seq<u8>,
    proof_a: ProofView,
    key_a: Seq<u8>,
    proof_b: ProofView,
    key_b: Seq<u8>,
)
    ensures
        spec_finalize(state, evaluation, proof_a, key_a) matches Err(err) ==> err
            == Error::ProofVerificationFailed,
        spec_finalize(state, evaluation, proof_a, key_a) is Ok && spec_finalize(
            state,
            evaluation,
            proof_b,
            key_b,
        ) is Ok ==> spec_finalize(state, evaluation, proof_a, key_a) == spec_finalize(
            state,
            evaluation,
            proof_b,
            key_b,
        ),
{
}

impl ClientState {
    #[verifier::type_invariant]
    spec fn valid(self) -> bool {
        self.input@.len() <= MAX_INPUT_LEN && blinded_message(self.input@, self.factor@) == Some(
            self.blinded@,
        )
    }

    /// Blinds `input` with the blinding factor that `factor` encodes. The
    /// factor must be the canonical encoding of a nonzero scalar: a wrong
    /// length is `MalformedEncoding`, zero is `DivisionByZero`, any other
    /// unusable encoding `InvalidScalar`. An input that is too long or
    /// that the group refuses is `InvalidInput`, and a blinded element that
    /// is the identity is `InvalidElement`.
    pub fn blind_with(input: &[u8], factor: &[u8]) -> (r: Result<
        (ClientState, GroupElement),
        Error,
    >)
        ensures
            is_blind_of(r, input@, factor@),
            r matches Err(Error::MalformedEncoding) ==> factor@.len() != SCALAR_LEN,
            r matches Err(Error::InvalidScalar) ==> !scalar_decodes(factor@),
            r matches Err(Error::DivisionByZero) ==> factor@ == zero_bytes(32),
    {
        if input.len() > MAX_INPUT_LEN {
            return Err(Error::InvalidInput);
        }
        if factor.len() != SCALAR_LEN {
            return Err(Error::MalformedEncoding);
        }
        if all_zero(factor) {
            return Err(Error::DivisionByZero);
        }
        let scalar = match Scalar::deserialize(factor) {
            Ok(s) => s,
            Err(err) => {
                return Err(err);
            },
        };
        let raw = match blind_bytes(input, factor) {
            Some(raw) => raw,
            None => {
                return Err(Error::InvalidInput);
            },
        };
        let blinded = match GroupElement::deserialize(raw.as_slice()) {
            Ok(e) => e,
            Err(err) => {
                return Err(err);
            },
        };
        let message = blinded.clone();
        let state = ClientState { input: slice_to_vec(input), factor: scalar, blinded };
        Ok((state, message))
    }

    /// Blinds `input` with a freshly drawn blinding factor, which is a
    /// usable scalar and never zero. Whatever was drawn, the result is what
    /// `blind_with` gives for it, so the only failures are an input that
    /// is refused and a blinded element that is the identity.
    pub fn blind(input: &[u8]) -> (r: Result<(ClientState, GroupElement), Error>)
        ensures
            exists|factor: Seq<u8>|
                is_scalar(factor) && factor != zero_bytes(32) && #[trigger] is_blind_of(
                    r,
                    input@,
                    factor,
                ),
            input@.len() > MAX_INPUT_LEN ==> r == Err::<(ClientState, GroupElement), Error>(
                Error::InvalidInput,
            ),
            r matches Err(err) ==> err == Error::InvalidInput || err == Error::InvalidElement,
            r matches Ok((state, message)) ==> state@.input == input@ && message@ == state@.blinded,
    {
        let factor = random_factor();
        ClientState::blind_with(input, factor.as_slice())
    }

    /// The input that was blinded.
    pub fn input(&self) -> (r: &[u8])
        ensures
            r@ == self@.input,
            r@.len() <= MAX_INPUT_LEN,
    {
        proof {
            use_type_invariant(self);
        }
        self.input.as_slice()
    }

    /// The blinding factor. It stays with the client.
    pub fn blinding_factor(&self) -> (r: &Scalar)
        ensures
            r@ == self@.factor,
    {
        &self.factor
    }

    /// The element that was sent to the server: what blinding the state's
    /// input with the state's factor gives.
    pub fn blinded_element(&self) -> (r: &GroupElement)
        ensures
            r@ == self@.blinded,
            blinded_message(self@.input, self@.factor) == Some(self@.blinded),
    {
        proof {
            use_type_invariant(self);
        }
        &self.blinded
    }

    /// Checks the server's proof against `public_key` and, where it holds,
    /// removes the blinding and hashes the result with the input into the
    /// output of `OUTPUT_LEN` bytes. Where it does not hold the result is
    /// `ProofVerificationFailed` and nothing is derived from the answer.
    pub fn finalize(
        self,
        evaluation: &GroupElement,
        proof: &Proof,
        public_key: &GroupElement,
    ) -> (r: Result<Vec<u8>, Error>)
        ensures
            output_view(r) == spec_finalize(self@, evaluation@, proof@, public_key@),
            r matches Ok(output) ==> output@.len() == OUTPUT_LEN,
    {
        let state = join(self.factor.as_bytes(), self.blinded.as_bytes());
        let encoded = proof.serialize();
        proof {
            use_type_invariant(&self);
            lemma_split_joined(self.factor@, self.blinded@);
        }
        match finalize_bytes(
            state.as_slice(),
            self.input.as_slice(),
            evaluation.as_bytes(),
            encoded.as_slice(),
            public_key.as_bytes(),
        ) {
            Some(output) => Ok(output),
            None => Err(Error::ProofVerificationFailed),
        }
    }

    /// Whether the server's proof binds `evaluation` to `public_key` for
    /// the element that this state sent: exactly when finalizing would give
    /// an output. A proof that does not verify is no failure of the call;
    /// the answer is `false` and the state can be discarded.
    pub fn verify(
        &self,
        evaluation: &GroupElement,
        proof: &Proof,
        public_key: &GroupElement,
    ) -> (r: bool)
        ensures
            r == (spec_finalize(self@, evaluation@, proof@, public_key@) is Ok),
    {
        let state = join(self.factor.as_bytes(), self.blinded.as_bytes());
        let encoded = proof.serialize();
        proof {
            use_type_invariant(&self);
            lemma_split_joined(self.factor@, self.blinded@);
        }
        finalize_bytes(
            state.as_slice(),
            self.input.as_slice(),
            evaluation.as_bytes(),
            encoded.as_slice(),
            public_key.as_bytes(),
        ).is_some()
    }

    /// Finalizes from what came over the wire: the body of the evaluation
    /// response and the body of the public key response. Every length is
    /// judged before anything is decoded, and nothing is finalized unless
    /// all of it decodes.
    pub fn complete(self, response: &[u8], public_key: &[u8]) -> (r: Result<Vec<u8>, Error>)
        ensures
            output_view(r) == spec_complete(self@, response@, public_key@),
            r matches Ok(output) ==> output@.len() == OUTPUT_LEN,
    {
        let (evaluation, proof) = match decode_evaluation(response) {
            Ok(pair) => pair,
            Err(err) => {
                return Err(err);
            },
        };
        let key = match GroupElement::deserialize(public_key) {
            Ok(k) => k,
            Err(err) => {
                return Err(err);
            },
        };
        self.finalize(&evaluation, &proof, &key)
    }
}

} // verus!
