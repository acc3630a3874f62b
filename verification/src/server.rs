//! The server: start-up, evaluation of blinded elements, and the decision
//! of what to do with a request.

use vstd::prelude::*;
use rand::rngs::StdRng;
use rand::{thread_rng, RngCore, SeedableRng};
use voprf::{BlindedElement, Ristretto255, VoprfServer};
use crate::bytes::lemma_split_joined;
use crate::client::{spec_complete, unblinded_output, ClientStateView};
use crate::dleq::{proof_from_bytes, Proof, ProofView};
use crate::error::Error;
use crate::group::{
    element_from_bytes, is_element, is_scalar, zero_bytes, GroupElement, ELEMENT_LEN,
};
use crate::keys::{spec_derive_key_pair, KeyPair, KeyPairView};
use crate::wire::{
    encode_evaluation, evaluation_encoding, evaluation_from_bytes, lemma_evaluation_round_trip,
    PUBLIC_KEY_LEN, REQUEST_LEN, RESPONSE_LEN,
};

verus! {

/// Length in bytes of the seed from which the proof's nonce is drawn.
pub const NONCE_SEED_LEN: usize = 32;

/// The encoding of the element that the server evaluates a blinded element
/// to under its encoded key pair. The proof's nonce has no part in it.
pub uninterp spec fn evaluated_element(key: Seq<u8>, blinded: Seq<u8>) -> Seq<u8>;

/// The encoding of the proof that the server gives of such an evaluation
/// when it draws the proof's nonce from `nonce_seed`.
pub uninterp spec fn evaluation_proof(key: Seq<u8>, blinded: Seq<u8>, nonce_seed: Seq<u8>) -> Seq<
    u8,
>;

/// Fills 32 bytes from `rand::thread_rng` with `RngCore::fill_bytes`.
/// Trusted: the length. Nothing is claimed of the bytes.
#[verifier::external_body]
pub(crate) fn fresh_seed() -> (r: Vec<u8>)
    ensures
        r@.len() == 32,
{
    let mut seed = [0u8; 32];
    thread_rng().fill_bytes(&mut seed);
    seed.to_vec()
}

/// Calls `VoprfServer::blind_evaluate` for ristretto255 on the server and
/// the blinded element that the arguments encode, with a `rand::rngs::StdRng`
/// made from `nonce_seed` by `SeedableRng::from_seed`, and encodes the
/// message and the proof it returns. Trusted: the message is a function of
/// key and blinded element, computed before the generator is touched; the
/// proof is a function of these and the seed; an encoded element has 32
/// bytes and an encoded proof 64.
#[verifier::external_body]
pub(crate) fn evaluate_bytes(key: &[u8], blinded: &[u8], nonce_seed: &[u8]) -> (r: (
    Vec<u8>,
    Vec<u8>,
))
    requires
        key@.len() == 64,
        is_scalar(key@.subrange(0, 32)),
        is_element(key@.subrange(32, 64)),
        is_element(blinded@),
        nonce_seed@.len() == 32,
    ensures
        r.0@ == evaluated_element(key@, blinded@),
        r.1@ == evaluation_proof(key@, blinded@, nonce_seed@),
        r.0@.len() == 32,
        r.1@.len() == 64,
{
    let server = VoprfServer::<Ristretto255>::deserialize(key).unwrap();
    let element = BlindedElement::<Ristretto255>::deserialize(blinded).unwrap();
    let mut rng = StdRng::from_seed(nonce_seed.try_into().unwrap());
    let result = server.blind_evaluate(&mut rng, &element);
    (result.message.serialize().to_vec(), result.proof.serialize().to_vec())
}

/// What evaluating `blinded` under `key` gives when the proof's nonce is
/// drawn from `nonce_seed`: the evaluated element and the proof. An
/// evaluated element that is the identity is refused.
pub open spec fn spec_evaluate(key: KeyPairView, blinded: Seq<u8>, nonce_seed: Seq<u8>) -> Result<
    (Seq<u8>, ProofView),
    Error,
> {
    if nonce_seed.len() != NONCE_SEED_LEN {
        Err(Error::MalformedEncoding)
    } else {
        match element_from_bytes(evaluated_element(key.encoding(), blinded)) {
            Err(err) => Err(err),
            Ok(element) => match proof_from_bytes(
                evaluation_proof(key.encoding(), blinded, nonce_seed),
            ) {
                Err(err) => Err(err),
                Ok(proof) => Ok((element, proof)),
            },
        }
    }
}

/// Whether `r` is what evaluating `blinded` under `key` with `nonce_seed`
/// gives.
pub open spec fn is_evaluation_of(
    r: Result<(GroupElement, Proof), Error>,
    key: KeyPairView,
    blinded: Seq<u8>,
    nonce_seed: Seq<u8>,
) -> bool {
    match r {
        Ok((element, proof)) => spec_evaluate(key, blinded, nonce_seed) == Ok::<
            (Seq<u8>, ProofView),
            Error,
        >((element@, proof@)),
        Err(err) => spec_evaluate(key, blinded, nonce_seed) == Err::<(Seq<u8>, ProofView), Error>(
            err,
        ),
    }
}

/// What the server answers to the request body `request`: the blinded
/// element is decoded first, and what it evaluates to is framed as the
/// response body.
pub open spec fn spec_voprf(key: KeyPairView, request: Seq<u8>, nonce_seed: Seq<u8>) -> Result<
    Seq<u8>,
    Error,
> {
    match element_from_bytes(request) {
        Err(err) => Err(err),
        Ok(blinded) => match spec_evaluate(key, blinded, nonce_seed) {
            Err(err) => Err(err),
            Ok((element, proof)) => Ok(evaluation_encoding(element, proof)),
        },
    }
}

/// Whatever the server answers can be taken apart again: a response body
/// has `RESPONSE_LEN` bytes and decodes to the evaluated element and the
/// proof that were framed.
pub proof fn lemma_response_decodes(key: KeyPairView, request: Seq<u8>, nonce_seed: Seq<u8>)
    ensures
        spec_voprf(key, request, nonce_seed) matches Ok(body) ==> {
            &&& body.len() == RESPONSE_LEN
            &&& is_element(request)
            &&& spec_evaluate(key, request, nonce_seed) == evaluation_from_bytes(body)
        },
        !is_element(request) ==> spec_voprf(key, request, nonce_seed) == Err::<Seq<u8>, Error>(
            if request.len() != ELEMENT_LEN {
                Error::MalformedEncoding
            } else {
                Error::InvalidElement
            },
        ),
{
    if spec_voprf(key, request, nonce_seed) is Ok {
        let pair = spec_evaluate(key, request, nonce_seed)->Ok_0;
        lemma_evaluation_round_trip(pair.0, pair.1);
    }
}

/// The evaluated element is the same whatever nonce the proof is made
/// with: it is fixed by the key pair and the blinded element. Only the
/// proof differs from one evaluation to the next.
pub proof fn lemma_evaluated_element_ignores_the_nonce(
    key: KeyPairView,
    blinded: Seq<u8>,
    seed_a: Seq<u8>,
    seed_b: Seq<u8>,
)
    ensures
        spec_evaluate(key, blinded, seed_a) matches Ok(a) ==> a.0 == evaluated_element(
            key.encoding(),
            blinded,
        ) && is_element(a.0),
        spec_evaluate(key, blinded, seed_a) matches Ok(a) ==> (spec_evaluate(
            key,
            blinded,
            seed_b,
        ) matches Ok(b) ==> a.0 == b.0),
        spec_voprf(key, blinded, seed_a) matches Ok(a) ==> (spec_voprf(
            key,
            blinded,
            seed_b,
        ) matches Ok(b) ==> a.subrange(0, 32) == b.subrange(0, 32)),
{
    if spec_voprf(key, blinded, seed_a) is Ok && spec_voprf(key, blinded, seed_b) is Ok {
        let a = spec_evaluate(key, blinded, seed_a)->Ok_0;
        let b = spec_evaluate(key, blinded, seed_b)->Ok_0;
        lemma_split_joined(a.0, a.1.encoding());
        lemma_split_joined(b.0, b.1.encoding());
    }
}

/// Whatever nonce the server proves with, a client that accepts the answer
/// computes the same output: the output of an exchange is fixed by the
/// input, the blinding factor and the server's key pair.
pub proof fn lemma_output_ignores_the_nonce(
    key: KeyPairView,
    state: ClientStateView,
    public_key: Seq<u8>,
    seed_a: Seq<u8>,
    seed_b: Seq<u8>,
)
    ensures
        spec_voprf(key, state.blinded, seed_a) matches Ok(body_a) ==> (spec_complete(
            state,
            body_a,
            public_key,
        ) matches Ok(out_a) ==> out_a == unblinded_output(
            state.factor,
            state.input,
            evaluated_element(key.encoding(), state.blinded),
        )),
        spec_voprf(key, state.blinded, seed_a) matches Ok(body_a) ==> (spec_voprf(
            key,
            state.blinded,
            seed_b,
        ) matches Ok(body_b) ==> (spec_complete(state, body_a, public_key) matches Ok(out_a) ==> (
            spec_complete(state, body_b, public_key) matches Ok(out_b) ==> out_a == out_b))),
{
    lemma_response_decodes(key, state.blinded, seed_a);
    lemma_response_decodes(key, state.blinded, seed_b);
}

/// A response body as plain bytes.
pub open spec fn body_view(r: Result<Vec<u8>, Error>) -> Result<Seq<u8>, Error> {
    match r {
        Ok(body) => Ok(body@),
        Err(err) => Err(err),
    }
}

/// Evaluates a blinded element under `key` and proves it, drawing the
/// proof's nonce from `nonce_seed`, which must have `NONCE_SEED_LEN` bytes
/// (`MalformedEncoding` otherwise). A `GroupElement` is never the identity
/// nor outside the group: such bytes are refused with `InvalidElement` when
/// they are decoded.
pub fn evaluate_with(key: &KeyPair, blinded: &GroupElement, nonce_seed: &[u8]) -> (r: Result<
    (GroupElement, Proof),
    Error,
>)
    ensures
        is_evaluation_of(r, key@, blinded@, nonce_seed@),
        r matches Ok((element, proof)) ==> element@ == evaluated_element(
            key@.encoding(),
            blinded@,
        ),
        r matches Err(err) ==> (err == Error::MalformedEncoding <==> nonce_seed@.len()
            != NONCE_SEED_LEN),
        r matches Err(err) ==> err == Error::MalformedEncoding || err == Error::InvalidElement
            || err == Error::InvalidScalar,
{
    if nonce_seed.len() != NONCE_SEED_LEN {
        return Err(Error::MalformedEncoding);
    }
    let encoded = key.encode();
    let (raw_element, raw_proof) = evaluate_bytes(
        encoded.as_slice(),
        blinded.as_bytes(),
        nonce_seed,
    );
    let element = match GroupElement::deserialize(raw_element.as_slice()) {
        Ok(e) => e,
        Err(err) => {
            return Err(err);
        },
    };
    let proof = match Proof::deserialize(raw_proof.as_slice()) {
        Ok(p) => p,
        Err(err) => {
            return Err(err);
        },
    };
    Ok((element, proof))
}

/// Evaluates a blinded element under `key` and proves it with a fresh
/// nonce. Whatever was drawn, the result is what `evaluate_with` gives for
/// it.
pub fn evaluate(key: &KeyPair, blinded: &GroupElement) -> (r: Result<(GroupElement, Proof), Error>)
    ensures
        exists|nonce_seed: Seq<u8>|
            nonce_seed.len() == NONCE_SEED_LEN && #[trigger] is_evaluation_of(
                r,
                key@,
                blinded@,
                nonce_seed,
            ),
        r matches Ok((element, proof)) ==> element@ == evaluated_element(
            key@.encoding(),
            blinded@,
        ),
        r matches Err(err) ==> err == Error::InvalidElement || err == Error::InvalidScalar,
{
    let nonce_seed = fresh_seed();
    evaluate_with(key, blinded, nonce_seed.as_slice())
}

/// Answers the request body `request` with the nonce drawn from
/// `nonce_seed`: decodes the blinded element, evaluates it, and frames the
/// response.
pub fn voprf_with(server: &KeyPair, request: &[u8], nonce_seed: &[u8]) -> (r: Result<
    Vec<u8>,
    Error,
>)
    ensures
        body_view(r) == spec_voprf(server@, request@, nonce_seed@),
        request@ =~= zero_bytes(32) ==> r == Err::<Vec<u8>, Error>(Error::InvalidElement),
        r matches Ok(body) ==> body@.len() == RESPONSE_LEN && body@.subrange(0, 32)
            == evaluated_element(server@.encoding(), request@),
        nonce_seed@.len() == NONCE_SEED_LEN ==> (r matches Err(err) ==> (err
            == Error::MalformedEncoding <==> request@.len() != REQUEST_LEN)),
        r matches Err(err) ==> err == Error::MalformedEncoding || err == Error::InvalidElement
            || err == Error::InvalidScalar,
{
    let blinded = match GroupElement::deserialize(request) {
        Ok(e) => e,
        Err(err) => {
            return Err(err);
        },
    };
    match evaluate_with(server, &blinded, nonce_seed) {
        Ok((element, proof)) => Ok(encode_evaluation(&element, &proof)),
        Err(err) => Err(err),
    }
}

/// Answers the request body `request` with a fresh nonce. A body that is
/// no blinded element is refused with the error of its decoding, whatever
/// was drawn.
pub fn voprf(server: &KeyPair, request: &[u8]) -> (r: Result<Vec<u8>, Error>)
    ensures
        exists|nonce_seed: Seq<u8>|
            nonce_seed.len() == NONCE_SEED_LEN && body_view(r) == #[trigger] spec_voprf(
                server@,
                request@,
                nonce_seed,
            ),
        element_from_bytes(request@) matches Err(err) ==> r == Err::<Vec<u8>, Error>(err),
        request@.len() != REQUEST_LEN ==> r == Err::<Vec<u8>, Error>(Error::MalformedEncoding),
        request@ =~= zero_bytes(32) ==> r == Err::<Vec<u8>, Error>(Error::InvalidElement),
        r matches Ok(body) ==> body@.len() == RESPONSE_LEN && body@.subrange(0, 32)
            == evaluated_element(server@.encoding(), request@),
        r matches Err(err) ==> (err == Error::MalformedEncoding <==> request@.len()
            != REQUEST_LEN),
        r matches Err(err) ==> err == Error::MalformedEncoding || err == Error::InvalidElement
            || err == Error::InvalidScalar,
{
    let nonce_seed = fresh_seed();
    voprf_with(server, request, nonce_seed.as_slice())
}

/// The body of the public key response.
pub fn pubkey(server: &KeyPair) -> (r: Vec<u8>)
    ensures
        r@ == server@.public,
        r@.len() == PUBLIC_KEY_LEN,
        is_element(r@),
{
    let key = server.public_key();
    key.serialize()
}

/// The info label under which every server derives its key pair:
/// `voprf-server`.
pub open spec fn server_info() -> Seq<u8> {
    seq![118u8, 111u8, 112u8, 114u8, 102u8, 45u8, 115u8, 101u8, 114u8, 118u8, 101u8, 114u8]
}

/// The info label as bytes.
pub fn server_info_bytes() -> (r: Vec<u8>)
    ensures
        r@ == server_info(),
{
    let r: Vec<u8> = vec![118u8, 111u8, 112u8, 114u8, 102u8, 45u8, 115u8, 101u8, 114u8, 118u8, 101u8, 114u8];
    assert(r@ =~= server_info());
    r
}

/// What start-up gives for the secret that the store handed over, if any.
pub open spec fn spec_init_server(secret: Option<Seq<u8>>) -> Result<KeyPairView, Error> {
    match secret {
        None => Err(Error::SecretUnavailable),
        Some(seed) => spec_derive_key_pair(seed, server_info()),
    }
}

/// Makes the server's key pair at start-up from the secret seed. With no
/// secret there is no server: `SecretUnavailable`. A seed that derives no
/// key pair is `InvalidSeed`.
pub fn init_server(secret: Option<&[u8]>) -> (r: Result<KeyPair, Error>)
    ensures
        match r {
            Ok(k) => spec_init_server(secret_view(secret)) == Ok::<KeyPairView, Error>(k@),
            Err(err) => spec_init_server(secret_view(secret)) == Err::<KeyPairView, Error>(err),
        },
        r matches Err(err) ==> !err.request_scoped(),
{
    match secret {
        None => Err(Error::SecretUnavailable),
        Some(seed) => {
            let info = server_info_bytes();
            KeyPair::derive_key_pair(seed, info.as_slice())
        },
    }
}

/// A secret as plain bytes.
pub open spec fn secret_view(secret: Option<&[u8]>) -> Option<Seq<u8>> {
    match secret {
        None => None,
        Some(seed) => Some(seed@),
    }
}

/// The place where a process keeps its server: empty until the first use,
/// then filled once and never changed.
pub struct ServerCell {
    key: Option<KeyPair>,
}

impl View for ServerCell {
    type V = Option<KeyPairView>;

    closed spec fn view(&self) -> Option<KeyPairView> {
        match self.key {
            None => None,
            Some(k) => Some(k@),
        }
    }
}

impl ServerCell {
    /// A cell with no server in it yet.
    pub fn new() -> (r: ServerCell)
        ensures
            r@ is None,
    {
        ServerCell { key: None }
    }

    /// Whether the server has been made.
    pub fn is_ready(&self) -> (r: bool)
        ensures
            r == (self@ is Some),
    {
        self.key.is_some()
    }
}

/// Runs `f` on the process's server. The first call makes the server from
/// `secret`; every later call finds it and leaves it as it is, whatever
/// secret it is handed. Where the server cannot be made, `f` is not run
/// and the cell stays empty.
pub fn with_server<T, F: FnOnce(&KeyPair) -> T>(
    cell: &mut ServerCell,
    secret: Option<&[u8]>,
    f: F,
) -> (r: Result<T, Error>)
    requires
        forall|k: &KeyPair| f.requires((k,)),
    ensures
        old(cell)@ is Some ==> final(cell)@ == old(cell)@ && r is Ok,
        old(cell)@ is None ==> match spec_init_server(secret_view(secret)) {
            Ok(k) => final(cell)@ == Some(k) && r is Ok,
            Err(err) => final(cell)@ is None && r == Err::<T, Error>(err),
        },
        r matches Ok(t) ==> exists|k: &KeyPair| Some(k@) == final(cell)@ && f.ensures((k,), t),
{
    if cell.key.is_none() {
        match init_server(secret) {
            Ok(k) => {
                cell.key = Some(k);
            },
            Err(err) => {
                return Err(err);
            },
        }
    }
    match &cell.key {
        Some(k) => Ok(f(k)),
        None => Err(Error::SecretUnavailable),
    }
}

/// The methods that the service tells apart.
#[derive(Clone, Copy, Debug, PartialEq, Eq, Structural)]
pub enum Method {
    Get,
    Post,
    Other,
}

/// What to do with a request.
#[derive(Clone, Copy, Debug, PartialEq, Eq, Structural)]
pub enum Route {
    /// Evaluate the blinded element in the body.
    Evaluate,
    /// Hand out the public key.
    PublicKey,
    /// The resource exists but only takes the method named.
    MethodNotAllowed { allow: Method },
    /// The service has no such resource.
    NotFound,
}

/// The path of the evaluation resource: `/voprf`.
pub open spec fn voprf_path() -> Seq<u8> {
    seq![47u8, 118u8, 111u8, 112u8, 114u8, 102u8]
}

/// The path of the public key resource: `/pubkey`.
pub open spec fn pubkey_path() -> Seq<u8> {
    seq![47u8, 112u8, 117u8, 98u8, 107u8, 101u8, 121u8]
}

/// The route of a request by its path and method.
pub open spec fn spec_route(path: Seq<u8>, method: Method) -> Route {
    if path == voprf_path() {
        if method == Method::Post {
            Route::Evaluate
        } else {
            Route::MethodNotAllowed { allow: Method::Post }
        }
    } else if path == pubkey_path() {
        if method == Method::Get {
            Route::PublicKey
        } else {
            Route::MethodNotAllowed { allow: Method::Get }
        }
    } else {
        Route::NotFound
    }
}

/// `None` where the request's method is the one that the resource takes,
/// else the method to name in the refusal.
pub fn check_method(actual: Method, wanted: Method) -> (r: Option<Method>)
    ensures
        r == (if actual == wanted {
            None
        } else {
            Some(wanted)
        }),
{
    if actual == wanted {
        None
    } else {
        Some(wanted)
    }
}

/// Whether two byte strings are the same.
pub fn same_bytes(a: &[u8], b: &[u8]) -> (r: bool)
    ensures
        r == (a@ == b@),
{
    if a.len() != b.len() {
        return false;
    }
    let mut i: usize = 0;
    while i < a.len()
        invariant
            a@.len() == b@.len(),
            i <= a.len(),
            forall|k: int| 0 <= k < i ==> a@[k] == b@[k],
        decreases a.len() - i,
    {
        if a[i] != b[i] {
            return false;
        }
        i += 1;
    }
    assert(a@ =~= b@);
    true
}

/// Decides what to do with a request: the evaluation resource takes POST,
/// the public key resource GET, and there is no other.
pub fn route(path: &[u8], method: Method) -> (r: Route)
    ensures
        r == spec_route(path@, method),
{
    let voprf_resource: Vec<u8> = vec![47u8, 118u8, 111u8, 112u8, 114u8, 102u8];
    let pubkey_resource: Vec<u8> = vec![47u8, 112u8, 117u8, 98u8, 107u8, 101u8, 121u8];
    assert(voprf_resource@ =~= voprf_path());
    assert(pubkey_resource@ =~= pubkey_path());
    if same_bytes(path, voprf_resource.as_slice()) {
        match check_method(method, Method::Post) {
            None => Route::Evaluate,
            Some(allow) => Route::MethodNotAllowed { allow },
        }
    } else if same_bytes(path, pubkey_resource.as_slice()) {
        match check_method(method, Method::Get) {
            None => Route::PublicKey,
            Some(allow) => Route::MethodNotAllowed { allow },
        }
    } else {
        Route::NotFound
    }
}

} // verus!
