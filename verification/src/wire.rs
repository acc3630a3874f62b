//! The bodies that cross the wire.
//!
//! A blinded request and a public key are one encoded element each. An
//! evaluation response is the evaluated element followed by the proof. A
//! body of any other length is refused before a byte of it is decoded.

use vstd::prelude::*;
use vstd::slice::slice_subrange;
use crate::bytes::{join, lemma_split_joined};
use crate::dleq::{proof_from_bytes, Proof, ProofView};
use crate::error::Error;
use crate::group::{element_from_bytes, is_element, is_scalar, GroupElement, ELEMENT_LEN};

verus! {

/// Length in bytes of a blinded request.
pub const REQUEST_LEN: usize = 32;

/// Length in bytes of a public key response.
pub const PUBLIC_KEY_LEN: usize = 32;

/// Length in bytes of an evaluation response.
pub const RESPONSE_LEN: usize = 96;

/// The body of an evaluation response.
pub open spec fn evaluation_encoding(element: Seq<u8>, proof: ProofView) -> Seq<u8> {
    element + proof.encoding()
}

/// What decoding an evaluation response from `bytes` gives. The length of
/// the whole is judged first, then the element, then the proof.
pub open spec fn evaluation_from_bytes(bytes: Seq<u8>) -> Result<(Seq<u8>, ProofView), Error> {
    if bytes.len() != RESPONSE_LEN {
        Err(Error::MalformedEncoding)
    } else {
        match element_from_bytes(bytes.subrange(0, 32)) {
            Err(err) => Err(err),
            Ok(element) => match proof_from_bytes(bytes.subrange(32, 96)) {
                Err(err) => Err(err),
                Ok(proof) => Ok((element, proof)),
            },
        }
    }
}

/// Frames an evaluation response: the element, then the proof.
pub fn encode_evaluation(element: &GroupElement, proof: &Proof) -> (r: Vec<u8>)
    ensures
        r@ == evaluation_encoding(element@, proof@),
        r@.len() == RESPONSE_LEN,
        evaluation_from_bytes(r@) == Ok::<(Seq<u8>, ProofView), Error>((element@, proof@)),
{
    let tail = proof.serialize();
    let r = join(element.as_bytes(), tail.as_slice());
    proof {
        lemma_evaluation_round_trip(element@, proof@);
    }
    r
}

/// Takes an evaluation response apart. Any length but `RESPONSE_LEN` is
/// `MalformedEncoding`; then the element is decoded, then the proof, and
/// the first that fails gives the error.
pub fn decode_evaluation(bytes: &[u8]) -> (r: Result<(GroupElement, Proof), Error>)
    ensures
        match r {
            Ok((element, proof)) => evaluation_from_bytes(bytes@) == Ok::<
                (Seq<u8>, ProofView),
                Error,
            >((element@, proof@)),
            Err(err) => evaluation_from_bytes(bytes@) == Err::<(Seq<u8>, ProofView), Error>(err),
        },
{
    if bytes.len() != RESPONSE_LEN {
        return Err(Error::MalformedEncoding);
    }
    let element = match GroupElement::deserialize(slice_subrange(bytes, 0, ELEMENT_LEN)) {
        Ok(e) => e,
        Err(err) => {
            return Err(err);
        },
    };
    let proof = match Proof::deserialize(slice_subrange(bytes, ELEMENT_LEN, RESPONSE_LEN)) {
        Ok(p) => p,
        Err(err) => {
            return Err(err);
        },
    };
    Ok((element, proof))
}

/// Decoding the body framed from a usable element and a proof of two
/// usable scalars gives both back.
pub proof fn lemma_evaluation_round_trip(element: Seq<u8>, proof: ProofView)
    ensures
        is_element(element) && is_scalar(proof.challenge) && is_scalar(proof.response)
            ==> evaluation_from_bytes(evaluation_encoding(element, proof)) == Ok::<
            (Seq<u8>, ProofView),
            Error,
        >((element, proof)),
{
    if is_element(element) && is_scalar(proof.challenge) && is_scalar(proof.response) {
        lemma_split_joined(element, proof.encoding());
        lemma_split_joined(proof.challenge, proof.response);
    }
}

/// A body whose length is not `RESPONSE_LEN` is no evaluation response,
/// whatever it holds.
pub proof fn lemma_evaluation_wrong_length(bytes: Seq<u8>)
    ensures
        bytes.len() != RESPONSE_LEN ==> evaluation_from_bytes(bytes) == Err::<
            (Seq<u8>, ProofView),
            Error,
        >(Error::MalformedEncoding),
{
}

} // verus!
