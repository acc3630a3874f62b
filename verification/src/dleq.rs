//! The server's proof that it used the key behind its public key.

use vstd::prelude::*;
use vstd::slice::slice_subrange;
use crate::bytes::{join, lemma_split_joined};
use crate::error::Error;
use crate::group::{is_scalar, scalar_decodes, Scalar, SCALAR_LEN};

verus! {

/// Length in bytes of an encoded proof: two scalars.
pub const PROOF_LEN: usize = 64;

/// What a proof holds, as encodings.
pub struct ProofView {
    pub challenge: Seq<u8>,
    pub response: Seq<u8>,
}

impl ProofView {
    /// The proof on the wire: the challenge, then the response.
    pub open spec fn encoding(self) -> Seq<u8> {
        self.challenge + self.response
    }
}

/// A proof of discrete-logarithm equality: the challenge and the response
/// to it.
#[derive(Debug, PartialEq, Eq)]
pub struct Proof {
    challenge: Scalar,
    response: Scalar,
}

impl View for Proof {
    type V = ProofView;

    closed spec fn view(&self) -> ProofView {
        ProofView { challenge: self.challenge@, response: self.response@ }
    }
}

/// What decoding a proof from `bytes` gives. The length is judged before
/// either scalar is looked at.
pub open spec fn proof_from_bytes(bytes: Seq<u8>) -> Result<ProofView, Error> {
    if bytes.len() != PROOF_LEN {
        Err(Error::MalformedEncoding)
    } else if !scalar_decodes(bytes.subrange(0, 32)) || !scalar_decodes(bytes.subrange(32, 64)) {
        Err(Error::InvalidScalar)
    } else {
        Ok(ProofView { challenge: bytes.subrange(0, 32), response: bytes.subrange(32, 64) })
    }
}

impl Clone for Proof {
    fn clone(&self) -> (r: Self)
        ensures
            r@ == self@,
    {
        Proof { challenge: self.challenge.clone(), response: self.response.clone() }
    }
}

impl Proof {
    /// Decodes a proof received from outside: `PROOF_LEN` bytes, the
    /// challenge first. Any other length is `MalformedEncoding`; a half
    /// that is no usable scalar is `InvalidScalar`.
    pub fn deserialize(bytes: &[u8]) -> (r: Result<Proof, Error>)
        ensures
            match r {
                Ok(p) => proof_from_bytes(bytes@) == Ok::<ProofView, Error>(p@),
                Err(err) => proof_from_bytes(bytes@) == Err::<ProofView, Error>(err),
            },
    {
        if bytes.len() != PROOF_LEN {
            return Err(Error::MalformedEncoding);
        }
        let challenge = match Scalar::deserialize(slice_subrange(bytes, 0, SCALAR_LEN)) {
            Ok(s) => s,
            Err(_) => {
                return Err(Error::InvalidScalar);
            },
        };
        let response = match Scalar::deserialize(slice_subrange(bytes, SCALAR_LEN, PROOF_LEN)) {
            Ok(s) => s,
            Err(_) => {
                return Err(Error::InvalidScalar);
            },
        };
        Ok(Proof { challenge, response })
    }

    /// The proof on the wire, `PROOF_LEN` bytes that decode to the same
    /// proof.
    pub fn serialize(&self) -> (r: Vec<u8>)
        ensures
            r@ == self@.encoding(),
            r@.len() == PROOF_LEN,
            is_scalar(self@.challenge),
            is_scalar(self@.response),
            proof_from_bytes(r@) == Ok::<ProofView, Error>(self@),
    {
        let r = join(self.challenge.as_bytes(), self.response.as_bytes());
        proof {
            lemma_proof_round_trip(self@);
        }
        r
    }
}

/// Decoding the encoding of a proof made of two usable scalars gives the
/// proof back, and no byte string of another length decodes.
pub proof fn lemma_proof_round_trip(p: ProofView)
    ensures
        is_scalar(p.challenge) && is_scalar(p.response) ==> proof_from_bytes(p.encoding()) == Ok::<
            ProofView,
            Error,
        >(p),
{
    if is_scalar(p.challenge) && is_scalar(p.response) {
        lemma_split_joined(p.challenge, p.response);
    }
}

/// A byte string whose length is not `PROOF_LEN` is no proof.
pub proof fn lemma_proof_wrong_length(bytes: Seq<u8>)
    ensures
        bytes.len() != PROOF_LEN ==> proof_from_bytes(bytes) == Err::<ProofView, Error>(
            Error::MalformedEncoding,
        ),
{
}

} // verus!
