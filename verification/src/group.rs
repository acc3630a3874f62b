//! Group elements and scalars of ristretto255, held as their canonical
//! encodings.
//!
//! A value of either type has been decoded once, so it stands for a member
//! of the group other than the identity, or for a nonzero scalar.

use vstd::prelude::*;
use vstd::slice::slice_to_vec;
use voprf::{Group, Ristretto255};
use crate::error::Error;

verus! {

/// Length in bytes of an encoded group element.
pub const ELEMENT_LEN: usize = 32;

/// Length in bytes of an encoded scalar.
pub const SCALAR_LEN: usize = 32;

/// Whether the group accepts `bytes` as a canonical element that is not the
/// identity.
pub uninterp spec fn element_decodes(bytes: Seq<u8>) -> bool;

/// Whether the group accepts `bytes` as a canonical scalar that is not zero.
pub uninterp spec fn scalar_decodes(bytes: Seq<u8>) -> bool;

/// `n` bytes, all zero: the encoding of the identity element and of the
/// zero scalar where `n` is their length.
pub open spec fn zero_bytes(n: nat) -> Seq<u8> {
    Seq::new(n, |i: int| 0u8)
}

/// The bytes that encode a usable group element.
pub open spec fn is_element(bytes: Seq<u8>) -> bool {
    bytes.len() == ELEMENT_LEN && element_decodes(bytes)
}

/// The bytes that encode a usable scalar.
pub open spec fn is_scalar(bytes: Seq<u8>) -> bool {
    bytes.len() == SCALAR_LEN && scalar_decodes(bytes)
}

/// What decoding a group element from `bytes` gives: the length is judged
/// first, then the encoding.
pub open spec fn element_from_bytes(bytes: Seq<u8>) -> Result<Seq<u8>, Error> {
    if bytes.len() != ELEMENT_LEN {
        Err(Error::MalformedEncoding)
    } else if !element_decodes(bytes) {
        Err(Error::InvalidElement)
    } else {
        Ok(bytes)
    }
}

/// What decoding a scalar from `bytes` gives: the length is judged first,
/// then the encoding.
pub open spec fn scalar_from_bytes(bytes: Seq<u8>) -> Result<Seq<u8>, Error> {
    if bytes.len() != SCALAR_LEN {
        Err(Error::MalformedEncoding)
    } else if !scalar_decodes(bytes) {
        Err(Error::InvalidScalar)
    } else {
        Ok(bytes)
    }
}

/// Calls `Group::deserialize_elem` of `voprf::Ristretto255` and reports
/// whether it accepted the bytes. Trusted: the answer is a function of the
/// bytes, and 32 zero bytes, which encode the identity, are refused.
#[verifier::external_body]
pub(crate) fn decode_element(bytes: &[u8]) -> (ok: bool)
    ensures
        ok == element_decodes(bytes@),
        bytes@ =~= zero_bytes(32) ==> !ok,
{
    <Ristretto255 as Group>::deserialize_elem(bytes).is_ok()
}

/// Calls `Group::deserialize_scalar` of `voprf::Ristretto255` and reports
/// whether it accepted the bytes. Trusted: the answer is a function of the
/// bytes.
#[verifier::external_body]
pub(crate) fn decode_scalar(bytes: &[u8]) -> (ok: bool)
    ensures
        ok == scalar_decodes(bytes@),
{
    <Ristretto255 as Group>::deserialize_scalar(bytes).is_ok()
}

/// Whether every byte of `bytes` is zero.
pub fn all_zero(bytes: &[u8]) -> (r: bool)
    ensures
        r == (bytes@ =~= zero_bytes(bytes@.len())),
{
    let mut i: usize = 0;
    while i < bytes.len()
        invariant
            i <= bytes.len(),
            forall|k: int| 0 <= k < i ==> bytes@[k] == 0u8,
        decreases bytes.len() - i,
    {
        if bytes[i] != 0 {
            assert(zero_bytes(bytes@.len())[i as int] == 0u8);
            return false;
        }
        i += 1;
    }
    true
}

/// A member of the group other than the identity.
#[derive(Debug, PartialEq, Eq)]
pub struct GroupElement {
    bytes: Vec<u8>,
}

impl View for GroupElement {
    type V = Seq<u8>;

    /// The element's canonical encoding.
    closed spec fn view(&self) -> Seq<u8> {
        self.bytes@
    }
}

impl Clone for GroupElement {
    fn clone(&self) -> (r: Self)
        ensures
            r@ == self@,
    {
        proof {
            use_type_invariant(self);
        }
        GroupElement { bytes: slice_to_vec(self.bytes.as_slice()) }
    }
}

impl GroupElement {
    #[verifier::type_invariant]
    spec fn valid(self) -> bool {
        is_element(self.bytes@)
    }

    /// Decodes an element received from outside. A wrong length is
    /// `MalformedEncoding`; bytes of the right length that the group does
    /// not accept, the identity among them, are `InvalidElement`.
    pub fn deserialize(bytes: &[u8]) -> (r: Result<GroupElement, Error>)
        ensures
            match r {
                Ok(e) => element_from_bytes(bytes@) == Ok::<Seq<u8>, Error>(e@),
                Err(err) => element_from_bytes(bytes@) == Err::<Seq<u8>, Error>(err),
            },
            bytes@ =~= zero_bytes(32) ==> r == Err::<GroupElement, Error>(Error::InvalidElement),
    {
        if bytes.len() != ELEMENT_LEN {
            return Err(Error::MalformedEncoding);
        }
        if !decode_element(bytes) {
            return Err(Error::InvalidElement);
        }
        Ok(GroupElement { bytes: slice_to_vec(bytes) })
    }

    /// The element's canonical encoding, `ELEMENT_LEN` bytes that decode to
    /// the same element.
    pub fn serialize(&self) -> (r: Vec<u8>)
        ensures
            r@ == self@,
            is_element(r@),
            element_from_bytes(r@) == Ok::<Seq<u8>, Error>(self@),
    {
        proof {
            use_type_invariant(self);
        }
        slice_to_vec(self.bytes.as_slice())
    }

    /// The encoding, borrowed.
    pub fn as_bytes(&self) -> (r: &[u8])
        ensures
            r@ == self@,
            is_element(r@),
    {
        proof {
            use_type_invariant(self);
        }
        self.bytes.as_slice()
    }
}

/// A scalar other than zero.
#[derive(Debug, PartialEq, Eq)]
pub struct Scalar {
    bytes: Vec<u8>,
}

impl View for Scalar {
    type V = Seq<u8>;

    /// The scalar's canonical encoding.
    closed spec fn view(&self) -> Seq<u8> {
        self.bytes@
    }
}

impl Clone for Scalar {
    fn clone(&self) -> (r: Self)
        ensures
            r@ == self@,
    {
        proof {
            use_type_invariant(self);
        }
        Scalar { bytes: slice_to_vec(self.bytes.as_slice()) }
    }
}

impl Scalar {
    #[verifier::type_invariant]
    spec fn valid(self) -> bool {
        is_scalar(self.bytes@)
    }

    /// Decodes a scalar received from outside. A wrong length is
    /// `MalformedEncoding`; bytes of the right length that are not the
    /// canonical encoding of a nonzero scalar are `InvalidScalar`.
    pub fn deserialize(bytes: &[u8]) -> (r: Result<Scalar, Error>)
        ensures
            match r {
                Ok(s) => scalar_from_bytes(bytes@) == Ok::<Seq<u8>, Error>(s@),
                Err(err) => scalar_from_bytes(bytes@) == Err::<Seq<u8>, Error>(err),
            },
    {
        if bytes.len() != SCALAR_LEN {
            return Err(Error::MalformedEncoding);
        }
        if !decode_scalar(bytes) {
            return Err(Error::InvalidScalar);
        }
        Ok(Scalar { bytes: slice_to_vec(bytes) })
    }

    /// The scalar's canonical encoding, `SCALAR_LEN` bytes that decode to
    /// the same scalar.
    pub fn serialize(&self) -> (r: Vec<u8>)
        ensures
            r@ == self@,
            is_scalar(r@),
            scalar_from_bytes(r@) == Ok::<Seq<u8>, Error>(self@),
    {
        proof {
            use_type_invariant(self);
        }
        slice_to_vec(self.bytes.as_slice())
    }

    /// The encoding, borrowed.
    pub fn as_bytes(&self) -> (r: &[u8])
        ensures
            r@ == self@,
            is_scalar(r@),
    {
        proof {
            use_type_invariant(self);
        }
        self.bytes.as_slice()
    }
}

/// Decoding the encoding of a usable element gives that encoding back, and
/// no byte string of another length decodes.
pub proof fn lemma_element_round_trip(bytes: Seq<u8>)
    ensures
        is_element(bytes) ==> element_from_bytes(bytes) == Ok::<Seq<u8>, Error>(bytes),
        bytes.len() != ELEMENT_LEN ==> element_from_bytes(bytes) == Err::<Seq<u8>, Error>(
            Error::MalformedEncoding,
        ),
        element_from_bytes(bytes) is Ok <==> is_element(bytes),
{
}

/// Decoding the encoding of a usable scalar gives that encoding back, and
/// no byte string of another length decodes.
pub proof fn lemma_scalar_round_trip(bytes: Seq<u8>)
    ensures
        is_scalar(bytes) ==> scalar_from_bytes(bytes) == Ok::<Seq<u8>, Error>(bytes),
        bytes.len() != SCALAR_LEN ==> scalar_from_bytes(bytes) == Err::<Seq<u8>, Error>(
            Error::MalformedEncoding,
        ),
        scalar_from_bytes(bytes) is Ok <==> is_scalar(bytes),
{
}

} // verus!
