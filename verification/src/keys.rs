//! The server's key pair and its derivation from a seed.

use vstd::prelude::*;
use vstd::slice::slice_subrange;
use voprf::{Ristretto255, VoprfServer};
use crate::bytes::join;
use crate::error::Error;
use crate::group::{is_element, is_scalar, GroupElement, Scalar};

verus! {

/// The shortest seed from which a key pair is derived: as many bytes as a
/// scalar has.
pub const MIN_SEED_LEN: usize = 32;

/// Length in bytes of a key pair's encoding: the secret scalar, then the
/// public element.
pub const KEY_PAIR_LEN: usize = 64;

/// The key pair that the group derives from a seed and an info label: the
/// encoding of the secret scalar followed by that of the public element, or
/// `None` where it derives none.
pub uninterp spec fn derived_key(seed: Seq<u8>, info: Seq<u8>) -> Option<Seq<u8>>;

/// Calls `VoprfServer::new_from_seed` for ristretto255 and encodes the
/// server it returns with `VoprfServer::serialize`. Trusted: the outcome is
/// a function of seed and info, and an encoded server has 64 bytes.
#[verifier::external_body]
pub(crate) fn derive_key_bytes(seed: &[u8], info: &[u8]) -> (r: Option<Vec<u8>>)
    ensures
        match r {
            Some(raw) => derived_key(seed@, info@) == Some(raw@) && raw@.len() == 64,
            None => derived_key(seed@, info@) is None,
        },
{
    match VoprfServer::<Ristretto255>::new_from_seed(seed, info) {
        Ok(server) => Some(server.serialize().to_vec()),
        Err(_) => None,
    }
}

/// What a key pair holds, as encodings.
pub struct KeyPairView {
    pub secret: Seq<u8>,
    pub public: Seq<u8>,
}

impl KeyPairView {
    /// The pair as one string: the secret scalar, then the public element.
    pub open spec fn encoding(self) -> Seq<u8> {
        self.secret + self.public
    }
}

/// The server's secret scalar and the public element that belongs to it.
/// There is no way to change one once it is made, and none to read the
/// secret scalar out of it.
pub struct KeyPair {
    secret: Scalar,
    public: GroupElement,
}

impl View for KeyPair {
    type V = KeyPairView;

    closed spec fn view(&self) -> KeyPairView {
        KeyPairView { secret: self.secret@, public: self.public@ }
    }
}

/// What deriving a key pair from `seed` and `info` gives. A seed shorter
/// than `MIN_SEED_LEN`, and one from which the group derives no usable
/// pair, is refused.
pub open spec fn spec_derive_key_pair(seed: Seq<u8>, info: Seq<u8>) -> Result<KeyPairView, Error> {
    if seed.len() < MIN_SEED_LEN {
        Err(Error::InvalidSeed)
    } else {
        match derived_key(seed, info) {
            Some(raw) => if raw.len() == KEY_PAIR_LEN && is_scalar(raw.subrange(0, 32))
                && is_element(raw.subrange(32, 64)) {
                Ok(KeyPairView { secret: raw.subrange(0, 32), public: raw.subrange(32, 64) })
            } else {
                Err(Error::InvalidSeed)
            },
            None => Err(Error::InvalidSeed),
        }
    }
}

impl KeyPair {
    /// Derives the key pair that belongs to `seed` and `info`. The same
    /// seed and info always give the same pair. The only failure is
    /// `InvalidSeed`.
    pub fn derive_key_pair(seed: &[u8], info: &[u8]) -> (r: Result<KeyPair, Error>)
        ensures
            match r {
                Ok(k) => spec_derive_key_pair(seed@, info@) == Ok::<KeyPairView, Error>(k@),
                Err(err) => spec_derive_key_pair(seed@, info@) == Err::<KeyPairView, Error>(err),
            },
            seed@.len() < MIN_SEED_LEN ==> r is Err,
    {
        if seed.len() < MIN_SEED_LEN {
            return Err(Error::InvalidSeed);
        }
        let raw = match derive_key_bytes(seed, info) {
            Some(raw) => raw,
            None => {
                return Err(Error::InvalidSeed);
            },
        };
        let secret = match Scalar::deserialize(slice_subrange(raw.as_slice(), 0, 32)) {
            Ok(s) => s,
            Err(_) => {
                return Err(Error::InvalidSeed);
            },
        };
        let public = match GroupElement::deserialize(slice_subrange(raw.as_slice(), 32, 64)) {
            Ok(e) => e,
            Err(_) => {
                return Err(Error::InvalidSeed);
            },
        };
        Ok(KeyPair { secret, public })
    }

    /// The public element, for distribution.
    pub fn public_key(&self) -> (r: GroupElement)
        ensures
            r@ == self@.public,
    {
        self.public.clone()
    }

    /// The pair as one string, for the calls that compute with it.
    pub(crate) fn encode(&self) -> (r: Vec<u8>)
        ensures
            r@ == self@.encoding(),
            r@.len() == KEY_PAIR_LEN,
            is_scalar(r@.subrange(0, 32)),
            is_element(r@.subrange(32, 64)),
    {
        let r = join(self.secret.as_bytes(), self.public.as_bytes());
        proof {
            crate::bytes::lemma_split_joined(self.secret@, self.public@);
        }
        r
    }
}

/// No seed shorter than `MIN_SEED_LEN` derives a key pair, whatever the
/// info label; and a pair that is derived holds a usable scalar and a
/// usable element.
pub proof fn lemma_derived_pair_is_usable(seed: Seq<u8>, info: Seq<u8>)
    ensures
        seed.len() < MIN_SEED_LEN ==> spec_derive_key_pair(seed, info) == Err::<
            KeyPairView,
            Error,
        >(Error::InvalidSeed),
        spec_derive_key_pair(seed, info) matches Err(err) ==> err == Error::InvalidSeed,
        spec_derive_key_pair(seed, info) matches Ok(pair) ==> is_scalar(pair.secret)
            && is_element(pair.public) && derived_key(seed, info) == Some(pair.encoding()),
{
    if spec_derive_key_pair(seed, info) is Ok {
        let raw = derived_key(seed, info)->Some_0;
        assert(raw.subrange(0, 32) + raw.subrange(32, 64) =~= raw);
    }
}

} // verus!
