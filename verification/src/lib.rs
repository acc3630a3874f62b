//! A verifiable oblivious pseudorandom function over ristretto255 with
//! SHA-512: the client blinds an input, the server evaluates the blinded
//! element under its key and proves that it did so, and the client checks
//! the proof and unblinds.
//!
//! Group and scalar arithmetic, hashing and the proof itself are computed
//! by the `voprf` crate. This library owns the byte-level data model, the
//! validation of everything that crosses the wire, the framing of requests
//! and responses, and the rules that decide which failure a caller sees.

pub mod error;
pub mod bytes;
pub mod group;
pub mod dleq;
pub mod keys;
pub mod wire;
pub mod client;
pub mod server;
