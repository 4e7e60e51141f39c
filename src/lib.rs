//! A zero-knowledge proof of knowledge of two factors `a` and `b` of a public
//! product `c`, over the scalar field of the BN254 curve, with Groth16.
//!
//! The arithmetic relation, the circuit that encodes it and the order of the
//! setup, prove and verify stages are verified here; the pairing-based
//! cryptography itself is carried out by the arkworks crates.
pub mod circuit;
pub mod field;
pub mod pipeline;
