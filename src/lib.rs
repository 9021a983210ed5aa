//! Verification of Groth16 proofs over BN254 for passport attestations.
//!
//! A proof arrives as bytes in one of two encodings, is decoded into three
//! curve points, and is checked with the public inputs of its circuit
//! against that circuit's verification key. Identity checks bind a verdict
//! to a registered commitment and nullifier.

pub mod bytes;
pub mod field;
pub mod convert;
pub mod decode;
pub mod engine;
pub mod errors;
pub mod inputs;
pub mod keys;
pub mod groth16;
pub mod identity;
