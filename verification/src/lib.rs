//! Verification-side arithmetic over the BLS12-381 pairing-friendly curve:
//! a byte codec for group elements, group arithmetic on encoded elements,
//! pairings, and the pairing check of a Groth16 proof.
//!
//! The field arithmetic, the group law and the pairing itself are the work of
//! the `bls12_381` crate. The modules `curve` and `target` state what this
//! crate relies on from it; everything else is proved against those
//! statements.

pub mod arith;
pub mod codec;
pub mod curve;
pub mod encoding;
pub mod groth16;
pub mod pairings;
pub mod target;
