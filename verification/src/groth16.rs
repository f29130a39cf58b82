//! The pairing check of a Groth16 proof.
//!
//! A proof `(A, B, C)` is accepted for a verifying key
//! `(alpha, beta, gamma, delta, IC)` and public inputs `x_1 .. x_n` when
//!
//! `e(alpha, beta) = e(A, B) * e(IC_0 + x_1 * IC_1 + .. + x_n * IC_n, -gamma) * e(C, -delta)`,
//!
//! the right-hand side being one product of three pairings under a shared
//! final exponentiation.

use crate::codec::{bytes_to_g1, bytes_to_g2, CodecError};
use crate::curve::{
    g1_add, g1_encoding, g1_mul, g1_multiple, g1_sum, g1_valid, g2_neg, g2_opposite, g2_valid,
    scalar_value,
};
use crate::pairings::{point_pairs, product_of_pairings};
use crate::target::{gt_eq, pairing_of, pairing_product, pairing_value};
use bls12_381::{G1Affine, G2Affine, Scalar};
use vstd::prelude::*;

verus! {

/// A Groth16 proof: three encoded group elements.
#[derive(Clone, Debug)]
pub struct Groth16Proof {
    /// The element `A` of G1.
    pub a: [u8; 96],
    /// The element `B` of G2.
    pub b: [u8; 192],
    /// The element `C` of G1.
    pub c: [u8; 96],
}

/// A Groth16 verifying key: encoded group elements, among them one input
/// commitment for the constant term and one for each public input.
#[derive(Clone, Debug)]
pub struct VerifyingKey {
    /// The element `alpha` of G1.
    pub alpha_g1: [u8; 96],
    /// The element `beta` of G2.
    pub beta_g2: [u8; 192],
    /// The element `gamma` of G2.
    pub gamma_g2: [u8; 192],
    /// The element `delta` of G2.
    pub delta_g2: [u8; 192],
    /// The input commitments `IC_0, IC_1, ..` of G1.
    pub ic: Vec<[u8; 96]>,
}

impl Groth16Proof {
    /// Whether the three elements are valid encodings.
    pub open spec fn well_encoded(&self) -> bool {
        &&& g1_valid(self.a@)
        &&& g2_valid(self.b@)
        &&& g1_valid(self.c@)
    }
}

impl VerifyingKey {
    /// Whether every element of the key is a valid encoding.
    pub open spec fn well_encoded(&self) -> bool {
        &&& g1_valid(self.alpha_g1@)
        &&& g2_valid(self.beta_g2@)
        &&& g2_valid(self.gamma_g2@)
        &&& g2_valid(self.delta_g2@)
        &&& commitments_valid(self.ic@)
    }
}

/// Whether every input commitment is a valid encoding.
pub open spec fn commitments_valid(ic: Seq<[u8; 96]>) -> bool {
    forall|i: int| 0 <= i < ic.len() ==> g1_valid((#[trigger] ic[i])@)
}

/// The integers that a list of scalars stands for.
pub open spec fn input_values(inputs: Seq<Scalar>) -> Seq<nat> {
    Seq::new(inputs.len(), |i: int| scalar_value(inputs[i]))
}

/// The encoding of `IC_0 + x_1 * IC_1 + .. + x_n * IC_n`, the commitments
/// weighted by the first `n` inputs and summed from the left.
pub open spec fn input_commitment(ic: Seq<[u8; 96]>, inputs: Seq<nat>, n: nat) -> Seq<u8>
    decreases n,
{
    if n == 0 {
        ic[0]@
    } else {
        g1_sum(
            input_commitment(ic, inputs, (n - 1) as nat),
            g1_multiple(ic[n as int]@, inputs[n - 1]),
        )
    }
}

/// The verification equation, over the encodings of a proof and a key and the
/// integers of the public inputs.
pub open spec fn pairing_check(proof: Groth16Proof, vk: VerifyingKey, inputs: Seq<nat>) -> bool {
    pairing_value(vk.alpha_g1@, vk.beta_g2@) == pairing_product(
        seq![
            (proof.a@, proof.b@),
            (input_commitment(vk.ic@, inputs, inputs.len()), g2_opposite(vk.gamma_g2@)),
            (proof.c@, g2_opposite(vk.delta_g2@)),
        ],
    )
}

/// Combines the input commitments with the public inputs:
/// `IC_0 + x_1 * IC_1 + .. + x_n * IC_n`.
///
/// Fails exactly where some commitment is no valid encoding.
pub fn accumulate_inputs(ic: &Vec<[u8; 96]>, public_inputs: &Vec<Scalar>) -> (r: Result<
    G1Affine,
    CodecError,
>)
    requires
        ic.len() == public_inputs.len() + 1,
    ensures
        match r {
            Ok(acc) => {
                &&& commitments_valid(ic@)
                &&& g1_valid(g1_encoding(acc))
                &&& g1_encoding(acc) == input_commitment(
                    ic@,
                    input_values(public_inputs@),
                    public_inputs.len() as nat,
                )
            },
            Err(e) => !commitments_valid(ic@) && e == CodecError::InvalidEncoding,
        },
{
    let mut acc = match bytes_to_g1(ic[0]) {
        Ok(p) => p,
        Err(e) => {
            return Err(e);
        },
    };
    let mut i: usize = 0;
    while i < public_inputs.len()
        invariant
            i <= public_inputs.len(),
            ic.len() == public_inputs.len() + 1,
            forall|j: int| 0 <= j <= i ==> g1_valid((#[trigger] ic[j])@),
            g1_valid(g1_encoding(acc)),
            g1_encoding(acc) == input_commitment(ic@, input_values(public_inputs@), i as nat),
        decreases public_inputs.len() - i,
    {
        let base = match bytes_to_g1(ic[i + 1]) {
            Ok(p) => p,
            Err(e) => {
                return Err(e);
            },
        };
        let term = g1_mul(&base, &public_inputs[i]);
        acc = g1_add(&acc, &term);
        i += 1;
    }
    Ok(acc)
}

/// Decides whether a proof is accepted for a verifying key and public inputs.
///
/// Fails with `InvalidEncoding` exactly where some element of the proof or of
/// the key is no valid encoding; otherwise accepts exactly where the
/// verification equation holds.
pub fn verify(proof: &Groth16Proof, vk: &VerifyingKey, public_inputs: &Vec<Scalar>) -> (r: Result<
    bool,
    CodecError,
>)
    requires
        vk.ic.len() == public_inputs.len() + 1,
    ensures
        match r {
            Ok(accepted) => {
                &&& proof.well_encoded()
                &&& vk.well_encoded()
                &&& accepted == pairing_check(*proof, *vk, input_values(public_inputs@))
            },
            Err(e) => {
                &&& !(proof.well_encoded() && vk.well_encoded())
                &&& e == CodecError::InvalidEncoding
            },
        },
{
    let a = match bytes_to_g1(proof.a) {
        Ok(p) => p,
        Err(e) => {
            return Err(e);
        },
    };
    let b = match bytes_to_g2(proof.b) {
        Ok(q) => q,
        Err(e) => {
            return Err(e);
        },
    };
    let c = match bytes_to_g1(proof.c) {
        Ok(p) => p,
        Err(e) => {
            return Err(e);
        },
    };
    let alpha = match bytes_to_g1(vk.alpha_g1) {
        Ok(p) => p,
        Err(e) => {
            return Err(e);
        },
    };
    let beta = match bytes_to_g2(vk.beta_g2) {
        Ok(q) => q,
        Err(e) => {
            return Err(e);
        },
    };
    let gamma = match bytes_to_g2(vk.gamma_g2) {
        Ok(q) => q,
        Err(e) => {
            return Err(e);
        },
    };
    let delta = match bytes_to_g2(vk.delta_g2) {
        Ok(q) => q,
        Err(e) => {
            return Err(e);
        },
    };
    let acc = match accumulate_inputs(&vk.ic, public_inputs) {
        Ok(p) => p,
        Err(e) => {
            return Err(e);
        },
    };
    let neg_gamma = g2_neg(&gamma);
    let neg_delta = g2_neg(&delta);

    let mut points: Vec<G1Affine> = Vec::new();
    points.push(a);
    points.push(acc);
    points.push(c);
    let mut others: Vec<G2Affine> = Vec::new();
    others.push(b);
    others.push(neg_gamma);
    others.push(neg_delta);

    let left = pairing_of(&alpha, &beta);
    let right = product_of_pairings(&points, &others);
    assert(point_pairs(points@, others@) =~= seq![
        (proof.a@, proof.b@),
        (
            input_commitment(
                vk.ic@,
                input_values(public_inputs@),
                input_values(public_inputs@).len(),
            ),
            g2_opposite(vk.gamma_g2@),
        ),
        (proof.c@, g2_opposite(vk.delta_g2@)),
    ]);
    Ok(gt_eq(&left, &right))
}

} // verus!
