//! Pairings of encoded elements: a single pairing, and the product of
//! several pairings under one shared final exponentiation.

use crate::codec::{bytes_to_g1, bytes_to_g2, CodecError};
use crate::curve::{g1_encoding, g1_valid, g2_encoding, g2_valid};
use crate::target::{
    bilinear_at, final_exponentiation, g2_prepare, gt_compose, gt_coordinates, miller_loop,
    pairing_of, pairing_product, pairing_value, prepared_pairs, prepared_point,
};
use bls12_381::{G1Affine, G2Affine, G2Prepared, Gt};
use vstd::prelude::*;

verus! {

/// The pairs of encodings that a list of encoded pairs holds.
pub open spec fn encoded_pairs(pairs: Seq<([u8; 96], [u8; 192])>) -> Seq<(Seq<u8>, Seq<u8>)> {
    Seq::new(pairs.len(), |i: int| (pairs[i].0@, pairs[i].1@))
}

/// Whether every element of a list of encoded pairs is a valid encoding.
pub open spec fn pairs_valid(pairs: Seq<([u8; 96], [u8; 192])>) -> bool {
    forall|i: int|
        0 <= i < pairs.len() ==> g1_valid((#[trigger] pairs[i]).0@) && g2_valid(pairs[i].1@)
}

/// The pairs of encodings that a list of G1 points and a list of G2 points
/// stand for, position by position.
pub open spec fn point_pairs(points: Seq<G1Affine>, others: Seq<G2Affine>) -> Seq<
    (Seq<u8>, Seq<u8>),
> {
    Seq::new(points.len(), |i: int| (g1_encoding(points[i]), g2_encoding(others[i])))
}

/// The product of the pairings of two lists of points, taken position by
/// position: every G2 point is prepared, one Miller loop runs over all pairs,
/// and one final exponentiation follows.
pub(crate) fn product_of_pairings(points: &Vec<G1Affine>, others: &Vec<G2Affine>) -> (r: Gt)
    requires
        points.len() == others.len(),
        forall|i: int| 0 <= i < points.len() ==> g1_valid(#[trigger] g1_encoding(points[i])),
        forall|i: int| 0 <= i < others.len() ==> g2_valid(#[trigger] g2_encoding(others[i])),
    ensures
        gt_coordinates(r) == pairing_product(point_pairs(points@, others@)),
{
    let mut prepared: Vec<G2Prepared> = Vec::new();
    let mut i: usize = 0;
    while i < others.len()
        invariant
            i <= others.len(),
            prepared.len() == i,
            forall|j: int|
                0 <= j < i ==> #[trigger] prepared_point(prepared[j]) == g2_encoding(others[j]),
            forall|j: int| 0 <= j < others.len() ==> g2_valid(#[trigger] g2_encoding(others[j])),
        decreases others.len() - i,
    {
        let q = g2_prepare(&others[i]);
        prepared.push(q);
        i += 1;
    }
    let m = miller_loop(points, &prepared);
    assert(prepared_pairs(points@, prepared@) =~= point_pairs(points@, others@));
    final_exponentiation(&m)
}

/// The pairing of an encoded G1 element with an encoded G2 element.
///
/// Fails exactly where one of the two is no valid encoding. The pairing is
/// bilinear: of the multiples by `a` and `b` of two valid elements it is the
/// power `a * b` of the pairing of those elements.
pub fn bytes_pairing(g1_bytes: [u8; 96], g2_bytes: [u8; 192]) -> (r: Result<Gt, CodecError>)
    ensures
        match r {
            Ok(g) => {
                &&& g1_valid(g1_bytes@)
                &&& g2_valid(g2_bytes@)
                &&& gt_coordinates(g) == pairing_value(g1_bytes@, g2_bytes@)
                &&& bilinear_at(g1_bytes@, g2_bytes@, gt_coordinates(g))
            },
            Err(e) => {
                &&& !(g1_valid(g1_bytes@) && g2_valid(g2_bytes@))
                &&& e == CodecError::InvalidEncoding
            },
        },
{
    let g1affine = match bytes_to_g1(g1_bytes) {
        Ok(p) => p,
        Err(e) => {
            return Err(e);
        },
    };
    let g2affine = match bytes_to_g2(g2_bytes) {
        Ok(q) => q,
        Err(e) => {
            return Err(e);
        },
    };
    Ok(pairing_of(&g1affine, &g2affine))
}

/// The pairing of an encoded G1 element with an encoded G2 element, computed
/// as a Miller loop over the one pair followed by the final exponentiation.
///
/// Fails exactly where one of the two is no valid encoding, and agrees with
/// `bytes_pairing` elsewhere.
pub fn bytes_multi_miller_loop(g1_bytes: [u8; 96], g2_bytes: [u8; 192]) -> (r: Result<
    Gt,
    CodecError,
>)
    ensures
        match r {
            Ok(g) => {
                &&& g1_valid(g1_bytes@)
                &&& g2_valid(g2_bytes@)
                &&& gt_coordinates(g) == pairing_value(g1_bytes@, g2_bytes@)
            },
            Err(e) => {
                &&& !(g1_valid(g1_bytes@) && g2_valid(g2_bytes@))
                &&& e == CodecError::InvalidEncoding
            },
        },
{
    let g1 = match bytes_to_g1(g1_bytes) {
        Ok(p) => p,
        Err(e) => {
            return Err(e);
        },
    };
    let g2 = match bytes_to_g2(g2_bytes) {
        Ok(q) => q,
        Err(e) => {
            return Err(e);
        },
    };
    let mut points: Vec<G1Affine> = Vec::new();
    points.push(g1);
    let mut others: Vec<G2Affine> = Vec::new();
    others.push(g2);
    let result = product_of_pairings(&points, &others);
    assert(point_pairs(points@, others@) =~= seq![(g1_bytes@, g2_bytes@)]);
    Ok(result)
}

/// The product of the pairings of a list of encoded pairs, in the order of
/// the list, under one shared final exponentiation; the identity of the
/// target group for the empty list.
///
/// Fails exactly where some element of some pair is no valid encoding.
pub fn multi_pairing(pairs: &Vec<([u8; 96], [u8; 192])>) -> (r: Result<Gt, CodecError>)
    ensures
        match r {
            Ok(g) => {
                &&& pairs_valid(pairs@)
                &&& gt_coordinates(g) == pairing_product(encoded_pairs(pairs@))
            },
            Err(e) => !pairs_valid(pairs@) && e == CodecError::InvalidEncoding,
        },
{
    let mut points: Vec<G1Affine> = Vec::new();
    let mut others: Vec<G2Affine> = Vec::new();
    let mut i: usize = 0;
    while i < pairs.len()
        invariant
            i <= pairs.len(),
            points.len() == i,
            others.len() == i,
            forall|j: int|
                0 <= j < i ==> g1_valid((#[trigger] pairs[j]).0@) && g2_valid(pairs[j].1@),
            forall|j: int| 0 <= j < i ==> #[trigger] g1_encoding(points[j]) == pairs[j].0@,
            forall|j: int| 0 <= j < i ==> #[trigger] g2_encoding(others[j]) == pairs[j].1@,
        decreases pairs.len() - i,
    {
        let p = match bytes_to_g1(pairs[i].0) {
            Ok(p) => p,
            Err(e) => {
                return Err(e);
            },
        };
        let q = match bytes_to_g2(pairs[i].1) {
            Ok(q) => q,
            Err(e) => {
                return Err(e);
            },
        };
        points.push(p);
        others.push(q);
        i += 1;
    }
    let result = product_of_pairings(&points, &others);
    assert(point_pairs(points@, others@) =~= encoded_pairs(pairs@));
    Ok(result)
}

/// The product of the pairings of three pairs is the composition of the three
/// single pairings, taken from the left.
pub proof fn lemma_multi_pairing_of_three(
    a1: Seq<u8>,
    b1: Seq<u8>,
    a2: Seq<u8>,
    b2: Seq<u8>,
    a3: Seq<u8>,
    b3: Seq<u8>,
)
    ensures
        pairing_product(seq![(a1, b1), (a2, b2), (a3, b3)]) == gt_compose(
            gt_compose(pairing_value(a1, b1), pairing_value(a2, b2)),
            pairing_value(a3, b3),
        ),
{
    let three = seq![(a1, b1), (a2, b2), (a3, b3)];
    assert(three.drop_last() =~= seq![(a1, b1), (a2, b2)]);
    lemma_multi_pairing_of_two(a1, b1, a2, b2);
}

/// The product of the pairings of two pairs is the composition of the two
/// single pairings.
pub proof fn lemma_multi_pairing_of_two(a1: Seq<u8>, b1: Seq<u8>, a2: Seq<u8>, b2: Seq<u8>)
    ensures
        pairing_product(seq![(a1, b1), (a2, b2)]) == gt_compose(
            pairing_value(a1, b1),
            pairing_value(a2, b2),
        ),
{
    let two = seq![(a1, b1), (a2, b2)];
    let one = seq![(a1, b1)];
    assert(two.drop_last() =~= one);
    assert(pairing_product(one) == pairing_value(a1, b1));
}

} // verus!
