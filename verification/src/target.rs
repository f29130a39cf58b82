//! The target group and the pairing, as the curve library provides them.
//!
//! Nothing in this module is proved. An element of the target group is
//! modelled by its twelve coordinates over the base field; the group is
//! written multiplicatively in the model, while the curve library writes its
//! operation as `+`.

use crate::curve::{g1_encoding, g1_multiple, g1_valid, g2_encoding, g2_multiple, g2_valid};
use crate::encoding::scalar_field_modulus;
use bls12_381::{multi_miller_loop, pairing, G1Affine, G2Affine, G2Prepared, Gt, MillerLoopResult};
use vstd::prelude::*;

verus! {

/// `bls12_381::Gt`, an element of the target group.
#[verifier::external_type_specification]
#[verifier::external_body]
pub struct ExGt(bls12_381::Gt);

/// `bls12_381::G2Prepared`, a G2 point with the line coefficients that the
/// Miller loop needs of it.
#[verifier::external_type_specification]
#[verifier::external_body]
pub struct ExG2Prepared(bls12_381::G2Prepared);

/// `bls12_381::MillerLoopResult`, what the Miller loop yields before the final
/// exponentiation.
#[verifier::external_type_specification]
#[verifier::external_body]
pub struct ExMillerLoopResult(bls12_381::MillerLoopResult);

/// The twelve coordinates of a target-group element over the base field, each
/// the integer below `p` that it stands for; the first is the coefficient of
/// `1`.
pub uninterp spec fn gt_coordinates(g: Gt) -> Seq<nat>;

/// The pairing of a G1 point and a G2 point, given by their encodings.
pub uninterp spec fn pairing_value(p: Seq<u8>, q: Seq<u8>) -> Seq<nat>;

/// The composition of two target-group elements.
pub uninterp spec fn gt_compose(a: Seq<nat>, b: Seq<nat>) -> Seq<nat>;

/// The inverse of a target-group element.
pub uninterp spec fn gt_inverse(a: Seq<nat>) -> Seq<nat>;

/// The encoding of the G2 point that a prepared element was made from.
pub uninterp spec fn prepared_point(q: G2Prepared) -> Seq<u8>;

/// The target-group element that the final exponentiation makes of a Miller
/// loop's result.
pub uninterp spec fn miller_outcome(m: MillerLoopResult) -> Seq<nat>;

/// The identity of the target group: the field element one.
pub open spec fn gt_identity() -> Seq<nat> {
    seq![1nat, 0nat, 0nat, 0nat, 0nat, 0nat, 0nat, 0nat, 0nat, 0nat, 0nat, 0nat]
}

/// The `n`-th power of a target-group element, by repeated composition.
pub open spec fn gt_power(g: Seq<nat>, n: nat) -> Seq<nat>
    decreases n,
{
    if n == 0 {
        gt_identity()
    } else if n == 1 {
        g
    } else {
        gt_compose(gt_power(g, (n - 1) as nat), g)
    }
}

/// The product of the pairings of a sequence of pairs, composed from the
/// first pair on; the identity for no pair.
pub open spec fn pairing_product(pairs: Seq<(Seq<u8>, Seq<u8>)>) -> Seq<nat>
    decreases pairs.len(),
{
    if pairs.len() == 0 {
        gt_identity()
    } else if pairs.len() == 1 {
        pairing_value(pairs[0].0, pairs[0].1)
    } else {
        gt_compose(
            pairing_product(pairs.drop_last()),
            pairing_value(pairs.last().0, pairs.last().1),
        )
    }
}

/// Bilinearity at one pair: wherever `p` is the multiple by `a` of a valid G1
/// point and `q` the multiple by `b` of a valid G2 point, `value` is the power
/// `a * b` of the pairing of those two points.
pub open spec fn bilinear_at(p: Seq<u8>, q: Seq<u8>, value: Seq<nat>) -> bool {
    forall|p0: Seq<u8>, a: nat, q0: Seq<u8>, b: nat|
        {
            &&& g1_valid(p0)
            &&& g2_valid(q0)
            &&& a < scalar_field_modulus()
            &&& b < scalar_field_modulus()
            &&& p == #[trigger] g1_multiple(p0, a)
            &&& q == #[trigger] g2_multiple(q0, b)
        } ==> value == gt_power(pairing_value(p0, q0), a * b)
}

/// The pairs of encodings that a list of points and a list of prepared
/// elements stand for, position by position.
pub open spec fn prepared_pairs(points: Seq<G1Affine>, prepared: Seq<G2Prepared>) -> Seq<
    (Seq<u8>, Seq<u8>),
> {
    Seq::new(points.len(), |i: int| (g1_encoding(points[i]), prepared_point(prepared[i])))
}

/// Calls `bls12_381::pairing`.
///
/// Trusted: the result is the pairing of the two points; the pairing is
/// bilinear, so that on the multiples by `a` and `b` of two valid points it is
/// the power `a * b` of the pairing of those points.
#[verifier::external_body]
pub(crate) fn pairing_of(p: &G1Affine, q: &G2Affine) -> (r: Gt)
    requires
        g1_valid(g1_encoding(*p)),
        g2_valid(g2_encoding(*q)),
    ensures
        gt_coordinates(r) == pairing_value(g1_encoding(*p), g2_encoding(*q)),
        bilinear_at(g1_encoding(*p), g2_encoding(*q), gt_coordinates(r)),
{
    pairing(p, q)
}

/// Calls the `From<G2Affine>` of `G2Prepared`.
///
/// Trusted: the result is prepared from the given point.
#[verifier::external_body]
pub(crate) fn g2_prepare(q: &G2Affine) -> (r: G2Prepared)
    ensures
        prepared_point(r) == g2_encoding(*q),
{
    G2Prepared::from(*q)
}

/// Calls `bls12_381::multi_miller_loop` on the pairs that the two lists form
/// position by position.
///
/// Trusted: the final exponentiation of the result is the product of the
/// pairings of the pairs.
#[verifier::external_body]
pub(crate) fn miller_loop(points: &Vec<G1Affine>, prepared: &Vec<G2Prepared>) -> (r:
    MillerLoopResult)
    requires
        points.len() == prepared.len(),
        forall|i: int| 0 <= i < points.len() ==> g1_valid(#[trigger] g1_encoding(points[i])),
        forall|i: int|
            0 <= i < prepared.len() ==> g2_valid(#[trigger] prepared_point(prepared[i])),
    ensures
        miller_outcome(r) == pairing_product(prepared_pairs(points@, prepared@)),
{
    let terms: Vec<(&G1Affine, &G2Prepared)> = points.iter().zip(prepared.iter()).collect();
    multi_miller_loop(&terms)
}

/// Calls `MillerLoopResult::final_exponentiation`.
///
/// Trusted: the result is the target-group element of the Miller loop's
/// result.
#[verifier::external_body]
pub(crate) fn final_exponentiation(m: &MillerLoopResult) -> (r: Gt)
    ensures
        gt_coordinates(r) == miller_outcome(*m),
{
    m.final_exponentiation()
}

/// Calls the `Add` of `&Gt`, the operation of the target group.
///
/// Trusted: the result is the composition of the two elements.
#[verifier::external_body]
pub(crate) fn gt_add(a: &Gt, b: &Gt) -> (r: Gt)
    ensures
        gt_coordinates(r) == gt_compose(gt_coordinates(*a), gt_coordinates(*b)),
{
    a + b
}

/// Calls the `Neg` of `&Gt`.
///
/// Trusted: the result is the inverse; inverting it gives the argument back.
#[verifier::external_body]
pub(crate) fn gt_neg(a: &Gt) -> (r: Gt)
    ensures
        gt_coordinates(r) == gt_inverse(gt_coordinates(*a)),
        gt_inverse(gt_coordinates(r)) == gt_coordinates(*a),
{
    -a
}

/// Calls the `PartialEq` of `Gt`.
///
/// Trusted: two elements are equal exactly when their coordinates are.
#[verifier::external_body]
pub(crate) fn gt_eq(a: &Gt, b: &Gt) -> (r: bool)
    ensures
        r == (gt_coordinates(*a) == gt_coordinates(*b)),
{
    a == b
}

} // verus!
