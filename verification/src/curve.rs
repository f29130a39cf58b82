//! The two source groups and the scalar field, as the curve library provides
//! them.
//!
//! Nothing in this module is proved. It declares the library's types, names
//! what its operations return, and states of each operation what the rest of
//! the crate relies on. A point is modelled by its canonical uncompressed
//! encoding, a scalar by the integer it stands for.

use crate::encoding::{
    g1_identity_encoding, g1_well_formed, g2_identity_encoding, g2_well_formed, le_value,
    scalar_field_modulus,
};
use bls12_381::{G1Affine, G1Projective, G2Affine, G2Projective, Scalar};
use vstd::prelude::*;

verus! {

/// `bls12_381::G1Affine`, a point of the first source group in affine
/// coordinates.
#[verifier::external_type_specification]
#[verifier::external_body]
pub struct ExG1Affine(bls12_381::G1Affine);

/// `bls12_381::G2Affine`, a point of the second source group in affine
/// coordinates.
#[verifier::external_type_specification]
#[verifier::external_body]
pub struct ExG2Affine(bls12_381::G2Affine);

/// `bls12_381::Scalar`, an element of the scalar field.
#[verifier::external_type_specification]
#[verifier::external_body]
pub struct ExScalar(bls12_381::Scalar);

/// The 96 bytes that `G1Affine::to_uncompressed` returns for a point.
pub uninterp spec fn g1_encoding(p: G1Affine) -> Seq<u8>;

/// Whether `G1Affine::from_uncompressed` accepts a byte string: it is well
/// formed and its point lies in the prime-order subgroup.
pub uninterp spec fn g1_valid(bytes: Seq<u8>) -> bool;

/// The encoding of the sum of two G1 points, given by their encodings.
pub uninterp spec fn g1_sum(a: Seq<u8>, b: Seq<u8>) -> Seq<u8>;

/// The encoding of the multiple of a G1 point, given by its encoding, by a
/// scalar, given by its integer.
pub uninterp spec fn g1_multiple(p: Seq<u8>, k: nat) -> Seq<u8>;

/// The encoding of the negation of a G1 point, given by its encoding.
pub uninterp spec fn g1_opposite(p: Seq<u8>) -> Seq<u8>;

/// The 192 bytes that `G2Affine::to_uncompressed` returns for a point.
pub uninterp spec fn g2_encoding(p: G2Affine) -> Seq<u8>;

/// Whether `G2Affine::from_uncompressed` accepts a byte string: it is well
/// formed and its point lies in the prime-order subgroup.
pub uninterp spec fn g2_valid(bytes: Seq<u8>) -> bool;

/// The encoding of the sum of two G2 points, given by their encodings.
pub uninterp spec fn g2_sum(a: Seq<u8>, b: Seq<u8>) -> Seq<u8>;

/// The encoding of the multiple of a G2 point, given by its encoding, by a
/// scalar, given by its integer.
pub uninterp spec fn g2_multiple(p: Seq<u8>, k: nat) -> Seq<u8>;

/// The encoding of the negation of a G2 point, given by its encoding.
pub uninterp spec fn g2_opposite(p: Seq<u8>) -> Seq<u8>;

/// The integer in `[0, q)` that a scalar stands for, `q` being the order of
/// the groups.
pub uninterp spec fn scalar_value(k: Scalar) -> nat;

/// Calls `G1Affine::from_uncompressed`.
///
/// Trusted: the call accepts exactly the valid encodings; an accepted
/// encoding is well formed and is the canonical one, so encoding the point
/// again gives the same bytes; the encoding of the identity is accepted.
#[verifier::external_body]
pub(crate) fn g1_from_uncompressed(bytes: &[u8; 96]) -> (r: Option<G1Affine>)
    ensures
        r.is_some() == g1_valid(bytes@),
        r.is_some() ==> g1_encoding(r.unwrap()) == bytes@,
        r.is_some() ==> g1_well_formed(bytes@),
        bytes@ == g1_identity_encoding() ==> r.is_some(),
{
    Option::from(G1Affine::from_uncompressed(bytes))
}

/// Calls `G1Affine::to_uncompressed`.
///
/// Trusted: the result is the point's encoding.
#[verifier::external_body]
pub(crate) fn g1_to_uncompressed(p: &G1Affine) -> (r: [u8; 96])
    ensures
        r@ == g1_encoding(*p),
{
    p.to_uncompressed()
}

/// Calls the `Neg` of `&G1Affine`.
///
/// Trusted: the result is the opposite point; it is valid where the argument
/// is; negating it gives the argument back.
#[verifier::external_body]
pub(crate) fn g1_neg(p: &G1Affine) -> (r: G1Affine)
    ensures
        g1_encoding(r) == g1_opposite(g1_encoding(*p)),
        g1_valid(g1_encoding(*p)) ==> g1_valid(g1_encoding(r)),
        g1_opposite(g1_encoding(r)) == g1_encoding(*p),
{
    -p
}

/// Calls the `Add` of `G1Projective`, on the projective forms of two affine
/// points, and brings the sum back to affine form.
///
/// Trusted: the result is the sum; the sum of valid points is valid; the
/// identity is neutral; a valid point and its opposite sum to the identity.
#[verifier::external_body]
pub(crate) fn g1_add(a: &G1Affine, b: &G1Affine) -> (r: G1Affine)
    ensures
        g1_encoding(r) == g1_sum(g1_encoding(*a), g1_encoding(*b)),
        g1_valid(g1_encoding(*a)) && g1_valid(g1_encoding(*b)) ==> g1_valid(g1_encoding(r)),
        g1_valid(g1_encoding(*a)) && g1_encoding(*b) == g1_identity_encoding()
            ==> g1_encoding(r) == g1_encoding(*a),
        g1_valid(g1_encoding(*a)) && g1_encoding(*b) == g1_opposite(g1_encoding(*a))
            ==> g1_encoding(r) == g1_identity_encoding(),
{
    G1Affine::from(G1Projective::from(a) + G1Projective::from(b))
}

/// Calls the `Mul` of `&G1Affine` by `&Scalar` and brings the product back to
/// affine form.
///
/// Trusted: the result is the multiple; a multiple of a valid point is valid;
/// the multiple by zero is the identity.
#[verifier::external_body]
pub(crate) fn g1_mul(p: &G1Affine, k: &Scalar) -> (r: G1Affine)
    ensures
        g1_encoding(r) == g1_multiple(g1_encoding(*p), scalar_value(*k)),
        g1_valid(g1_encoding(*p)) ==> g1_valid(g1_encoding(r)),
        scalar_value(*k) == 0 ==> g1_encoding(r) == g1_identity_encoding(),
{
    G1Affine::from(p * k)
}

/// Calls `G2Affine::from_uncompressed`.
///
/// Trusted: the call accepts exactly the valid encodings; an accepted
/// encoding is well formed and is the canonical one, so encoding the point
/// again gives the same bytes; the encoding of the identity is accepted.
#[verifier::external_body]
pub(crate) fn g2_from_uncompressed(bytes: &[u8; 192]) -> (r: Option<G2Affine>)
    ensures
        r.is_some() == g2_valid(bytes@),
        r.is_some() ==> g2_encoding(r.unwrap()) == bytes@,
        r.is_some() ==> g2_well_formed(bytes@),
        bytes@ == g2_identity_encoding() ==> r.is_some(),
{
    Option::from(G2Affine::from_uncompressed(bytes))
}

/// Calls `G2Affine::to_uncompressed`.
///
/// Trusted: the result is the point's encoding.
#[verifier::external_body]
pub(crate) fn g2_to_uncompressed(p: &G2Affine) -> (r: [u8; 192])
    ensures
        r@ == g2_encoding(*p),
{
    p.to_uncompressed()
}

/// Calls the `Neg` of `&G2Affine`.
///
/// Trusted: the result is the opposite point; it is valid where the argument
/// is; negating it gives the argument back.
#[verifier::external_body]
pub(crate) fn g2_neg(p: &G2Affine) -> (r: G2Affine)
    ensures
        g2_encoding(r) == g2_opposite(g2_encoding(*p)),
        g2_valid(g2_encoding(*p)) ==> g2_valid(g2_encoding(r)),
        g2_opposite(g2_encoding(r)) == g2_encoding(*p),
{
    -p
}

/// Calls the `Add` of `G2Projective`, on the projective forms of two affine
/// points, and brings the sum back to affine form.
///
/// Trusted: the result is the sum; the sum of valid points is valid; the
/// identity is neutral; a valid point and its opposite sum to the identity.
#[verifier::external_body]
pub(crate) fn g2_add(a: &G2Affine, b: &G2Affine) -> (r: G2Affine)
    ensures
        g2_encoding(r) == g2_sum(g2_encoding(*a), g2_encoding(*b)),
        g2_valid(g2_encoding(*a)) && g2_valid(g2_encoding(*b)) ==> g2_valid(g2_encoding(r)),
        g2_valid(g2_encoding(*a)) && g2_encoding(*b) == g2_identity_encoding()
            ==> g2_encoding(r) == g2_encoding(*a),
        g2_valid(g2_encoding(*a)) && g2_encoding(*b) == g2_opposite(g2_encoding(*a))
            ==> g2_encoding(r) == g2_identity_encoding(),
{
    G2Affine::from(G2Projective::from(a) + G2Projective::from(b))
}

/// Calls the `Mul` of `&G2Affine` by `&Scalar` and brings the product back to
/// affine form.
///
/// Trusted: the result is the multiple; a multiple of a valid point is valid;
/// the multiple by zero is the identity.
#[verifier::external_body]
pub(crate) fn g2_mul(p: &G2Affine, k: &Scalar) -> (r: G2Affine)
    ensures
        g2_encoding(r) == g2_multiple(g2_encoding(*p), scalar_value(*k)),
        g2_valid(g2_encoding(*p)) ==> g2_valid(g2_encoding(r)),
        scalar_value(*k) == 0 ==> g2_encoding(r) == g2_identity_encoding(),
{
    G2Affine::from(p * k)
}

/// Calls the `From<u64>` of `Scalar`.
///
/// Trusted: the scalar stands for the given integer.
#[verifier::external_body]
pub(crate) fn scalar_from_u64(x: u64) -> (r: Scalar)
    ensures
        scalar_value(r) == x,
{
    Scalar::from(x)
}

/// Calls `Scalar::from_bytes`.
///
/// Trusted: the call accepts exactly the little-endian encodings of the
/// integers below the order of the groups, and the scalar stands for the
/// encoded integer.
#[verifier::external_body]
pub(crate) fn scalar_from_bytes(bytes: &[u8; 32]) -> (r: Option<Scalar>)
    ensures
        r.is_some() == (le_value(bytes@) < scalar_field_modulus()),
        r.is_some() ==> scalar_value(r.unwrap()) == le_value(bytes@),
{
    Option::from(Scalar::from_bytes(bytes))
}

} // verus!
