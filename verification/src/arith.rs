//! Group arithmetic on encoded elements: each function decodes its
//! arguments, lets the curve library compute, and encodes the result.

use crate::codec::{bytes_to_g1, bytes_to_g2, g1_to_bytes, g2_to_bytes, CodecError};
use crate::curve::{
    g1_add, g1_mul, g1_multiple, g1_opposite, g1_sum, g1_valid, g2_add, g2_mul, g2_multiple,
    g2_opposite, g2_sum, g2_valid, scalar_from_u64,
};
use crate::encoding::{g1_identity_encoding, g2_identity_encoding};
use crate::target::{gt_add, gt_compose, gt_coordinates, gt_inverse, gt_neg};
use bls12_381::Gt;
use vstd::prelude::*;

verus! {

/// Multiplies an encoded G1 element by an integer.
///
/// Fails exactly where the bytes are no valid encoding. The product is again
/// a valid encoding, and the product by zero is the identity.
pub fn bytes_g1_mul(g1_bytes: [u8; 96], x: u64) -> (r: Result<[u8; 96], CodecError>)
    ensures
        match r {
            Ok(product) => {
                &&& g1_valid(g1_bytes@)
                &&& product@ == g1_multiple(g1_bytes@, x as nat)
                &&& g1_valid(product@)
                &&& x == 0 ==> product@ == g1_identity_encoding()
            },
            Err(e) => !g1_valid(g1_bytes@) && e == CodecError::InvalidEncoding,
        },
{
    let g1 = match bytes_to_g1(g1_bytes) {
        Ok(p) => p,
        Err(e) => {
            return Err(e);
        },
    };
    let k = scalar_from_u64(x);
    Ok(g1_to_bytes(g1_mul(&g1, &k)))
}

/// Multiplies an encoded G2 element by an integer.
///
/// Fails exactly where the bytes are no valid encoding. The product is again
/// a valid encoding, and the product by zero is the identity.
pub fn bytes_g2_mul(g2_bytes: [u8; 192], x: u64) -> (r: Result<[u8; 192], CodecError>)
    ensures
        match r {
            Ok(product) => {
                &&& g2_valid(g2_bytes@)
                &&& product@ == g2_multiple(g2_bytes@, x as nat)
                &&& g2_valid(product@)
                &&& x == 0 ==> product@ == g2_identity_encoding()
            },
            Err(e) => !g2_valid(g2_bytes@) && e == CodecError::InvalidEncoding,
        },
{
    let g2 = match bytes_to_g2(g2_bytes) {
        Ok(p) => p,
        Err(e) => {
            return Err(e);
        },
    };
    let k = scalar_from_u64(x);
    Ok(g2_to_bytes(g2_mul(&g2, &k)))
}

/// Adds two encoded G1 elements.
///
/// Fails exactly where one of the two is no valid encoding. The sum is again
/// a valid encoding; adding the identity changes nothing, and an element and
/// its opposite add up to the identity.
pub fn bytes_g1_add(g1_1_bytes: [u8; 96], g1_2_bytes: [u8; 96]) -> (r: Result<
    [u8; 96],
    CodecError,
>)
    ensures
        match r {
            Ok(sum) => {
                &&& g1_valid(g1_1_bytes@)
                &&& g1_valid(g1_2_bytes@)
                &&& sum@ == g1_sum(g1_1_bytes@, g1_2_bytes@)
                &&& g1_valid(sum@)
                &&& g1_2_bytes@ == g1_identity_encoding() ==> sum@ == g1_1_bytes@
                &&& g1_2_bytes@ == g1_opposite(g1_1_bytes@) ==> sum@ == g1_identity_encoding()
            },
            Err(e) => {
                &&& !(g1_valid(g1_1_bytes@) && g1_valid(g1_2_bytes@))
                &&& e == CodecError::InvalidEncoding
            },
        },
{
    let g1_1 = match bytes_to_g1(g1_1_bytes) {
        Ok(p) => p,
        Err(e) => {
            return Err(e);
        },
    };
    let g1_2 = match bytes_to_g1(g1_2_bytes) {
        Ok(p) => p,
        Err(e) => {
            return Err(e);
        },
    };
    Ok(g1_to_bytes(g1_add(&g1_1, &g1_2)))
}

/// Adds two encoded G2 elements.
///
/// Fails exactly where one of the two is no valid encoding. The sum is again
/// a valid encoding; adding the identity changes nothing, and an element and
/// its opposite add up to the identity.
pub fn bytes_g2_add(g2_1_bytes: [u8; 192], g2_2_bytes: [u8; 192]) -> (r: Result<
    [u8; 192],
    CodecError,
>)
    ensures
        match r {
            Ok(sum) => {
                &&& g2_valid(g2_1_bytes@)
                &&& g2_valid(g2_2_bytes@)
                &&& sum@ == g2_sum(g2_1_bytes@, g2_2_bytes@)
                &&& g2_valid(sum@)
                &&& g2_2_bytes@ == g2_identity_encoding() ==> sum@ == g2_1_bytes@
                &&& g2_2_bytes@ == g2_opposite(g2_1_bytes@) ==> sum@ == g2_identity_encoding()
            },
            Err(e) => {
                &&& !(g2_valid(g2_1_bytes@) && g2_valid(g2_2_bytes@))
                &&& e == CodecError::InvalidEncoding
            },
        },
{
    let g2_1 = match bytes_to_g2(g2_1_bytes) {
        Ok(p) => p,
        Err(e) => {
            return Err(e);
        },
    };
    let g2_2 = match bytes_to_g2(g2_2_bytes) {
        Ok(p) => p,
        Err(e) => {
            return Err(e);
        },
    };
    Ok(g2_to_bytes(g2_add(&g2_1, &g2_2)))
}

/// Composes two elements of the target group.
pub fn bytes_gt_add(a: Gt, b: Gt) -> (r: Gt)
    ensures
        gt_coordinates(r) == gt_compose(gt_coordinates(a), gt_coordinates(b)),
{
    gt_add(&a, &b)
}

/// Inverts an element of the target group.
///
/// Inverting the result again gives the element back.
pub fn gt_bytes_neg(gt: Gt) -> (r: Gt)
    ensures
        gt_coordinates(r) == gt_inverse(gt_coordinates(gt)),
        gt_inverse(gt_coordinates(r)) == gt_coordinates(gt),
{
    gt_neg(&gt)
}

} // verus!
