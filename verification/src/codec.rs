//! Conversion between fixed-width byte arrays and group elements.

use crate::curve::{
    g1_encoding, g1_from_uncompressed, g1_neg, g1_opposite, g1_to_uncompressed, g1_valid,
    g2_encoding, g2_from_uncompressed, g2_neg, g2_opposite, g2_to_uncompressed, g2_valid,
    scalar_from_bytes, scalar_from_u64, scalar_value,
};
use crate::encoding::{
    g1_identity_encoding, g1_well_formed, g2_identity_encoding, g2_well_formed, le_value,
    scalar_field_modulus,
};
use bls12_381::{G1Affine, G2Affine, Scalar};
use vstd::prelude::*;

verus! {

/// Why a call on encoded elements failed.
#[derive(Clone, Copy, Debug, PartialEq, Eq, Structural)]
pub enum CodecError {
    /// Some byte string among the arguments is not the encoding of a group
    /// element: its flags or coordinates are malformed, or its point is off
    /// the curve or outside the prime-order subgroup. Of a scalar: the bytes
    /// denote an integer that is not below the order of the groups.
    InvalidEncoding,
}

/// Turns the outcome of a decoding attempt into a result: the decoded value,
/// or `InvalidEncoding` where there is none.
pub fn decoded_or_invalid<T>(decoded: Option<T>) -> (r: Result<T, CodecError>)
    ensures
        r == match decoded {
            Some(value) => Ok::<T, CodecError>(value),
            None => Err::<T, CodecError>(CodecError::InvalidEncoding),
        },
{
    match decoded {
        Some(value) => Ok(value),
        None => Err(CodecError::InvalidEncoding),
    }
}

/// Decodes a G1 element from its 96-byte uncompressed encoding.
///
/// Succeeds exactly on the valid encodings, and then encoding the element
/// gives the input back. Malformed input is rejected: wrong flags, a
/// coordinate out of range, a point off the curve. The encoding of the
/// identity is accepted.
pub fn bytes_to_g1(bytes: [u8; 96]) -> (r: Result<G1Affine, CodecError>)
    ensures
        match r {
            Ok(p) => g1_valid(bytes@) && g1_encoding(p) == bytes@,
            Err(e) => !g1_valid(bytes@) && e == CodecError::InvalidEncoding,
        },
        !g1_well_formed(bytes@) ==> r is Err,
        bytes@ == g1_identity_encoding() ==> r is Ok,
{
    decoded_or_invalid(g1_from_uncompressed(&bytes))
}

/// Encodes a G1 element in 96 bytes.
///
/// The bytes are the element's canonical encoding: `bytes_to_g1` accepts
/// them exactly where the element is a point of the subgroup, and then gives
/// an element with this same encoding.
pub fn g1_to_bytes(g1: G1Affine) -> (r: [u8; 96])
    ensures
        r@ == g1_encoding(g1),
{
    g1_to_uncompressed(&g1)
}

/// Decodes a G1 element and negates it.
///
/// Fails exactly where the bytes are no valid encoding. The result is a valid
/// element, and negating it again gives the decoded element back.
pub fn g1_bytes_neg(bytes: [u8; 96]) -> (r: Result<G1Affine, CodecError>)
    ensures
        match r {
            Ok(p) => {
                &&& g1_valid(bytes@)
                &&& g1_encoding(p) == g1_opposite(bytes@)
                &&& g1_valid(g1_encoding(p))
                &&& g1_opposite(g1_encoding(p)) == bytes@
            },
            Err(e) => !g1_valid(bytes@) && e == CodecError::InvalidEncoding,
        },
{
    match bytes_to_g1(bytes) {
        Ok(p) => Ok(g1_neg(&p)),
        Err(e) => Err(e),
    }
}

/// Decodes a G2 element from its 192-byte uncompressed encoding.
///
/// Succeeds exactly on the valid encodings, and then encoding the element
/// gives the input back. Malformed input is rejected: wrong flags, a
/// coordinate out of range, a point off the curve. The encoding of the
/// identity is accepted.
pub fn bytes_to_g2(bytes: [u8; 192]) -> (r: Result<G2Affine, CodecError>)
    ensures
        match r {
            Ok(p) => g2_valid(bytes@) && g2_encoding(p) == bytes@,
            Err(e) => !g2_valid(bytes@) && e == CodecError::InvalidEncoding,
        },
        !g2_well_formed(bytes@) ==> r is Err,
        bytes@ == g2_identity_encoding() ==> r is Ok,
{
    decoded_or_invalid(g2_from_uncompressed(&bytes))
}

/// Encodes a G2 element in 192 bytes.
///
/// The bytes are the element's canonical encoding: `bytes_to_g2` accepts
/// them exactly where the element is a point of the subgroup, and then gives
/// an element with this same encoding.
pub fn g2_to_bytes(g2: G2Affine) -> (r: [u8; 192])
    ensures
        r@ == g2_encoding(g2),
{
    g2_to_uncompressed(&g2)
}

/// Decodes a G2 element and negates it.
///
/// Fails exactly where the bytes are no valid encoding. The result is a valid
/// element, and negating it again gives the decoded element back.
pub fn g2_bytes_neg(bytes: [u8; 192]) -> (r: Result<G2Affine, CodecError>)
    ensures
        match r {
            Ok(p) => {
                &&& g2_valid(bytes@)
                &&& g2_encoding(p) == g2_opposite(bytes@)
                &&& g2_valid(g2_encoding(p))
                &&& g2_opposite(g2_encoding(p)) == bytes@
            },
            Err(e) => !g2_valid(bytes@) && e == CodecError::InvalidEncoding,
        },
{
    match bytes_to_g2(bytes) {
        Ok(p) => Ok(g2_neg(&p)),
        Err(e) => Err(e),
    }
}

/// Decodes a scalar from its 32-byte little-endian encoding.
///
/// Succeeds exactly where the encoded integer is below the order of the
/// groups, and then the scalar stands for that integer.
pub fn bytes_to_scalar(bytes: [u8; 32]) -> (r: Result<Scalar, CodecError>)
    ensures
        match r {
            Ok(k) => le_value(bytes@) < scalar_field_modulus() && scalar_value(k) == le_value(
                bytes@,
            ),
            Err(e) => le_value(bytes@) >= scalar_field_modulus() && e
                == CodecError::InvalidEncoding,
        },
{
    decoded_or_invalid(scalar_from_bytes(&bytes))
}

/// The scalar that stands for a machine integer.
pub fn u64_to_scalar(x: u64) -> (r: Scalar)
    ensures
        scalar_value(r) == x,
{
    scalar_from_u64(x)
}

} // verus!
