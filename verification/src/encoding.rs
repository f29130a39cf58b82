//! The wire format of group elements, stated over byte sequences.
//!
//! A G1 element occupies 96 bytes: the x-coordinate followed by the
//! y-coordinate, each a big-endian integer below the base-field prime. A G2
//! element occupies 192 bytes: its coordinates lie in the quadratic extension
//! `F_p[u] / (u^2 + 1)`, and each coordinate `c0 + c1 * u` is written as `c1`
//! followed by `c0`. The three most significant bits of the first byte are
//! flags; in this uncompressed form only the infinity flag may be set, and
//! then every other bit of the encoding is zero.
//!
//! A scalar occupies 32 bytes: a little-endian integer below the order of the
//! groups.

use vstd::prelude::*;

verus! {

/// The prime `p` of the base field over which both curves are defined.
pub open spec fn base_field_modulus() -> nat {
    0x1a0111ea397fe69a4b1ba7b6434bacd764774b84f38512bf6730d2a0f6b0f6241eabfffeb153ffffb9feffffffffaaabnat
}

/// The prime `q`: the order of the three groups, and the modulus of the scalar
/// field.
pub open spec fn scalar_field_modulus() -> nat {
    0x73eda753299d7d483339d80809a1d80553bda402fffe5bfeffffffff00000001nat
}

/// The integer that a byte sequence denotes in big-endian order.
pub open spec fn be_value(bytes: Seq<u8>) -> nat
    decreases bytes.len(),
{
    if bytes.len() == 0 {
        0
    } else {
        be_value(bytes.drop_last()) * 256 + bytes.last() as nat
    }
}

/// The integer that a byte sequence denotes in little-endian order.
pub open spec fn le_value(bytes: Seq<u8>) -> nat
    decreases bytes.len(),
{
    if bytes.len() == 0 {
        0
    } else {
        bytes.first() as nat + 256 * le_value(bytes.drop_first())
    }
}

/// The most significant bit of the first byte: set on compressed encodings.
pub open spec fn compression_flag(first: u8) -> bool {
    first >= 0x80
}

/// The second most significant bit of the first byte: set on the encoding of
/// the point at infinity.
pub open spec fn infinity_flag(first: u8) -> bool {
    (first / 0x40) % 2 == 1
}

/// The third most significant bit of the first byte: used by compressed
/// encodings to select one of two y-coordinates.
pub open spec fn sort_flag(first: u8) -> bool {
    (first / 0x20) % 2 == 1
}

/// The encoding of the point at infinity in `len` bytes: the infinity flag and
/// nothing else.
pub open spec fn infinity_encoding(len: nat) -> Seq<u8> {
    Seq::new(
        len,
        |i: int|
            if i == 0 {
                0x40u8
            } else {
                0u8
            },
    )
}

/// The encoding of the identity of G1.
pub open spec fn g1_identity_encoding() -> Seq<u8> {
    infinity_encoding(96)
}

/// The encoding of the identity of G2.
pub open spec fn g2_identity_encoding() -> Seq<u8> {
    infinity_encoding(192)
}

/// The equation `y^2 = x^3 + 4` of the first curve, over the base field.
pub open spec fn g1_curve_equation(x: nat, y: nat) -> bool {
    (y * y) % base_field_modulus() == (x * x * x + 4) % base_field_modulus()
}

/// The equation `y^2 = x^3 + 4 * (1 + u)` of the second curve, for
/// `x = x0 + x1 * u` and `y = y0 + y1 * u` with `u^2 = -1`, split into its
/// two components.
pub open spec fn g2_curve_equation(x0: nat, x1: nat, y0: nat, y1: nat) -> bool {
    let p = base_field_modulus() as int;
    &&& (y0 * y0 - y1 * y1 - (x0 * x0 * x0 - 3 * x0 * x1 * x1 + 4)) % p == 0
    &&& (2 * y0 * y1 - (3 * x0 * x0 * x1 - x1 * x1 * x1 + 4)) % p == 0
}

/// What every accepted G1 encoding satisfies, short of membership in the
/// prime-order subgroup: the length, the flags, and for a finite point
/// coordinates in range that solve the curve equation.
pub open spec fn g1_well_formed(bytes: Seq<u8>) -> bool {
    &&& bytes.len() == 96
    &&& !compression_flag(bytes[0])
    &&& !sort_flag(bytes[0])
    &&& if infinity_flag(bytes[0]) {
        bytes == g1_identity_encoding()
    } else {
        let x = be_value(bytes.subrange(0, 48));
        let y = be_value(bytes.subrange(48, 96));
        &&& x < base_field_modulus()
        &&& y < base_field_modulus()
        &&& g1_curve_equation(x, y)
    }
}

/// What every accepted G2 encoding satisfies, short of membership in the
/// prime-order subgroup.
pub open spec fn g2_well_formed(bytes: Seq<u8>) -> bool {
    &&& bytes.len() == 192
    &&& !compression_flag(bytes[0])
    &&& !sort_flag(bytes[0])
    &&& if infinity_flag(bytes[0]) {
        bytes == g2_identity_encoding()
    } else {
        let x1 = be_value(bytes.subrange(0, 48));
        let x0 = be_value(bytes.subrange(48, 96));
        let y1 = be_value(bytes.subrange(96, 144));
        let y0 = be_value(bytes.subrange(144, 192));
        &&& x0 < base_field_modulus()
        &&& x1 < base_field_modulus()
        &&& y0 < base_field_modulus()
        &&& y1 < base_field_modulus()
        &&& g2_curve_equation(x0, x1, y0, y1)
    }
}

} // verus!
