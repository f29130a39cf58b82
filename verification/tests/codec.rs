use bls12_381::{G1Affine, G2Affine, Scalar};
use bls_core::codec::{
    bytes_to_g1, bytes_to_g2, bytes_to_scalar, decoded_or_invalid, g1_bytes_neg, g1_to_bytes,
    g2_bytes_neg, g2_to_bytes, u64_to_scalar, CodecError,
};

/// The generator of G1.
const G1_1: [u8; 96] = [
    23, 241, 211, 167, 49, 151, 215, 148, 38, 149, 99, 140, 79, 169, 172, 15, 195, 104, 140,
    79, 151, 116, 185, 5, 161, 78, 58, 63, 23, 27, 172, 88, 108, 85, 232, 63, 249, 122, 26,
    239, 251, 58, 240, 10, 219, 34, 198, 187, 8, 179, 244, 129, 227, 170, 160, 241, 160, 158,
    48, 237, 116, 29, 138, 228, 252, 245, 224, 149, 213, 208, 10, 246, 0, 219, 24, 203, 44, 4,
    179, 237, 208, 60, 199, 68, 162, 136, 138, 228, 12, 170, 35, 41, 70, 197, 231, 225,
];

/// Five times the generator of G1.
const G1_5: [u8; 96] = [
    16, 231, 121, 31, 185, 114, 254, 1, 65, 89, 170, 51, 169, 134, 34, 218, 60, 220, 152, 255,
    112, 121, 101, 229, 54, 216, 99, 107, 95, 204, 90, 199, 169, 26, 140, 70, 229, 154, 0, 220,
    165, 117, 175, 15, 24, 251, 19, 220, 22, 186, 67, 126, 220, 198, 85, 30, 48, 193, 5, 18,
    54, 116, 148, 191, 182, 176, 28, 198, 104, 30, 138, 76, 60, 210, 80, 24, 50, 171, 92, 74,
    188, 64, 180, 87, 139, 133, 203, 175, 251, 240, 188, 215, 13, 103, 198, 226,
];

/// The opposite of the generator of G1.
const G1_NEG_1: [u8; 96] = [
    23, 241, 211, 167, 49, 151, 215, 148, 38, 149, 99, 140, 79, 169, 172, 15, 195, 104, 140,
    79, 151, 116, 185, 5, 161, 78, 58, 63, 23, 27, 172, 88, 108, 85, 232, 63, 249, 122, 26,
    239, 251, 58, 240, 10, 219, 34, 198, 187, 17, 77, 29, 104, 85, 213, 69, 168, 170, 125, 118,
    200, 207, 46, 33, 242, 103, 129, 106, 239, 29, 181, 7, 201, 102, 85, 185, 213, 202, 172,
    66, 54, 78, 111, 56, 186, 14, 203, 117, 27, 173, 84, 220, 214, 185, 57, 194, 202,
];

/// A point of the first curve, with x = 4, that is not in the prime-order subgroup.
const G1_OUTSIDE_SUBGROUP: [u8; 96] = [
    0, 0, 0, 0, 0, 0, 0, 0, 0, 0, 0, 0, 0, 0, 0, 0, 0, 0, 0, 0, 0, 0, 0, 0, 0, 0, 0, 0, 0, 0,
    0, 0, 0, 0, 0, 0, 0, 0, 0, 0, 0, 0, 0, 0, 0, 0, 0, 4, 10, 152, 155, 173, 212, 13, 98, 18,
    179, 60, 255, 195, 243, 118, 62, 155, 199, 96, 249, 136, 201, 146, 107, 38, 218, 157, 216,
    94, 146, 132, 131, 68, 99, 70, 184, 237, 0, 225, 222, 93, 94, 169, 62, 53, 74, 190, 112,
    108,
];

/// The generator of G2.
const G2_1: [u8; 192] = [
    19, 224, 43, 96, 82, 113, 159, 96, 125, 172, 211, 160, 136, 39, 79, 101, 89, 107, 208, 208,
    153, 32, 182, 26, 181, 218, 97, 187, 220, 127, 80, 73, 51, 76, 241, 18, 19, 148, 93, 87,
    229, 172, 125, 5, 93, 4, 43, 126, 2, 74, 162, 178, 240, 143, 10, 145, 38, 8, 5, 39, 45,
    197, 16, 81, 198, 228, 122, 212, 250, 64, 59, 2, 180, 81, 11, 100, 122, 227, 209, 119, 11,
    172, 3, 38, 168, 5, 187, 239, 212, 128, 86, 200, 193, 33, 189, 184, 6, 6, 196, 160, 46,
    167, 52, 204, 50, 172, 210, 176, 43, 194, 139, 153, 203, 62, 40, 126, 133, 167, 99, 175,
    38, 116, 146, 171, 87, 46, 153, 171, 63, 55, 13, 39, 92, 236, 29, 161, 170, 169, 7, 95,
    240, 95, 121, 190, 12, 229, 213, 39, 114, 125, 110, 17, 140, 201, 205, 198, 218, 46, 53,
    26, 173, 253, 155, 170, 140, 189, 211, 167, 109, 66, 154, 105, 81, 96, 209, 44, 146, 58,
    201, 204, 59, 172, 162, 137, 225, 147, 84, 134, 8, 184, 40, 1,
];

/// Three times the generator of G2.
const G2_3: [u8; 192] = [
    9, 56, 2, 117, 187, 200, 229, 220, 234, 125, 196, 221, 126, 5, 80, 255, 42, 196, 128, 144,
    83, 150, 237, 165, 80, 98, 101, 15, 141, 37, 28, 150, 235, 72, 6, 115, 147, 124, 198, 217,
    214, 164, 74, 170, 86, 202, 102, 220, 18, 41, 21, 200, 36, 160, 133, 126, 46, 228, 20, 163,
    220, 203, 35, 174, 105, 26, 229, 67, 41, 120, 19, 21, 160, 199, 93, 241, 192, 77, 109, 122,
    80, 160, 48, 252, 134, 111, 9, 213, 22, 2, 14, 248, 35, 36, 175, 174, 8, 242, 57, 186, 50,
    155, 57, 103, 254, 72, 215, 24, 163, 108, 254, 95, 98, 167, 228, 46, 11, 241, 193, 237,
    113, 65, 80, 161, 102, 191, 189, 107, 207, 107, 59, 88, 185, 117, 185, 237, 234, 86, 213,
    63, 35, 160, 232, 73, 11, 33, 218, 121, 85, 150, 158, 97, 1, 12, 122, 26, 188, 26, 111, 1,
    54, 150, 29, 30, 59, 32, 177, 167, 50, 106, 199, 56, 254, 245, 199, 33, 71, 157, 253, 148,
    139, 82, 253, 242, 69, 94, 68, 129, 62, 207, 216, 146,
];

/// A point of the second curve, with x = 2, that is not in the prime-order subgroup.
const G2_OUTSIDE_SUBGROUP: [u8; 192] = [
    0, 0, 0, 0, 0, 0, 0, 0, 0, 0, 0, 0, 0, 0, 0, 0, 0, 0, 0, 0, 0, 0, 0, 0, 0, 0, 0, 0, 0, 0,
    0, 0, 0, 0, 0, 0, 0, 0, 0, 0, 0, 0, 0, 0, 0, 0, 0, 0, 0, 0, 0, 0, 0, 0, 0, 0, 0, 0, 0, 0,
    0, 0, 0, 0, 0, 0, 0, 0, 0, 0, 0, 0, 0, 0, 0, 0, 0, 0, 0, 0, 0, 0, 0, 0, 0, 0, 0, 0, 0, 0,
    0, 0, 0, 0, 0, 2, 2, 210, 126, 14, 195, 53, 98, 153, 163, 70, 160, 154, 215, 220, 78, 246,
    138, 72, 60, 58, 237, 83, 249, 19, 157, 47, 146, 154, 62, 236, 235, 247, 32, 130, 229, 229,
    140, 109, 162, 78, 227, 46, 3, 4, 12, 64, 109, 79, 1, 58, 89, 133, 139, 104, 9, 252, 164,
    217, 163, 182, 83, 146, 70, 167, 0, 81, 163, 200, 136, 153, 150, 74, 66, 188, 154, 105,
    207, 154, 205, 217, 221, 56, 124, 250, 144, 134, 184, 148, 24, 91, 154, 70, 164, 2, 190,
    115,
];

const PROOF_A: [u8; 96] = [
    2, 88, 157, 112, 250, 72, 149, 167, 140, 203, 82, 224, 80, 178, 25, 167, 81, 78, 135, 22,
    195, 186, 98, 114, 127, 47, 79, 56, 198, 115, 4, 214, 73, 171, 97, 187, 13, 111, 1, 183,
    215, 199, 12, 128, 78, 187, 113, 209, 7, 154, 178, 12, 2, 36, 66, 234, 250, 154, 213, 149,
    74, 111, 30, 120, 147, 66, 206, 26, 60, 119, 29, 67, 220, 25, 7, 110, 89, 40, 255, 240,
    101, 53, 9, 141, 104, 45, 185, 227, 204, 187, 207, 203, 158, 164, 230, 127,
];

const PROOF_B: [u8; 192] = [
    7, 246, 242, 75, 174, 218, 111, 64, 63, 27, 36, 177, 240, 72, 121, 94, 39, 63, 55, 176,
    199, 165, 152, 27, 179, 54, 3, 3, 9, 133, 97, 181, 16, 235, 109, 82, 127, 169, 66, 174,
    106, 16, 71, 106, 131, 175, 30, 175, 13, 144, 171, 46, 215, 21, 184, 238, 78, 159, 15, 185,
    177, 13, 48, 231, 51, 143, 203, 173, 213, 154, 160, 1, 242, 227, 2, 164, 124, 144, 199, 98,
    167, 175, 122, 114, 102, 137, 12, 48, 84, 131, 0, 169, 158, 55, 128, 230, 17, 3, 24, 185,
    3, 217, 103, 160, 126, 115, 201, 178, 174, 146, 199, 136, 221, 31, 54, 157, 209, 3, 43, 21,
    101, 177, 244, 200, 133, 156, 139, 62, 80, 69, 175, 8, 121, 46, 19, 50, 51, 48, 214, 203,
    1, 98, 226, 31, 17, 69, 107, 192, 117, 64, 235, 73, 178, 107, 68, 164, 196, 70, 238, 142,
    112, 231, 36, 20, 62, 45, 78, 22, 83, 127, 103, 135, 222, 247, 183, 83, 185, 13, 59, 149,
    36, 145, 90, 254, 91, 179, 87, 174, 108, 151, 101, 183,
];

const IC1: [u8; 96] = [
    17, 158, 199, 19, 137, 211, 161, 248, 118, 149, 250, 145, 46, 221, 160, 86, 40, 165, 110,
    198, 160, 203, 188, 84, 210, 83, 159, 176, 113, 111, 10, 235, 192, 243, 242, 110, 188, 210,
    98, 199, 74, 66, 118, 251, 3, 188, 58, 84, 23, 55, 88, 168, 37, 240, 121, 248, 22, 139,
    165, 151, 47, 163, 72, 114, 80, 152, 28, 160, 76, 58, 252, 162, 110, 107, 202, 173, 57,
    219, 79, 119, 196, 249, 84, 215, 233, 11, 59, 50, 204, 23, 149, 64, 88, 135, 163, 190,
];

const DELTA_G2: [u8; 192] = [
    1, 78, 83, 175, 159, 103, 127, 217, 80, 213, 0, 194, 108, 30, 210, 241, 138, 209, 0, 164,
    117, 32, 68, 102, 121, 36, 40, 65, 89, 205, 198, 1, 14, 144, 196, 236, 176, 214, 119, 139,
    225, 118, 215, 185, 36, 216, 183, 27, 22, 126, 193, 21, 173, 212, 250, 104, 25, 69, 107,
    40, 199, 160, 228, 239, 112, 102, 144, 85, 58, 109, 122, 73, 221, 170, 145, 188, 60, 9,
    228, 178, 36, 227, 175, 140, 40, 181, 158, 175, 91, 189, 92, 169, 90, 90, 30, 153, 4, 225,
    187, 53, 206, 114, 60, 109, 51, 184, 2, 100, 39, 95, 43, 33, 82, 141, 161, 200, 136, 146,
    33, 18, 202, 141, 43, 222, 64, 81, 151, 58, 141, 146, 8, 214, 159, 110, 167, 173, 253, 57,
    190, 62, 94, 88, 245, 59, 20, 121, 233, 209, 122, 42, 13, 184, 114, 0, 19, 32, 120, 143,
    108, 118, 107, 241, 218, 182, 69, 135, 117, 42, 231, 191, 199, 88, 88, 145, 134, 24, 133,
    211, 53, 72, 23, 214, 105, 97, 134, 254, 116, 89, 166, 119, 221, 223,
];

/// The order of the groups, little-endian.
const Q_LE: [u8; 32] = [
    1, 0, 0, 0, 255, 255, 255, 255, 254, 91, 254, 255, 2, 164, 189, 83, 5, 216, 161, 9, 8, 216,
    57, 51, 72, 125, 157, 41, 83, 167, 237, 115,
];

/// The order of the groups less one, little-endian.
const Q_MINUS_1_LE: [u8; 32] = [
    0, 0, 0, 0, 255, 255, 255, 255, 254, 91, 254, 255, 2, 164, 189, 83, 5, 216, 161, 9, 8, 216,
    57, 51, 72, 125, 157, 41, 83, 167, 237, 115,
];

fn g1_identity_bytes() -> [u8; 96] {
    let mut bytes = [0u8; 96];
    bytes[0] = 0x40;
    bytes
}

fn g2_identity_bytes() -> [u8; 192] {
    let mut bytes = [0u8; 192];
    bytes[0] = 0x40;
    bytes
}

#[test]
fn decoded_value_is_kept() {
    assert_eq!(decoded_or_invalid(Some(7u32)), Ok(7u32));
}

#[test]
fn missing_value_is_an_invalid_encoding() {
    assert_eq!(decoded_or_invalid::<u32>(None), Err(CodecError::InvalidEncoding));
}

#[test]
fn g1_generator_has_its_known_encoding() {
    assert_eq!(g1_to_bytes(G1Affine::generator()), G1_1);
    assert_eq!(bytes_to_g1(G1_1), Ok(G1Affine::generator()));
}

#[test]
fn g1_generator_encodes_to_ninety_six_bytes() {
    let bytes = g1_to_bytes(G1Affine::generator());
    assert_eq!(bytes.len(), 96);
    assert_eq!(bytes[0] & 0xe0, 0);
}

#[test]
fn g1_identity_has_the_flagged_zero_encoding() {
    assert_eq!(g1_to_bytes(G1Affine::identity()), g1_identity_bytes());
    assert_eq!(bytes_to_g1(g1_identity_bytes()), Ok(G1Affine::identity()));
}

#[test]
fn g1_decoding_an_encoding_gives_the_point_back() {
    let five = bytes_to_g1(G1_5).unwrap();
    for point in [G1Affine::generator(), G1Affine::identity(), five, -five] {
        assert_eq!(bytes_to_g1(g1_to_bytes(point)), Ok(point));
    }
}

#[test]
fn g1_encoding_a_decoded_point_gives_the_bytes_back() {
    for bytes in [G1_1, G1_5, G1_NEG_1, PROOF_A, IC1, g1_identity_bytes()] {
        assert_eq!(g1_to_bytes(bytes_to_g1(bytes).unwrap()), bytes);
    }
}

#[test]
fn g1_rejects_the_compression_flag() {
    let mut bytes = G1_1;
    bytes[0] |= 0x80;
    assert_eq!(bytes_to_g1(bytes), Err(CodecError::InvalidEncoding));
}

#[test]
fn g1_rejects_the_sort_flag() {
    let mut bytes = G1_1;
    bytes[0] |= 0x20;
    assert_eq!(bytes_to_g1(bytes), Err(CodecError::InvalidEncoding));
}

#[test]
fn g1_rejects_the_infinity_flag_on_a_finite_point() {
    let mut bytes = G1_1;
    bytes[0] |= 0x40;
    assert_eq!(bytes_to_g1(bytes), Err(CodecError::InvalidEncoding));
}

#[test]
fn g1_rejects_the_infinity_flag_with_one_stray_bit() {
    let mut bytes = g1_identity_bytes();
    bytes[95] = 1;
    assert_eq!(bytes_to_g1(bytes), Err(CodecError::InvalidEncoding));
}

#[test]
fn g1_rejects_all_zero_bytes() {
    assert_eq!(bytes_to_g1([0u8; 96]), Err(CodecError::InvalidEncoding));
}

#[test]
fn g1_rejects_a_point_off_the_curve() {
    let mut bytes = G1_1;
    bytes[95] ^= 1;
    assert_eq!(bytes_to_g1(bytes), Err(CodecError::InvalidEncoding));
}

#[test]
fn g1_rejects_a_coordinate_that_is_not_reduced() {
    // x is the base-field prime itself.
    let modulus: [u8; 48] = [
        26, 1, 17, 234, 57, 127, 230, 154, 75, 27, 167, 182, 67, 75, 172, 215, 100, 119, 75, 132,
        243, 133, 18, 191, 103, 48, 210, 160, 246, 176, 246, 36, 30, 171, 255, 254, 177, 83, 255,
        255, 185, 254, 255, 255, 255, 255, 170, 171,
    ];
    let mut bytes = [0u8; 96];
    bytes[..48].copy_from_slice(&modulus);
    bytes[95] = 2;
    assert_eq!(bytes_to_g1(bytes), Err(CodecError::InvalidEncoding));
}

#[test]
fn g1_rejects_a_curve_point_outside_the_subgroup() {
    assert_eq!(bytes_to_g1(G1_OUTSIDE_SUBGROUP), Err(CodecError::InvalidEncoding));
}

#[test]
fn g1_negation_of_the_generator_is_known() {
    let negated = g1_bytes_neg(G1_1).unwrap();
    assert_eq!(g1_to_bytes(negated), G1_NEG_1);
    assert_eq!(negated, -G1Affine::generator());
}

#[test]
fn g1_negation_of_the_identity_is_the_identity() {
    assert_eq!(g1_bytes_neg(g1_identity_bytes()), Ok(G1Affine::identity()));
}

#[test]
fn g1_negating_twice_gives_the_point_back() {
    for bytes in [G1_1, G1_5, PROOF_A, IC1, g1_identity_bytes()] {
        let once = g1_bytes_neg(bytes).unwrap();
        let twice = g1_bytes_neg(g1_to_bytes(once)).unwrap();
        assert_eq!(g1_to_bytes(twice), bytes);
    }
}

#[test]
fn g1_negation_rejects_an_invalid_encoding() {
    let mut bytes = G1_1;
    bytes[0] |= 0x80;
    assert_eq!(g1_bytes_neg(bytes), Err(CodecError::InvalidEncoding));
}

#[test]
fn g2_generator_has_its_known_encoding() {
    assert_eq!(g2_to_bytes(G2Affine::generator()), G2_1);
    assert_eq!(bytes_to_g2(G2_1), Ok(G2Affine::generator()));
}

#[test]
fn g2_identity_has_the_flagged_zero_encoding() {
    assert_eq!(g2_to_bytes(G2Affine::identity()), g2_identity_bytes());
    assert_eq!(bytes_to_g2(g2_identity_bytes()), Ok(G2Affine::identity()));
}

#[test]
fn g2_decoding_an_encoding_gives_the_point_back() {
    let three = bytes_to_g2(G2_3).unwrap();
    for point in [G2Affine::generator(), G2Affine::identity(), three, -three] {
        assert_eq!(bytes_to_g2(g2_to_bytes(point)), Ok(point));
    }
}

#[test]
fn g2_encoding_a_decoded_point_gives_the_bytes_back() {
    for bytes in [G2_1, G2_3, PROOF_B, DELTA_G2, g2_identity_bytes()] {
        assert_eq!(g2_to_bytes(bytes_to_g2(bytes).unwrap()), bytes);
    }
}

#[test]
fn g2_rejects_the_compression_flag() {
    let mut bytes = G2_1;
    bytes[0] |= 0x80;
    assert_eq!(bytes_to_g2(bytes), Err(CodecError::InvalidEncoding));
}

#[test]
fn g2_rejects_the_sort_flag() {
    let mut bytes = G2_1;
    bytes[0] |= 0x20;
    assert_eq!(bytes_to_g2(bytes), Err(CodecError::InvalidEncoding));
}

#[test]
fn g2_rejects_the_infinity_flag_on_a_finite_point() {
    let mut bytes = G2_1;
    bytes[0] |= 0x40;
    assert_eq!(bytes_to_g2(bytes), Err(CodecError::InvalidEncoding));
}

#[test]
fn g2_rejects_all_zero_bytes() {
    assert_eq!(bytes_to_g2([0u8; 192]), Err(CodecError::InvalidEncoding));
}

#[test]
fn g2_rejects_a_point_off_the_curve() {
    let mut bytes = G2_1;
    bytes[191] ^= 1;
    assert_eq!(bytes_to_g2(bytes), Err(CodecError::InvalidEncoding));
}

#[test]
fn g2_rejects_a_curve_point_outside_the_subgroup() {
    assert_eq!(bytes_to_g2(G2_OUTSIDE_SUBGROUP), Err(CodecError::InvalidEncoding));
}

#[test]
fn g2_rejects_the_infinity_flag_with_one_stray_bit() {
    let mut bytes = g2_identity_bytes();
    bytes[100] = 0x10;
    assert_eq!(bytes_to_g2(bytes), Err(CodecError::InvalidEncoding));
}

#[test]
fn g2_rejects_swapped_coordinate_halves() {
    // The two base-field halves of x in the wrong order.
    let mut bytes = G2_1;
    for i in 0..48 {
        bytes.swap(i, 48 + i);
    }
    assert_eq!(bytes_to_g2(bytes), Err(CodecError::InvalidEncoding));
}

#[test]
fn g2_negating_twice_gives_the_point_back() {
    for bytes in [G2_1, G2_3, PROOF_B, DELTA_G2, g2_identity_bytes()] {
        let once = g2_bytes_neg(bytes).unwrap();
        assert_eq!(once, -bytes_to_g2(bytes).unwrap());
        let twice = g2_bytes_neg(g2_to_bytes(once)).unwrap();
        assert_eq!(g2_to_bytes(twice), bytes);
    }
}

#[test]
fn g2_negation_changes_a_finite_point() {
    let negated = g2_bytes_neg(G2_1).unwrap();
    assert_ne!(g2_to_bytes(negated), G2_1);
    assert_eq!(g2_to_bytes(negated)[..96], G2_1[..96]);
}

#[test]
fn g2_negation_rejects_an_invalid_encoding() {
    assert_eq!(g2_bytes_neg([0u8; 192]), Err(CodecError::InvalidEncoding));
}

#[test]
fn scalar_from_a_machine_integer() {
    assert_eq!(u64_to_scalar(0), Scalar::zero());
    assert_eq!(u64_to_scalar(1), Scalar::one());
    assert_eq!(u64_to_scalar(5), Scalar::one() + Scalar::one().double().double());
    assert_eq!(u64_to_scalar(u64::MAX).to_bytes()[..8], [0xffu8; 8]);
    assert_eq!(u64_to_scalar(u64::MAX).to_bytes()[8..], [0u8; 24]);
}

#[test]
fn scalar_from_little_endian_bytes() {
    let mut five = [0u8; 32];
    five[0] = 5;
    assert_eq!(bytes_to_scalar(five), Ok(u64_to_scalar(5)));
    let mut big = [0u8; 32];
    big[1] = 1;
    assert_eq!(bytes_to_scalar(big), Ok(u64_to_scalar(256)));
    assert_eq!(bytes_to_scalar([0u8; 32]), Ok(Scalar::zero()));
}

#[test]
fn scalar_just_below_the_group_order_is_accepted() {
    assert_eq!(bytes_to_scalar(Q_MINUS_1_LE), Ok(-Scalar::one()));
}

#[test]
fn scalar_equal_to_the_group_order_is_rejected() {
    assert_eq!(bytes_to_scalar(Q_LE), Err(CodecError::InvalidEncoding));
}

#[test]
fn scalar_of_all_ones_is_rejected() {
    assert_eq!(bytes_to_scalar([0xffu8; 32]), Err(CodecError::InvalidEncoding));
}
