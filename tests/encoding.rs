use groth16_solana::errors::Groth16Error;
use zassport::convert::{
    convert_proof_a_from_snarkjs, convert_snarkjs_g2_to_alt, swap_endianness_chunks,
    swap_g1_endianness, swap_g2_endianness,
};
use zassport::errors::{map_groth16_error, ZKPassportError};
use zassport::field::negate_field_element_in_place;
use zassport::inputs::{i64_to_field_element_bytes, u64_to_field_element_bytes};

const MODULUS_MINUS_ONE_LE: [u8; 32] = [70, 253, 124, 216, 22, 140, 32, 60, 141, 202, 113, 104, 145, 106, 129, 151, 93, 88, 129, 129, 182, 69, 80, 184, 41, 160, 49, 225, 114, 78, 100, 48];

const VALUE_LE: [u8; 32] = [221, 204, 187, 170, 0, 153, 136, 119, 102, 85, 68, 51, 34, 17, 0, 153, 136, 119, 102, 85, 68, 51, 34, 17, 239, 205, 171, 144, 120, 86, 52, 18];

const NEGATED_VALUE_LE: [u8; 32] = [106, 48, 193, 45, 22, 243, 151, 196, 38, 117, 45, 53, 111, 89, 129, 254, 212, 224, 26, 44, 114, 18, 46, 167, 58, 210, 133, 80, 250, 247, 47, 30];

const VALUE_BE: [u8; 32] = [18, 52, 86, 120, 144, 171, 205, 239, 17, 34, 51, 68, 85, 102, 119, 136, 153, 0, 17, 34, 51, 68, 85, 102, 119, 136, 153, 0, 170, 187, 204, 221];

const NEGATED_VALUE_BE: [u8; 32] = [30, 47, 247, 250, 80, 133, 210, 58, 167, 46, 18, 114, 44, 26, 224, 212, 254, 129, 89, 111, 53, 45, 117, 38, 196, 151, 243, 22, 45, 193, 48, 106];

#[test]
fn negating_zero_gives_zero() {
    let mut value = [0u8; 32];
    negate_field_element_in_place(&mut value);
    assert_eq!(value, [0u8; 32]);
}

#[test]
fn negating_one_gives_modulus_minus_one() {
    let mut value = [0u8; 32];
    value[0] = 1;
    negate_field_element_in_place(&mut value);
    assert_eq!(value, MODULUS_MINUS_ONE_LE);
    negate_field_element_in_place(&mut value);
    let mut one = [0u8; 32];
    one[0] = 1;
    assert_eq!(value, one);
}

#[test]
fn negation_is_exact_and_an_involution() {
    let mut value = VALUE_LE;
    negate_field_element_in_place(&mut value);
    assert_eq!(value, NEGATED_VALUE_LE);
    negate_field_element_in_place(&mut value);
    assert_eq!(value, VALUE_LE);
}

#[test]
fn swapping_chunks_reverses_each_chunk() {
    let mut value = [0u8; 8];
    for (i, byte) in value.iter_mut().enumerate() {
        *byte = i as u8;
    }
    assert_eq!(swap_endianness_chunks::<8, 4>(&value), [3, 2, 1, 0, 7, 6, 5, 4]);
    assert_eq!(swap_endianness_chunks::<8, 8>(&value), [7, 6, 5, 4, 3, 2, 1, 0]);
    assert_eq!(swap_endianness_chunks::<8, 1>(&value), value);
}

#[test]
fn swapping_point_coordinates() {
    let mut g1 = [0u8; 64];
    for (i, byte) in g1.iter_mut().enumerate() {
        *byte = i as u8;
    }
    let swapped = swap_g1_endianness(&g1);
    assert_eq!(swapped[0], 31);
    assert_eq!(swapped[31], 0);
    assert_eq!(swapped[32], 63);
    assert_eq!(swapped[63], 32);
    assert_eq!(swap_g1_endianness(&swapped), g1);

    let mut g2 = [0u8; 128];
    for (i, byte) in g2.iter_mut().enumerate() {
        *byte = i as u8;
    }
    let swapped = swap_g2_endianness(&g2);
    assert_eq!(swapped[0], 63);
    assert_eq!(swapped[63], 0);
    assert_eq!(swapped[64], 127);
    assert_eq!(swapped[127], 64);
}

#[test]
fn g2_halves_are_exchanged() {
    let mut point = [0u8; 128];
    for (i, byte) in point.iter_mut().enumerate() {
        *byte = i as u8;
    }
    let reordered = convert_snarkjs_g2_to_alt(point);
    assert_eq!(&reordered[..32], &point[32..64]);
    assert_eq!(&reordered[32..64], &point[..32]);
    assert_eq!(&reordered[64..96], &point[96..]);
    assert_eq!(&reordered[96..], &point[64..96]);
}

#[test]
fn proof_a_gets_its_y_negated() {
    let mut a = [0u8; 64];
    for (i, byte) in a[..32].iter_mut().enumerate() {
        *byte = 200 - i as u8;
    }
    a[32..].copy_from_slice(&VALUE_BE);
    let converted = convert_proof_a_from_snarkjs(&a);
    assert_eq!(&converted[..32], &a[..32]);
    assert_eq!(&converted[32..], &NEGATED_VALUE_BE);

    let mut zero_y = a;
    zero_y[32..].copy_from_slice(&[0u8; 32]);
    assert_eq!(convert_proof_a_from_snarkjs(&zero_y), zero_y);
}

#[test]
fn unsigned_inputs_are_right_justified() {
    let mut expected = [0u8; 32];
    expected[31] = 21;
    assert_eq!(u64_to_field_element_bytes(21), expected);
    expected[31] = 65;
    assert_eq!(u64_to_field_element_bytes(65), expected);
    let mut expected = [0u8; 32];
    expected[30] = 0x03;
    expected[31] = 0x48;
    assert_eq!(u64_to_field_element_bytes(840), expected);
    let mut expected = [0u8; 32];
    for byte in expected[24..].iter_mut() {
        *byte = 0xff;
    }
    assert_eq!(u64_to_field_element_bytes(u64::MAX), expected);
    assert_eq!(u64_to_field_element_bytes(0), [0u8; 32]);
}

#[test]
fn signed_inputs_are_right_justified() {
    let mut expected = [0u8; 32];
    expected[28..].copy_from_slice(&[101, 146, 0, 128]);
    assert_eq!(i64_to_field_element_bytes(1_704_067_200), expected);
    let mut expected = [0u8; 32];
    for byte in expected[24..].iter_mut() {
        *byte = 0xff;
    }
    assert_eq!(i64_to_field_element_bytes(-1), expected);
    let mut expected = [0u8; 32];
    expected[24] = 0x80;
    assert_eq!(i64_to_field_element_bytes(i64::MIN), expected);
}

#[test]
fn engine_errors_are_sorted() {
    for err in [
        Groth16Error::InvalidG1Length,
        Groth16Error::InvalidG2Length,
        Groth16Error::DecompressingG1Failed,
        Groth16Error::DecompressingG2Failed,
    ] {
        assert_eq!(map_groth16_error(err), ZKPassportError::InvalidProof);
    }
    for err in [
        Groth16Error::IncompatibleVerifyingKeyWithNrPublicInputs,
        Groth16Error::InvalidPublicInputsLength,
        Groth16Error::ProofVerificationFailed,
        Groth16Error::PreparingInputsG1AdditionFailed,
        Groth16Error::PreparingInputsG1MulFailed,
        Groth16Error::PublicInputGreaterThanFieldSize,
    ] {
        assert_eq!(map_groth16_error(err), ZKPassportError::ProofVerificationFailed);
    }
}
