use hippogriph::casts::{inverse_of_three, log2_exact};
use hippogriph::{decomposer, extract_bit, recomposer, retag, Encoding, EncryptedValue, Error};

fn value_under(origin_modulus: u64) -> EncryptedValue<u8> {
    EncryptedValue::EncodingEncrypted(7, Encoding::new_canonical(origin_modulus, vec![], 17))
}

fn boolean_bits(n: usize) -> Vec<EncryptedValue<u8>> {
    (0..n)
        .map(|_| EncryptedValue::EncodingEncrypted(0, Encoding::new_canonical(2, vec![0, 1], 2)))
        .collect()
}

fn target() -> Encoding {
    Encoding::new_canonical(16, (0..16).collect(), 17)
}

#[test]
fn decompose_sixteen_into_four_bits() {
    let plan = decomposer(&value_under(16), &Encoding::new_canonical(2, vec![0, 1], 2)).unwrap();
    assert_eq!(plan.shifts, vec![3, 2, 1, 0]);
    assert_eq!(plan.encodings.len(), 4);
    for e in &plan.encodings {
        assert_eq!(e.origin_modulus, 2);
        assert_eq!(e.modulus, 2);
        assert_eq!(e.coefficients, vec![0, 1]);
        assert_eq!(e.arity, 2);
    }
}

#[test]
fn decompose_other_powers_of_two() {
    let out = Encoding::new_canonical(2, vec![0, 1], 2);
    assert_eq!(decomposer(&value_under(2), &out).unwrap().shifts, vec![0]);
    assert_eq!(decomposer(&value_under(256), &out).unwrap().shifts, vec![7, 6, 5, 4, 3, 2, 1, 0]);
    assert!(decomposer(&value_under(1), &out).unwrap().shifts.is_empty());
    assert_eq!(decomposer(&value_under(1 << 63), &out).unwrap().shifts.len(), 63);
}

#[test]
fn decompose_rejects_non_power_of_two() {
    let out = Encoding::new_canonical(2, vec![0, 1], 2);
    assert_eq!(decomposer(&value_under(17), &out).err(), Some(Error::InvalidEncoding));
    assert_eq!(decomposer(&value_under(0), &out).err(), Some(Error::InvalidEncoding));
    assert_eq!(decomposer(&value_under(12), &out).err(), Some(Error::InvalidEncoding));
    assert_eq!(decomposer(&value_under(u64::MAX), &out).err(), Some(Error::InvalidEncoding));
}

#[test]
fn decompose_rejects_trivial_value() {
    let out = Encoding::new_canonical(2, vec![0, 1], 2);
    let v: EncryptedValue<u8> = EncryptedValue::Trivial(3);
    assert_eq!(decomposer(&v, &out).err(), Some(Error::InvalidEncoding));
}

#[test]
fn log2_of_powers() {
    assert_eq!(log2_exact(1), Some(0));
    assert_eq!(log2_exact(16), Some(4));
    assert_eq!(log2_exact(1 << 63), Some(63));
    assert_eq!(log2_exact(24), None);
    assert_eq!(log2_exact(0), None);
}

#[test]
fn bit_extraction() {
    assert_eq!(extract_bit(0b1011, 0), 1);
    assert_eq!(extract_bit(0b1011, 2), 0);
    assert_eq!(extract_bit(0b1011, 3), 1);
    assert_eq!(extract_bit(u64::MAX, 63), 1);
}

#[test]
fn recompose_needs_four_bits() {
    assert_eq!(recomposer(&boolean_bits(3), &target()).err(), Some(Error::ArityMismatch));
    assert_eq!(recomposer(&boolean_bits(5), &target()).err(), Some(Error::ArityMismatch));
    assert_eq!(recomposer(&boolean_bits(0), &target()).err(), Some(Error::ArityMismatch));
}

#[test]
fn recompose_needs_known_modulus() {
    let out = Encoding::new_canonical(16, (0..16).collect(), 13);
    assert_eq!(recomposer(&boolean_bits(4), &out).err(), Some(Error::UnsupportedModulus));
    assert_eq!(inverse_of_three(17), Some(6));
    assert_eq!(inverse_of_three(13), None);
}

#[test]
fn recompose_stages_under_seventeen() {
    let stages = recomposer(&boolean_bits(4), &target()).unwrap();
    let coefficients: Vec<Vec<u64>> = stages.iter().map(|s| s.encoding.coefficients.clone()).collect();
    assert_eq!(coefficients, vec![vec![13, 4], vec![15, 2], vec![16, 1], vec![14, 3]]);
    let constants: Vec<u64> = stages.iter().map(|s| s.constant).collect();
    assert_eq!(constants, vec![4, 2, 1, 3]);
    let multipliers: Vec<u64> = stages.iter().map(|s| s.multiplier).collect();
    assert_eq!(multipliers, vec![1, 1, 1, 3]);
    for s in &stages {
        assert_eq!(s.encoding.origin_modulus, 2);
        assert_eq!(s.encoding.modulus, 17);
        assert_eq!(s.encoding.arity, 2);
    }
}

#[test]
fn decompose_then_recompose_round_trip() {
    let plan = decomposer(&value_under(16), &Encoding::new_canonical(2, vec![0, 1], 2)).unwrap();
    let stages = recomposer(&boolean_bits(4), &target()).unwrap();
    for v in 0..16u64 {
        let bits: Vec<u64> = plan.shifts.iter().map(|s| extract_bit(v, *s)).collect();
        assert_eq!(bits, vec![v >> 3, (v >> 2) & 1, (v >> 1) & 1, v & 1]);
        let mut total = 0u64;
        for (s, b) in stages.iter().zip(bits.iter()) {
            let switched = s.encoding.coefficients[*b as usize];
            total += ((switched + s.constant) % 17) * s.multiplier % 17;
        }
        assert_eq!(total % 17, v);
    }
}

#[test]
fn retag_replaces_encoding() {
    let sum: EncryptedValue<u8> =
        EncryptedValue::EncodingEncrypted(9, Encoding::new_canonical(2, vec![0, 1], 2));
    match retag(sum, &target()).unwrap() {
        EncryptedValue::EncodingEncrypted(p, e) => {
            assert_eq!(p, 9);
            assert_eq!(e.origin_modulus, 16);
            assert_eq!(e.modulus, 17);
            assert_eq!(e.coefficients.len(), 16);
        }
        EncryptedValue::Trivial(_) => panic!("expected an encrypted value"),
    }
    let trivial: EncryptedValue<u8> = EncryptedValue::Trivial(1);
    assert_eq!(retag(trivial, &target()).err(), Some(Error::EvaluatorFailure));
}

#[test]
fn encoding_copies() {
    let e = Encoding::new_canonical(2, vec![13, 4], 17);
    let d = e.duplicate();
    assert_eq!(d.coefficients, vec![13, 4]);
    assert_eq!((d.origin_modulus, d.modulus, d.arity), (2, 17, 2));
}
