use babe::bytes::{u128_from_le, u64_le_bytes};
use babe::pending::{
    is_assigned_to, EPOCH_LABEL, RANDOMNESS_LABEL, SEAL_CONTEXT, SLOT_LABEL, VRF_CONTEXT,
    VRF_TRANSCRIPT,
};
use babe::threshold::{
    calculate_primary_threshold, scale_probability, sum_weights, ClaimProbability,
};
use std::cell::RefCell;

fn fraction(numerator: &[u8], denominator: &[u8]) -> ClaimProbability {
    ClaimProbability {
        numerator: numerator.to_vec(),
        denominator: denominator.to_vec(),
    }
}

#[test]
fn labels_spell_what_authors_use() {
    assert_eq!(&SEAL_CONTEXT[..], b"substrate");
    assert_eq!(&VRF_TRANSCRIPT[..], b"BABE");
    assert_eq!(&SLOT_LABEL[..], b"slot number");
    assert_eq!(&EPOCH_LABEL[..], b"current epoch");
    assert_eq!(&RANDOMNESS_LABEL[..], b"chain randomness");
    assert_eq!(&VRF_CONTEXT[..], b"substrate-babe-vrf");
}

#[test]
fn numbers_are_written_least_significant_byte_first() {
    assert_eq!(u64_le_bytes(0), vec![0; 8]);
    assert_eq!(u64_le_bytes(0x0102030405060708), vec![8, 7, 6, 5, 4, 3, 2, 1]);
    assert_eq!(u64_le_bytes(u64::MAX), vec![255; 8]);
}

#[test]
fn numbers_are_read_least_significant_byte_first() {
    assert_eq!(u128_from_le(&[0; 16]), 0);
    assert_eq!(u128_from_le(&[255; 16]), u128::MAX);
    assert_eq!(
        u128_from_le(&[1, 2, 3, 0, 0, 0, 0, 0, 0, 0, 0, 0, 0, 0, 0, 4]),
        0x04000000_00000000_00000000_00030201
    );
}

#[test]
fn probabilities_scale_to_128_bits() {
    assert_eq!(scale_probability(&fraction(&[], &[1])), 0);
    assert_eq!(scale_probability(&fraction(&[0, 0], &[9])), 0);
    assert_eq!(scale_probability(&fraction(&[1], &[2])), 1 << 127);
    assert_eq!(scale_probability(&fraction(&[0, 1], &[0, 4])), 1 << 126);
    assert_eq!(scale_probability(&fraction(&[1], &[3])), u128::MAX / 3);
    assert_eq!(scale_probability(&fraction(&[255], &[1, 0])), 255 << 120);
}

#[test]
fn probabilities_just_below_one_fit() {
    let mut numerator = vec![255u8; 40];
    numerator[39] = 254;
    assert_eq!(
        scale_probability(&fraction(&numerator, &[255; 40])),
        u128::MAX
    );
}

#[test]
fn likelier_claims_have_higher_thresholds() {
    let unlikely = scale_probability(&fraction(&[1], &[5]));
    let likely = scale_probability(&fraction(&[2], &[7]));
    assert!(unlikely < likely);
}

#[test]
fn weights_add_up() {
    assert_eq!(sum_weights(&vec![]), Some(0));
    assert_eq!(sum_weights(&vec![3, 4, 5]), Some(12));
    assert_eq!(sum_weights(&vec![u64::MAX, 0]), Some(u64::MAX));
    assert_eq!(sum_weights(&vec![u64::MAX, 1]), None);
}

#[test]
fn threshold_asks_about_the_weight_and_the_sum() {
    let asked = RefCell::new(Vec::new());
    let answer = |c: (u64, u64), weight: u64, total: u64| {
        asked.borrow_mut().push((c, weight, total));
        fraction(&[1], &[8])
    };
    let threshold = calculate_primary_threshold((1, 4), &vec![10, 20, 30], 20, &answer);
    assert_eq!(threshold, 1 << 125);
    assert_eq!(*asked.borrow(), vec![((1, 4), 20, 60)]);
}

#[test]
fn slots_are_assigned_by_remainder() {
    let mut hash = [0u8; 32];
    hash[31] = 5;
    assert!(is_assigned_to(&hash, 3, 2));
    assert!(!is_assigned_to(&hash, 3, 1));
    assert!(!is_assigned_to(&hash, 3, 5));
    assert!(is_assigned_to(&hash, 1, 0));
    // 2^256 - 1 is a multiple of 5 and of 17, and one more than a multiple of 2.
    assert!(is_assigned_to(&[255; 32], 5, 0));
    assert!(is_assigned_to(&[255; 32], 17, 0));
    assert!(is_assigned_to(&[255; 32], 2, 1));
    // The first byte is the most significant one.
    hash[0] = 1;
    assert!(is_assigned_to(&hash, 256, 5));
    assert!(is_assigned_to(&hash, 255, 6));
}

fn claim_probability(c: (u64, u64), weight: u64, total: u64) -> ClaimProbability {
    let c = c.0 as f64 / c.1 as f64;
    let theta = weight as f64 / total as f64;
    let p = num_rational::BigRational::from_float(1f64 - (1f64 - c).powf(theta)).unwrap();
    fraction(
        &p.numer().to_biguint().unwrap().to_bytes_be(),
        &p.denom().to_biguint().unwrap().to_bytes_be(),
    )
}

#[test]
fn only_the_sum_of_the_weights_counts() {
    let threshold =
        |weights: Vec<u64>| calculate_primary_threshold((1, 4), &weights, 20, &claim_probability);
    let expected = threshold(vec![10, 20, 30]);
    assert_eq!(threshold(vec![30, 10, 20]), expected);
    assert_eq!(threshold(vec![0, 10, 20, 0, 30]), expected);
    assert_eq!(threshold(vec![60]), expected);
    assert_ne!(threshold(vec![10, 20, 31]), expected);
}

#[test]
fn heavier_authorities_have_higher_thresholds() {
    let threshold = |weight: u64| {
        calculate_primary_threshold((1, 4), &vec![10, 20, 30], weight, &claim_probability)
    };
    assert!(threshold(10) < threshold(20));
    assert!(threshold(20) < threshold(30));
    assert!(threshold(30) < threshold(60));
    assert_eq!(threshold(60), 1 << 126);
}

#[test]
fn only_authority_has_the_threshold_of_c() {
    assert_eq!(
        calculate_primary_threshold((1, 4), &vec![7], 7, &claim_probability),
        1 << 126
    );
    // A half of the weight: 1 - sqrt(1/4).
    assert_eq!(
        calculate_primary_threshold((3, 4), &vec![5, 5], 5, &claim_probability),
        1 << 127
    );
}
