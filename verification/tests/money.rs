use trussbooks::money::{Amount, MAX_MANTISSA, MAX_SCALE};

fn amount(mantissa: i128, scale: u32) -> Amount {
    Amount::from_parts(mantissa, scale).expect("amount in range")
}

#[test]
fn from_parts_accepts_the_decimal_range() {
    assert!(Amount::from_parts(MAX_MANTISSA, MAX_SCALE).is_some());
    assert!(Amount::from_parts(-MAX_MANTISSA, 0).is_some());
    assert!(Amount::from_parts(MAX_MANTISSA + 1, 0).is_none());
    assert!(Amount::from_parts(-MAX_MANTISSA - 1, 0).is_none());
    assert!(Amount::from_parts(1, MAX_SCALE + 1).is_none());
    let a = amount(-12345678, 7);
    assert_eq!(a.mantissa(), -12345678);
    assert_eq!(a.scale(), 7);
}

#[test]
fn zero_is_zero_at_any_scale() {
    assert!(Amount::zero().is_zero());
    assert!(amount(0, 5).is_zero());
    assert!(!amount(1, 28).is_zero());
    assert!(!amount(-1, 0).is_zero());
}

#[test]
fn addition_aligns_scales() {
    // 1.5 + 2.25 = 3.75
    let sum = amount(15, 1).checked_add(&amount(225, 2)).expect("no overflow");
    assert_eq!(sum.mantissa(), 375);
    assert_eq!(sum.scale(), 2);
}

#[test]
fn addition_at_one_scale_adds_digits() {
    let sum = amount(1050, 2).checked_add(&amount(-2575, 2)).expect("no overflow");
    assert_eq!((sum.mantissa(), sum.scale()), (-1525, 2));
}

#[test]
fn adding_to_zero_gives_the_other_amount() {
    let sum = Amount::zero().checked_add(&amount(-4200, 3)).expect("no overflow");
    assert_eq!((sum.mantissa(), sum.scale()), (-4200, 3));
}

#[test]
fn addition_overflows_past_96_bits() {
    assert!(amount(MAX_MANTISSA, 0).checked_add(&amount(1, 0)).is_none());
    assert!(amount(-MAX_MANTISSA, 0).checked_add(&amount(-MAX_MANTISSA, 0)).is_none());
}

#[test]
fn addition_rounds_instead_of_overflowing_with_a_fraction() {
    // The sum needs 97 bits at scale 1, so the digits are rescaled to scale 0.
    let sum = amount(MAX_MANTISSA, 1).checked_add(&amount(MAX_MANTISSA, 1)).expect("rescaled");
    assert_eq!(sum.scale(), 0);
}

#[test]
fn addition_across_distant_scales_is_exact_when_it_fits() {
    // 1 + 10^-28 = 1.0000000000000000000000000001, digits 10^28 + 1 at scale 28
    let sum = amount(1, 0).checked_add(&amount(1, 28)).expect("fits in 96 bits");
    assert_eq!((sum.mantissa(), sum.scale()), (10_000_000_000_000_000_000_000_000_001, 28));
    // 123456789012 + (-0.5) at scale 1: digits 1234567890115
    let sum = amount(123_456_789_012, 0).checked_add(&amount(-5, 1)).expect("fits in 96 bits");
    assert_eq!((sum.mantissa(), sum.scale()), (1_234_567_890_115, 1));
}
