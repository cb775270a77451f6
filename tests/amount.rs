use element_idle::amount::Amount;
use element_idle::clock::seconds_between;

fn dec(mantissa: i128, scale: u32) -> Amount {
    Amount::new(mantissa, scale).unwrap()
}

#[test]
fn new_rejects_malformed_decimals() {
    assert!(Amount::new(15, 28).is_some());
    assert!(Amount::new(15, 29).is_none());
    assert!(Amount::new(79228162514264337593543950335, 0).is_some());
    assert!(Amount::new(79228162514264337593543950336, 0).is_none());
}

#[test]
fn add_is_exact_across_scales() {
    let sum = dec(1, 1).checked_add(dec(2, 1)).unwrap();
    assert!(sum.same_value(dec(3, 1)));
    let sum = dec(15, 0).checked_add(dec(75, 2)).unwrap();
    assert!(sum.same_value(dec(1575, 2)));
    assert!(!sum.same_value(dec(15, 0)));
}

#[test]
fn sub_is_exact() {
    let diff = dec(15, 0).checked_sub(dec(15, 0)).unwrap();
    assert!(diff.same_value(Amount::zero()));
    let diff = dec(10, 0).checked_sub(dec(25, 1)).unwrap();
    assert!(diff.same_value(dec(75, 1)));
}

#[test]
fn mul_adds_scales() {
    let product = dec(15, 0).checked_mul(dec(105, 2)).unwrap();
    assert_eq!(product.mantissa, 1575);
    assert_eq!(product.scale, 2);
    let zero = dec(15, 3).checked_mul(Amount::zero()).unwrap();
    assert_eq!(zero.mantissa, 0);
    assert_eq!(zero.scale, 0);
}

#[test]
fn mul_overflow_is_none() {
    let big = dec(79228162514264337593543950335, 0);
    assert!(big.checked_mul(dec(2, 0)).is_none());
}

#[test]
fn pow_is_exact_when_it_fits() {
    let square = dec(105, 2).checked_pow(2).unwrap();
    assert!(square.same_value(dec(11025, 4)));
    let one = dec(19, 1).checked_pow(0).unwrap();
    assert!(one.same_value(dec(1, 0)));
    let cube = dec(19, 1).checked_pow(3).unwrap();
    assert!(cube.same_value(dec(6859, 3)));
}

#[test]
fn pow_overflow_is_none() {
    assert!(dec(19, 1).checked_pow(200).is_none());
}

#[test]
fn at_least_compares_values() {
    assert!(dec(15, 0).at_least(dec(1500, 2)));
    assert!(dec(1500, 2).at_least(dec(15, 0)));
    assert!(!dec(10, 0).at_least(dec(30, 0)));
    assert!(dec(30, 0).at_least(dec(2999, 2)));
}

#[test]
fn valid_non_negative() {
    assert!(dec(0, 0).is_valid_non_negative());
    assert!(!dec(-1, 2).is_valid_non_negative());
    let bad = Amount { mantissa: 1, scale: 40 };
    assert!(!bad.is_valid_non_negative());
}

#[test]
fn whole_seconds_between_readings() {
    assert_eq!(seconds_between(0, 999), 0);
    assert_eq!(seconds_between(0, 1000), 1);
    assert_eq!(seconds_between(1000, 12_999), 11);
    assert_eq!(seconds_between(5000, 1000), 0);
    assert_eq!(seconds_between(i64::MIN, i64::MAX), 18_446_744_073_709_551);
}
