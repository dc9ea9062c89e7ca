use rust_decimal::Decimal;
use squidward::payment_system::types::Amount;
use std::str::FromStr;

fn amount(text: &str) -> Amount {
    let d = Decimal::from_str(text).unwrap();
    Amount::new(d.mantissa(), d.scale()).unwrap()
}

#[test]
fn new_rejects_out_of_range_parts() {
    assert!(Amount::new(79228162514264337593543950335, 28).is_some());
    assert!(Amount::new(-79228162514264337593543950335, 0).is_some());
    assert!(Amount::new(79228162514264337593543950336, 0).is_none());
    assert!(Amount::new(1, 29).is_none());
    let a = Amount::new(-1234, 3).unwrap();
    assert_eq!(a.mantissa(), -1234);
    assert_eq!(a.scale(), 3);
}

#[test]
fn checked_add_keeps_the_larger_scale() {
    let sum = amount("1.5").checked_add(amount("2.25")).unwrap();
    assert_eq!(sum.mantissa(), 375);
    assert_eq!(sum.scale(), 2);
    assert_eq!(sum.to_string(), "3.75");
}

#[test]
fn checked_sub_gives_the_difference() {
    let diff = amount("1").checked_sub(amount("2.5")).unwrap();
    assert_eq!(diff, amount("-1.5"));
    assert!(diff.is_negative());
    assert!(!amount("0").is_negative());
    assert!(!amount("0.0001").is_negative());
}

#[test]
fn checked_add_overflow_is_none() {
    let max = Amount::new(79228162514264337593543950335, 0).unwrap();
    assert_eq!(max.checked_add(amount("1")), None);
    let min = Amount::new(-79228162514264337593543950335, 0).unwrap();
    assert_eq!(min.checked_sub(amount("1")), None);
}

#[test]
fn round_dp_uses_bankers_rounding() {
    assert_eq!(amount("6.5").round_dp(0), amount("6"));
    assert_eq!(amount("7.5").round_dp(0), amount("8"));
    assert_eq!(amount("-6.5").round_dp(0), amount("-6"));
    assert_eq!(amount("0.00055").round_dp(4), amount("0.0006"));
    assert_eq!(amount("0.00065").round_dp(4), amount("0.0006"));
    assert_eq!(amount("0.000651").round_dp(4), amount("0.0007"));
    assert_eq!(amount("1.23").round_dp(4), amount("1.23"));
}

#[test]
fn normalize_strips_trailing_zeros() {
    let n = amount("3.100").normalize();
    assert_eq!(n.mantissa(), 31);
    assert_eq!(n.scale(), 1);
    let z = amount("0.000").normalize();
    assert_eq!(z.mantissa(), 0);
    assert_eq!(z.scale(), 0);
    assert_eq!(amount("100").normalize().scale(), 0);
}

#[test]
fn to_string_shows_every_decimal_place() {
    assert_eq!(amount("1.00").to_string(), "1.00");
    assert_eq!(amount("0.05").to_string(), "0.05");
    assert_eq!(amount("-0.5").to_string(), "-0.5");
    assert_eq!(amount("0").to_string(), "0");
    assert_eq!(amount("0.000").to_string(), "0.000");
    assert_eq!(amount("12345").to_string(), "12345");
}

#[test]
fn equality_compares_values() {
    assert_eq!(amount("1.5"), amount("1.50"));
    assert_eq!(amount("0"), amount("0.000"));
    assert_ne!(amount("1.5"), amount("1.05"));
    assert_ne!(amount("-1"), amount("1"));
}

#[test]
fn result_scale_is_at_most_the_larger_scale() {
    let zero = amount("10").checked_sub(amount("10")).unwrap();
    assert!(zero.scale() <= 0);
    let back = zero.checked_add(amount("10")).unwrap();
    assert_eq!(back, amount("10"));
    assert!(amount("1.5").checked_add(amount("0.25")).unwrap().scale() <= 2);
}
