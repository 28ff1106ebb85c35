use localic_utils::numeric::{to_decimal_string, Decimal};

#[test]
fn decimal_digits_of_integers() {
    assert_eq!(to_decimal_string(0), "0");
    assert_eq!(to_decimal_string(7), "7");
    assert_eq!(to_decimal_string(10000000000), "10000000000");
    assert_eq!(to_decimal_string(u128::MAX), "340282366920938463463374607431768211455");
}

#[test]
fn percent_is_exact() {
    assert_eq!(Decimal::percent(10).atomics, 100_000_000_000_000_000);
    assert_eq!(Decimal::percent(10).to_decimal_string(), "0.1");
    assert_eq!(Decimal::percent(150).to_decimal_string(), "1.5");
    assert_eq!(Decimal::percent(200).to_decimal_string(), "2");
    assert_eq!(Decimal::permille(5).to_decimal_string(), "0.005");
    assert_eq!(Decimal::raw(1).to_decimal_string(), "0.000000000000000001");
    assert_eq!(Decimal::raw(0).to_decimal_string(), "0");
}

#[test]
fn ratio_rounds_down_and_rejects_zero_denominator() {
    assert_eq!(Decimal::checked_from_ratio(1, 3).unwrap().atomics, 333_333_333_333_333_333);
    assert_eq!(Decimal::checked_from_ratio(1, 0), None);
    assert_eq!(Decimal::checked_from_ratio(u128::MAX, 1), None);
}
