use scilla::text::{decimal_text, lamports_to_sol, signed_decimal_text};

#[test]
fn decimal_of_zero() {
    assert_eq!(decimal_text(0), "0");
}

#[test]
fn decimal_of_single_digits() {
    for digit in 0..10u64 {
        assert_eq!(decimal_text(digit), digit.to_string());
    }
}

#[test]
fn decimal_of_several_digits() {
    assert_eq!(decimal_text(10), "10");
    assert_eq!(decimal_text(1234), "1234");
    assert_eq!(decimal_text(1_000_000_007), "1000000007");
}

#[test]
fn decimal_of_largest() {
    assert_eq!(decimal_text(u64::MAX), "18446744073709551615");
}

#[test]
fn decimal_agrees_with_std() {
    let mut n: u64 = 1;
    for _ in 0..64 {
        assert_eq!(decimal_text(n), n.to_string());
        assert_eq!(decimal_text(n - 1), (n - 1).to_string());
        n = n.wrapping_mul(2);
    }
}

#[test]
fn signed_decimal_of_positive_and_zero() {
    assert_eq!(signed_decimal_text(0), "0");
    assert_eq!(signed_decimal_text(1_700_000_000), "1700000000");
    assert_eq!(signed_decimal_text(i64::MAX), "9223372036854775807");
}

#[test]
fn signed_decimal_of_negative() {
    assert_eq!(signed_decimal_text(-1), "-1");
    assert_eq!(signed_decimal_text(-42), "-42");
    assert_eq!(signed_decimal_text(i64::MIN), "-9223372036854775808");
}

#[test]
fn sol_of_whole_amounts() {
    assert_eq!(lamports_to_sol(0), "0");
    assert_eq!(lamports_to_sol(1_000_000_000), "1");
    assert_eq!(lamports_to_sol(25_000_000_000), "25");
}

#[test]
fn sol_of_fractions() {
    assert_eq!(lamports_to_sol(1_500_000_000), "1.5");
    assert_eq!(lamports_to_sol(1), "0.000000001");
    assert_eq!(lamports_to_sol(2_282_880), "0.00228288");
    assert_eq!(lamports_to_sol(999_999_999), "0.999999999");
    assert_eq!(lamports_to_sol(1_000_000_001), "1.000000001");
    assert_eq!(lamports_to_sol(10_100_000_000), "10.1");
    assert_eq!(lamports_to_sol(123_456_789_012), "123.456789012");
}

#[test]
fn sol_of_largest() {
    assert_eq!(lamports_to_sol(u64::MAX), "18446744073.709551615");
}
