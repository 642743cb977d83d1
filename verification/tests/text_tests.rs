use todo_service::text::{i32_to_decimal, u64_to_decimal};

#[test]
fn zero_is_a_single_digit() {
    assert_eq!(u64_to_decimal(0), "0");
    assert_eq!(i32_to_decimal(0), "0");
}

#[test]
fn single_digits() {
    let expected = ["0", "1", "2", "3", "4", "5", "6", "7", "8", "9"];
    let mut n: u64 = 0;
    while n < 10 {
        assert_eq!(u64_to_decimal(n), expected[n as usize]);
        n += 1;
    }
}

#[test]
fn digits_come_most_significant_first() {
    assert_eq!(u64_to_decimal(10), "10");
    assert_eq!(u64_to_decimal(1203), "1203");
    assert_eq!(u64_to_decimal(9_876_543_210), "9876543210");
}

#[test]
fn largest_unsigned_value() {
    assert_eq!(u64_to_decimal(u64::MAX), "18446744073709551615");
}

#[test]
fn negative_numbers_carry_a_minus_sign() {
    assert_eq!(i32_to_decimal(-1), "-1");
    assert_eq!(i32_to_decimal(-42), "-42");
    assert_eq!(i32_to_decimal(77), "77");
}

#[test]
fn extremes_of_the_signed_range() {
    assert_eq!(i32_to_decimal(i32::MAX), "2147483647");
    assert_eq!(i32_to_decimal(i32::MIN), "-2147483648");
}

#[test]
fn decimal_agrees_with_the_standard_rendering() {
    let samples: [u64; 8] = [0, 7, 19, 100, 999, 1000, 65_535, 4_294_967_296];
    for n in samples {
        assert_eq!(u64_to_decimal(n), format!("{}", n));
    }
    let signed: [i32; 6] = [0, -9, -10, 11, -100_000, 2_000_000_000];
    for n in signed {
        assert_eq!(i32_to_decimal(n), format!("{}", n));
    }
}
