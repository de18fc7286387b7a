use gecko_random_minter::text::{decimal_string, NANOS_PER_SECOND};

#[test]
fn decimal_string_of_single_digits() {
    assert_eq!(decimal_string(0), "0");
    assert_eq!(decimal_string(1), "1");
    assert_eq!(decimal_string(9), "9");
}

#[test]
fn decimal_string_has_no_leading_zero() {
    assert_eq!(decimal_string(10), "10");
    assert_eq!(decimal_string(100), "100");
    assert_eq!(decimal_string(10000), "10000");
    assert_eq!(decimal_string(1_000_000_007), "1000000007");
}

#[test]
fn decimal_string_of_the_largest_number() {
    assert_eq!(decimal_string(u64::MAX), "18446744073709551615");
    assert_eq!(decimal_string(u32::MAX as u64), "4294967295");
}

#[test]
fn decimal_string_agrees_with_the_standard_library() {
    let mut n: u64 = 1;
    for _ in 0..64 {
        assert_eq!(decimal_string(n), format!("{}", n));
        assert_eq!(decimal_string(n - 1), format!("{}", n - 1));
        n = n.wrapping_mul(2);
        if n == 0 {
            break;
        }
    }
    for n in 0..2500u64 {
        assert_eq!(decimal_string(n), format!("{}", n));
    }
}

#[test]
fn a_second_has_a_billion_nanoseconds() {
    assert_eq!(NANOS_PER_SECOND, 1_000_000_000);
}
