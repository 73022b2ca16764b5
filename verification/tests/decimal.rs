use ollama_tool::decimal::decimal_string;

#[test]
fn zero_is_one_digit() {
    assert_eq!(decimal_string(0), "0");
}

#[test]
fn single_digits() {
    assert_eq!(decimal_string(7), "7");
    assert_eq!(decimal_string(9), "9");
}

#[test]
fn powers_of_ten_keep_their_zeros() {
    assert_eq!(decimal_string(10), "10");
    assert_eq!(decimal_string(100), "100");
    assert_eq!(decimal_string(1_000_000), "1000000");
}

#[test]
fn digits_come_most_significant_first() {
    assert_eq!(decimal_string(123), "123");
    assert_eq!(decimal_string(4_661_224_676), "4661224676");
}

#[test]
fn the_largest_number_is_written_in_full() {
    assert_eq!(decimal_string(u64::MAX), "18446744073709551615");
}

#[test]
fn agrees_with_the_standard_formatting() {
    let mut n: u64 = 1;
    for _ in 0..64 {
        assert_eq!(decimal_string(n), format!("{}", n));
        assert_eq!(decimal_string(n - 1), format!("{}", n - 1));
        n = n.wrapping_mul(3).wrapping_add(7);
    }
    for k in 0..2000u64 {
        assert_eq!(decimal_string(k), format!("{}", k));
    }
}
