use server_supervisor::decimal::decimal_string;

#[test]
fn single_digits() {
    assert_eq!(decimal_string(0), "0");
    assert_eq!(decimal_string(7), "7");
    assert_eq!(decimal_string(9), "9");
}

#[test]
fn several_digits_most_significant_first() {
    assert_eq!(decimal_string(10), "10");
    assert_eq!(decimal_string(3333), "3333");
    assert_eq!(decimal_string(1024), "1024");
    assert_eq!(decimal_string(65535), "65535");
    assert_eq!(decimal_string(1234567890), "1234567890");
}

#[test]
fn largest_number() {
    assert_eq!(decimal_string(u64::MAX), "18446744073709551615");
}

#[test]
fn decimal_text_reads_back_as_the_number() {
    for n in [0u64, 1, 9, 10, 99, 100, 3333, 65535, 4294967296, u64::MAX] {
        assert_eq!(decimal_string(n).parse::<u64>(), Ok(n));
        assert_eq!(decimal_string(n), format!("{}", n));
    }
}
