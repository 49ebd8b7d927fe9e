use vision_manager::decimal::{append_decimal, decimal_string};

#[test]
fn zero_is_a_single_digit() {
    assert_eq!(decimal_string(0), "0");
}

#[test]
fn single_digits() {
    assert_eq!(decimal_string(1), "1");
    assert_eq!(decimal_string(5), "5");
    assert_eq!(decimal_string(9), "9");
}

#[test]
fn powers_of_ten_keep_their_zeros() {
    assert_eq!(decimal_string(10), "10");
    assert_eq!(decimal_string(100), "100");
    assert_eq!(decimal_string(1000), "1000");
    assert_eq!(decimal_string(10000), "10000");
}

#[test]
fn inner_zeros_are_kept() {
    assert_eq!(decimal_string(101), "101");
    assert_eq!(decimal_string(5000), "5000");
    assert_eq!(decimal_string(60006), "60006");
}

#[test]
fn largest_value() {
    assert_eq!(decimal_string(u16::MAX), "65535");
}

#[test]
fn default_ports() {
    assert_eq!(decimal_string(1883), "1883");
    assert_eq!(decimal_string(5000), "5000");
}

#[test]
fn agrees_with_the_standard_rendering() {
    let mut n: u16 = 0;
    loop {
        assert_eq!(decimal_string(n), n.to_string());
        if n == u16::MAX {
            break;
        }
        n += 1;
    }
}

#[test]
fn reading_back_gives_the_number() {
    for n in [0u16, 9, 10, 99, 100, 1234, 40000, 65535] {
        assert_eq!(decimal_string(n).parse::<u16>(), Ok(n));
    }
}

#[test]
fn no_leading_zero_but_for_zero() {
    for n in [1u16, 10, 200, 3000, 65535] {
        assert!(!decimal_string(n).starts_with('0'));
    }
    assert!(decimal_string(0).starts_with('0'));
}

#[test]
fn append_keeps_what_was_there() {
    let mut text = String::from("port=");
    append_decimal(&mut text, 5000);
    assert_eq!(text, "port=5000");
    append_decimal(&mut text, 0);
    assert_eq!(text, "port=50000");
}
