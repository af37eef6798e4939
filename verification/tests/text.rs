use deckbuilder::logger::GameLogger;
use deckbuilder::text::{append_decimal, decimal_string, digit_str};

#[test]
fn decimal_of_small_and_large_numbers() {
    assert_eq!(decimal_string(0), "0");
    assert_eq!(decimal_string(7), "7");
    assert_eq!(decimal_string(9), "9");
    assert_eq!(decimal_string(10), "10");
    assert_eq!(decimal_string(15), "15");
    assert_eq!(decimal_string(100), "100");
    assert_eq!(decimal_string(1203), "1203");
    assert_eq!(decimal_string(4294967295), "4294967295");
    assert_eq!(decimal_string(u64::MAX), "18446744073709551615");
}

#[test]
fn decimal_agrees_with_the_standard_rendering() {
    let mut n: u64 = 1;
    for _ in 0..40 {
        assert_eq!(decimal_string(n), n.to_string());
        assert_eq!(decimal_string(n - 1), (n - 1).to_string());
        n = n.wrapping_mul(3).wrapping_add(1);
    }
}

#[test]
fn append_decimal_keeps_what_is_there() {
    let mut line = "Turn ".to_string();
    append_decimal(&mut line, 42);
    assert_eq!(line, "Turn 42");
    append_decimal(&mut line, 0);
    assert_eq!(line, "Turn 420");
}

#[test]
fn digits_are_the_ten_numerals() {
    let all: Vec<&str> = (0..10).map(digit_str).collect();
    assert_eq!(all, ["0", "1", "2", "3", "4", "5", "6", "7", "8", "9"]);
}

#[test]
fn log_keeps_lines_in_order_and_keeps_repeats() {
    let mut logger = GameLogger::new();
    assert!(logger.get_log().is_empty());
    logger.add_entry("first".to_string());
    logger.add_entry("second".to_string());
    logger.add_entry("first".to_string());
    logger.add_entry(String::new());
    assert_eq!(logger.get_log(), ["first", "second", "first", ""]);
}
