use buddy::text::{contains, render_decimal, same_text};

#[test]
fn contains_finds_a_run_in_the_middle() {
    assert!(contains("hello world", "lo wo"));
    assert!(!contains("hello world", "low"));
}

#[test]
fn contains_takes_the_empty_needle() {
    assert!(contains("abc", ""));
    assert!(contains("", ""));
    assert!(!contains("", "a"));
}

#[test]
fn render_decimal_writes_digits_and_sign() {
    assert_eq!(render_decimal(0), "0");
    assert_eq!(render_decimal(7), "7");
    assert_eq!(render_decimal(255), "255");
    assert_eq!(render_decimal(-1), "-1");
    assert_eq!(render_decimal(i32::MAX), "2147483647");
    assert_eq!(render_decimal(i32::MIN), "-2147483648");
}

#[test]
fn same_text_compares_character_by_character() {
    assert!(same_text("/", "/"));
    assert!(!same_text("/", "//"));
    assert!(!same_text("ab", "ac"));
}
