use unifly::text::{center, contains_lit, fmt_i64, fmt_u64, join, lower, normalize, pad_left_align, pad_right_align, chars_of};

#[test]
fn numbers_are_spelled_in_decimal() {
    assert_eq!(fmt_u64(0), "0");
    assert_eq!(fmt_u64(18_446_744_073_709_551_615), "18446744073709551615");
    assert_eq!(fmt_i64(-66), "-66");
    assert_eq!(fmt_i64(i64::MIN), "-9223372036854775808");
}

#[test]
fn padding_matches_format_alignment() {
    assert_eq!(center(&"7".to_string(), 4), format!("{:^4}", "7"));
    assert_eq!(center(&"12".to_string(), 4), format!("{:^4}", "12"));
    assert_eq!(pad_right_align(&"ch6".to_string(), 4), format!("{:>4}", "ch6"));
    assert_eq!(pad_left_align(&"Wlan".to_string(), 11), format!("{:<11}", "Wlan"));
    assert_eq!(center(&"toolong".to_string(), 4), "toolong");
}

#[test]
fn joining_and_searching() {
    assert_eq!(join(&vec!["a".to_string(), "b".to_string(), "c".to_string()], ", "), "a, b, c");
    assert_eq!(join(&Vec::new(), ", "), "");
    assert!(contains_lit(&lower(&chars_of("X_Private_Key")), "private"));
    assert_eq!(normalize("  KiTTy\t").iter().collect::<String>(), "kitty");
}
