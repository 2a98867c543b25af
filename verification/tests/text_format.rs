use core_auth::codec::{bytes_to_hex, format_named_id, parse_dec_u64, parse_named_id, str_eq, u64_to_dec_string};
use core_auth::models::{format_account_id, format_session_id};

#[test]
fn decimal_formatting_exact() {
    assert_eq!(u64_to_dec_string(0), "0");
    assert_eq!(u64_to_dec_string(7), "7");
    assert_eq!(u64_to_dec_string(42), "42");
    assert_eq!(u64_to_dec_string(1000), "1000");
    assert_eq!(u64_to_dec_string(u64::MAX), "18446744073709551615");
}

#[test]
fn decimal_parsing_exact() {
    assert_eq!(parse_dec_u64("0"), Some(0));
    assert_eq!(parse_dec_u64("42"), Some(42));
    assert_eq!(parse_dec_u64("18446744073709551615"), Some(u64::MAX));
}

#[test]
fn decimal_parsing_rejects_non_canonical() {
    assert_eq!(parse_dec_u64(""), None);
    assert_eq!(parse_dec_u64("007"), None);
    assert_eq!(parse_dec_u64("-1"), None);
    assert_eq!(parse_dec_u64("4x2"), None);
    assert_eq!(parse_dec_u64(" 42"), None);
    // one past u64::MAX
    assert_eq!(parse_dec_u64("18446744073709551616"), None);
}

#[test]
fn decimal_round_trip() {
    for n in [0u64, 1, 9, 10, 99, 100, 12345678901234567, u64::MAX] {
        let s = u64_to_dec_string(n);
        assert_eq!(parse_dec_u64(&s), Some(n));
    }
}

#[test]
fn named_id_round_trip() {
    let t = format_named_id("acc_", 42);
    assert_eq!(t, "acc_42");
    assert_eq!(parse_named_id("acc_", &t), Some(42));
    assert_eq!(format_account_id(7), "acc_7");
    assert_eq!(format_session_id(7), "ses_7");
    assert_eq!(parse_named_id("ses_", "ses_0"), Some(0));
}

#[test]
fn named_id_rejects_malformed() {
    assert_eq!(parse_named_id("acc_", "acc_"), None);
    assert_eq!(parse_named_id("acc_", "acc_007"), None);
    assert_eq!(parse_named_id("acc_", "ses_7"), None);
    assert_eq!(parse_named_id("acc_", "7"), None);
    assert_eq!(parse_named_id("acc_", "acc_7x"), None);
}

#[test]
fn hex_rendering_exact() {
    assert_eq!(bytes_to_hex(&vec![]), "");
    assert_eq!(bytes_to_hex(&vec![0x00, 0xff, 0x1a]), "00ff1a");
    assert_eq!(bytes_to_hex(&vec![0xab]), "ab");
}

#[test]
fn str_eq_compares_contents() {
    assert!(str_eq("", ""));
    assert!(str_eq("abc", "abc"));
    assert!(!str_eq("abc", "abd"));
    assert!(!str_eq("abc", "ab"));
    let owned = String::from("abc");
    assert!(str_eq(&owned, "abc"));
}
