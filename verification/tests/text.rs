use nostr_rs_relay::text::{
    decimal_string, ends_with_str, find_char_str, find_sep_str, is_hex64_str, parse_unsigned_str,
    replace_str, str_eq, trim_str,
};
use nostr_rs_relay::utils::unix_time;

#[test]
fn trimming_unicode_whitespace() {
    assert_eq!(trim_str("  a b \t\n"), "a b");
    assert_eq!(trim_str("\u{3000}x\u{a0}"), "x");
    assert_eq!(trim_str("   "), "");
    assert_eq!(trim_str(""), "");
}

#[test]
fn unsigned_parsing_matches_std() {
    for s in ["0", "+7", "007", "18446744073709551615", "18446744073709551616", "", "+", "-1", "1 ", "1_0", "٣"] {
        assert_eq!(parse_unsigned_str(s, u64::MAX), s.parse::<u64>().ok(), "input {s:?}");
    }
    assert_eq!(parse_unsigned_str("256", 255), None);
    assert_eq!(parse_unsigned_str("255", 255), Some(255));
}

#[test]
fn decimal_rendering() {
    for n in [0u64, 9, 10, 4096, u64::MAX] {
        assert_eq!(decimal_string(n), n.to_string());
    }
}

#[test]
fn replacing_matches_std() {
    let cases = [("aaa", "aa", "b"), ("{x}{x}", "{x}", "1"), ("abc", "z", "y"), ("", "a", "b"), ("ababa", "aba", "X")];
    for (s, p, r) in cases {
        assert_eq!(replace_str(s, p, r), s.replace(p, r));
    }
}

#[test]
fn small_helpers() {
    assert!(str_eq("héllo", "héllo"));
    assert!(!str_eq("a", "ab"));
    assert!(is_hex64_str(&format!("{}1", "aF0".repeat(21))));
    assert!(!is_hex64_str(&"g".repeat(64)));
    assert!(!is_hex64_str(&"a".repeat(63)));
    assert_eq!(find_sep_str("x: y: z"), Some(1));
    assert_eq!(find_sep_str("x:y"), None);
    assert_eq!(find_char_str("ab/c/d", '/'), Some(2));
    assert!(ends_with_str("10KB", "KB"));
    assert!(!ends_with_str("B", "KB"));
    assert!(unix_time() > 1_600_000_000);
}
