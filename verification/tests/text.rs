use engram::text::{i64_to_string, truncate_chars, unescape_chars};
use engram::{normalize_nfc, normalize_nfc_opt};

#[test]
fn nfc_composes_accents() {
    assert_eq!(normalize_nfc("e\u{301}"), "\u{e9}");
    assert_eq!(normalize_nfc("\u{1100}\u{1161}"), "\u{ac00}");
    assert_ne!(normalize_nfc("e\u{301}"), "e\u{301}");
    assert_eq!(normalize_nfc_opt(None), None);
    assert_eq!(normalize_nfc_opt(Some("a\u{30a}".into())).as_deref(), Some("\u{e5}"));
}

#[test]
fn decimal_and_cuts() {
    assert_eq!(i64_to_string(-120), "-120");
    assert_eq!(i64_to_string(i64::MIN), "-9223372036854775808");
    assert_eq!(i64_to_string(0), "0");
    assert_eq!(truncate_chars("abcdef", 3), "abc...");
    assert_eq!(truncate_chars("abc", 3), "abc");
    assert_eq!(unescape_chars("a\\nb\\n"), "a\nb\n");
    assert_eq!(unescape_chars("\\\\n"), "\\\n");
}

#[test]
fn unescaping_twice_is_unescaping_once() {
    use_unescape("a\\nb\\\\nc\\n");
    use_unescape("no escapes here");
    use_unescape("\\");
}

fn use_unescape(s: &str) {
    let u = engram::cli::unescape_newlines(s.to_string());
    assert_eq!(engram::cli::unescape_newlines(u.clone()), u);
    assert!(!u.contains("\\n"));
    assert_eq!(u.chars().count(), s.chars().count() - s.matches("\\n").count());
    if !s.contains("\\n") {
        assert_eq!(u, s);
    }
}
