use intel_features::text::{
    debug_quoted, join_strings, parse_u32_str, split_once_owned, trim_owned, utf8_string,
};

#[test]
fn debug_text_quotes_and_escapes() {
    assert_eq!(debug_quoted("abc"), "\"abc\"");
    assert_eq!(debug_quoted("a\"b\n"), "\"a\\\"b\\n\"");
}

#[test]
fn utf8_decoding() {
    assert_eq!(utf8_string(&b"GenuineIntel".to_vec()).as_deref(), Some("GenuineIntel"));
    assert_eq!(utf8_string(&vec![0xe2, 0x80, 0x94]).as_deref(), Some("—"));
    assert_eq!(utf8_string(&vec![0xff, 0x41]), None);
}

#[test]
fn small_string_helpers() {
    assert_eq!(trim_owned("  x y \n"), "x y");
    assert_eq!(parse_u32_str("+42"), Some(42));
    assert_eq!(parse_u32_str("4294967296"), None);
    assert_eq!(
        split_once_owned("key: a:b", ':'),
        Some(("key".to_string(), " a:b".to_string()))
    );
    assert_eq!(split_once_owned("none", ':'), None);
    assert_eq!(
        join_strings(&vec!["a".to_string(), "b".to_string()], ", "),
        "a, b"
    );
}
