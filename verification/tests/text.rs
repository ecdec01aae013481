use records_and_tracking::text::{last_segment_of, str_eq, trim_trailing_slashes};

#[test]
fn compares_texts() {
    assert!(str_eq("", ""));
    assert!(str_eq("ACTIVE", "ACTIVE"));
    assert!(!str_eq("ACTIVE", "ACTIVE "));
    assert!(!str_eq("ACTIVE", "active"));
    assert!(!str_eq("abc", "ab"));
    assert!(!str_eq("", "a"));
    assert!(str_eq("é√", "é√"));
}

#[test]
fn finds_the_last_segment() {
    assert_eq!(
        last_segment_of("projects/foo/databases/(default)/documents/courts/X/offenders/ABC"),
        "ABC"
    );
    assert_eq!(last_segment_of("ABC"), "ABC");
    assert_eq!(last_segment_of(""), "");
    assert_eq!(last_segment_of("a/"), "");
    assert_eq!(last_segment_of("/"), "");
    assert_eq!(last_segment_of("a//b"), "b");
    assert_eq!(last_segment_of("été/où"), "où");
}

#[test]
fn last_segment_agrees_with_rsplit() {
    for name in ["", "a", "a/b", "a/b/", "/a", "//", "x/y/z", "é/ü/√"] {
        let expected = name.rsplit('/').next().unwrap_or("").to_string();
        assert_eq!(last_segment_of(name), expected, "{}", name);
    }
}

#[test]
fn trims_trailing_slashes() {
    assert_eq!(trim_trailing_slashes("https://x.supabase.co/"), "https://x.supabase.co");
    assert_eq!(trim_trailing_slashes("https://x.supabase.co///"), "https://x.supabase.co");
    assert_eq!(trim_trailing_slashes("https://x.supabase.co"), "https://x.supabase.co");
    assert_eq!(trim_trailing_slashes(""), "");
    assert_eq!(trim_trailing_slashes("///"), "");
    assert_eq!(trim_trailing_slashes("a/b/"), "a/b");
    for text in ["", "/", "a/", "/a", "a//b//", "é/"] {
        assert_eq!(trim_trailing_slashes(text), text.trim_end_matches('/'), "{}", text);
    }
}
