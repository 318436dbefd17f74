use footager::site_dispatch::count_chars_matches;
use footager::text::{chars_of, contains_chars, find_bytes, find_chars, replace_chars, str_eq, string_from_chars};

fn v(s: &str) -> Vec<char> {
    s.chars().collect()
}

#[test]
fn text_find_and_contains() {
    assert_eq!(find_bytes(b"abcabc", b"ca"), Some(2));
    assert_eq!(find_bytes(b"abc", b"d"), None);
    assert_eq!(find_bytes(b"abc", b""), Some(0));
    assert_eq!(find_chars(&v("héllo"), &v("l")), Some(2));
    assert!(contains_chars(&v("a  b"), &v("  ")));
    assert!(!contains_chars(&v("a b"), &v("  ")));
}

#[test]
fn text_replace_scans_from_left() {
    assert_eq!(replace_chars(&v("     "), &v("   "), &v("x")), v("x  "));
    assert_eq!(replace_chars(&v("a-b-c"), &v("-"), &v(" ")), v("a b c"));
    assert_eq!(replace_chars(&v("aaaa"), &v("aa"), &v("b")), v("bb"));
}

#[test]
fn text_equality_and_conversion() {
    assert!(str_eq("artgrid.io", "artgrid.io"));
    assert!(!str_eq("artgrid.io", "artgrid.i"));
    assert_eq!(chars_of("žluť"), v("žluť"));
    assert_eq!(string_from_chars(&v("žluť")), "žluť");
}

#[test]
fn text_count_matches() {
    assert_eq!(count_chars_matches(&v("https://a/https://b"), &v("https://")), 2);
    assert_eq!(count_chars_matches(&v("aaa"), &v("aa")), 1);
    assert_eq!(count_chars_matches(&v(""), &v("a")), 0);
}
