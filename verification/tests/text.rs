use tranquilo::text::{
    decimal_string, ends_with_extension, find_text, replace_first, str_contains, str_eq,
    str_less, strip_extension, to_chars,
};

#[test]
fn chars_of_a_string() {
    assert_eq!(to_chars("añb"), vec!['a', 'ñ', 'b']);
    assert_eq!(to_chars(""), Vec::<char>::new());
}

#[test]
fn lexicographic_order_matches_str_order() {
    let words = ["", "a", "A", "ab", "abc", "abd", "b", "Zebra", "zebra", "é", "z", "10", "9"];
    for x in words {
        for y in words {
            assert_eq!(str_less(x, y), x < y, "{x:?} < {y:?}");
            assert_eq!(str_eq(x, y), x == y, "{x:?} == {y:?}");
        }
    }
}

#[test]
fn prefix_comes_first() {
    assert!(str_less("Rain", "Rainfall"));
    assert!(!str_less("Rainfall", "Rain"));
    assert!(!str_less("Rain", "Rain"));
}

#[test]
fn extension_is_matched_in_any_case() {
    assert!(ends_with_extension("a.mp3", ".mp3"));
    assert!(ends_with_extension("a.MP3", ".mp3"));
    assert!(ends_with_extension("a.Mp3", ".mp3"));
    assert!(ends_with_extension(".mp3", ".mp3"));
    assert!(!ends_with_extension("mp3", ".mp3"));
    assert!(!ends_with_extension("a.mp4", ".mp3"));
    assert!(!ends_with_extension("a.mp3 ", ".mp3"));
    assert!(!ends_with_extension("a-mp3", ".mp3"));
    assert!(ends_with_extension("Theme.JSON", ".json"));
    assert!(!ends_with_extension("", ".json"));
}

#[test]
fn extension_is_stripped_once() {
    assert_eq!(strip_extension("Rain.mp3", ".mp3"), Some("Rain".to_string()));
    assert_eq!(strip_extension("Rain.MP3", ".mp3"), Some("Rain".to_string()));
    assert_eq!(strip_extension("a.mp3.mp3", ".mp3"), Some("a.mp3".to_string()));
    assert_eq!(strip_extension(".mp3", ".mp3"), Some(String::new()));
    assert_eq!(strip_extension("Été.mp3", ".mp3"), Some("Été".to_string()));
    assert_eq!(strip_extension("Rain.ogg", ".mp3"), None);
}

#[test]
fn first_occurrence_is_found() {
    assert_eq!(find_text("2024-05-01 12:00:00 UTC", "2024-05-01"), Some(0));
    assert_eq!(find_text("abcabc", "bc"), Some(1));
    assert_eq!(find_text("abcabc", "cab"), Some(2));
    assert_eq!(find_text("abc", ""), Some(0));
    assert_eq!(find_text("", ""), Some(0));
    assert_eq!(find_text("abc", "abcd"), None);
    assert_eq!(find_text("abc", "x"), None);
    assert_eq!(find_text("ñandú", "dú"), Some(3));
}

#[test]
fn containment() {
    assert!(str_contains("x 2024-05-01 y", "2024-05-01"));
    assert!(!str_contains("2024-05-02", "2024-05-01"));
    assert!(str_contains("abc", "c"));
}

#[test]
fn only_the_first_occurrence_is_replaced() {
    assert_eq!(replace_first("a-b-c", "-", "+"), "a+b-c");
    assert_eq!(replace_first("abc", "x", "y"), "abc");
    assert_eq!(replace_first("abc", "abc", ""), "");
    assert_eq!(replace_first("abc", "c", "cd"), "abcd");
    assert_eq!(replace_first("ñ=1", "=1", "=22"), "ñ=22");
}

#[test]
fn decimal_numerals() {
    assert_eq!(decimal_string(0), "0");
    assert_eq!(decimal_string(7), "7");
    assert_eq!(decimal_string(10), "10");
    assert_eq!(decimal_string(1_714_564_800_000), "1714564800000");
    assert_eq!(decimal_string(u64::MAX), "18446744073709551615");
}
