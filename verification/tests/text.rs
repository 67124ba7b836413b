use daynight_capture::text::{chars_of, decimal_string, push_decimal, text_contains, text_equal};

#[test]
fn decimal_string_writes_plain_numerals() {
    assert_eq!(decimal_string(0), "0");
    assert_eq!(decimal_string(7), "7");
    assert_eq!(decimal_string(10), "10");
    assert_eq!(decimal_string(1080), "1080");
    assert_eq!(decimal_string(4_294_967_295), "4294967295");
    assert_eq!(decimal_string(u64::MAX), "18446744073709551615");
}

#[test]
fn push_decimal_appends() {
    let mut text = String::from("n=");
    push_decimal(&mut text, 1920);
    push_decimal(&mut text, 0);
    assert_eq!(text, "n=19200");
}

#[test]
fn chars_of_keeps_every_character() {
    assert_eq!(chars_of("a\\b"), vec!['a', '\\', 'b']);
    assert_eq!(chars_of("窓é"), vec!['窓', 'é']);
    assert!(chars_of("").is_empty());
}

#[test]
fn text_contains_is_a_plain_substring_test() {
    assert!(text_contains("window-0-_-Guild Wars 2", "Guild Wars 2"));
    assert!(text_contains("window-0-_-Guild Wars 2", "window-0"));
    assert!(text_contains("window-0-_-Guild Wars 2", "2"));
    assert!(text_contains("abc", "abc"));
    assert!(text_contains("abc", ""));
    assert!(text_contains("", ""));
    assert!(!text_contains("window-0-_-Guild Wars 2", "GW2"));
    assert!(!text_contains("window-0-_-Guild Wars 2", "guild"));
    assert!(!text_contains("abc", "abcd"));
    assert!(!text_contains("", "a"));
    assert!(text_contains("aab", "ab"));
    assert!(text_contains("Fenster – 窓", "– 窓"));
}

#[test]
fn text_equal_compares_characters() {
    assert!(text_equal("ocr_x", "ocr_x"));
    assert!(!text_equal("ocr_x", "ocr_y"));
    assert!(!text_equal("ocr_x", "ocr_"));
    assert!(text_equal("", ""));
}
