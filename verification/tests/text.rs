use coderunner::peak_memory_usage::{mb, touch};
use coderunner::text::{decimal_text, find_piece_end, join, same_text, take_bytes, text_contains, trim};

#[test]
fn search_and_compare() {
    assert!(text_contains("hello world", "o w"));
    assert!(text_contains("abc", ""));
    assert!(!text_contains("abc", "abcd"));
    assert!(!text_contains("", "a"));
    assert!(same_text("é", "é"));
    assert!(!same_text("a", "ab"));
}

#[test]
fn trimming_and_cutting() {
    assert_eq!(trim("  a b \n"), "a b");
    assert_eq!(trim("\u{3000}x\u{85}"), "x");
    assert_eq!(trim(" \t "), "");
    assert_eq!(find_piece_end("ab cd", ' ', 0), 2);
    assert_eq!(find_piece_end("ab cd", ' ', 3), 5);
    assert_eq!(take_bytes("héllo", 2), "h");
    assert_eq!(take_bytes("héllo", 3), "hé");
    assert_eq!(take_bytes("hi", 10), "hi");
    assert_eq!(take_bytes("日本", 5), "日");
    assert_eq!(take_bytes("日本", 0), "");
}

#[test]
fn numbers_in_decimal() {
    assert_eq!(decimal_text(0), "0");
    assert_eq!(decimal_text(9), "9");
    assert_eq!(decimal_text(10), "10");
    assert_eq!(decimal_text(u64::MAX), u64::MAX.to_string());
    assert_eq!(join("a", "b"), "ab");
}

#[test]
fn memory_probe_helpers() {
    assert_eq!(mb(64), 64 * 1024 * 1024);
    let mut buf = vec![0u8, 1, 0xA6, 0xFF];
    touch(&mut buf);
    assert_eq!(buf, vec![0x5A, 0x5B, 0x00, 0x59]);
}
