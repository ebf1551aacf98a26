use macro_paste::text::{concat_str, join_path, push_decimal, split_str, str_eq, trim_str};

#[test]
fn trim_removes_unicode_white_space() {
    assert_eq!(trim_str("  a b \t"), "a b");
    assert_eq!(trim_str("\u{3000}x\u{a0}\u{2028}"), "x");
    assert_eq!(trim_str("   "), "");
    assert_eq!(trim_str(""), "");
    assert_eq!(trim_str("\u{200b}x"), "\u{200b}x");
}

#[test]
fn split_keeps_empty_pieces() {
    assert_eq!(split_str("Ctrl+Shift+V", '+'), vec!["Ctrl", "Shift", "V"]);
    assert_eq!(split_str("", '+'), vec![""]);
    assert_eq!(split_str("+", '+'), vec!["", ""]);
    assert_eq!(split_str("a++b+", '+'), vec!["a", "", "b", ""]);
}

#[test]
fn string_helpers() {
    assert!(str_eq("CTRL", "CTRL"));
    assert!(!str_eq("CTRL", "CTR"));
    assert!(!str_eq("CTRL", "CTRX"));
    assert_eq!(concat_str("Hotkey: ", "Ctrl+V"), "Hotkey: Ctrl+V");
    assert_eq!(join_path("a", "é"), "a/é");
}

#[test]
fn decimal_rendering() {
    for n in [0u64, 7, 10, 30, 200, 1234567890, u64::MAX] {
        let mut s = String::new();
        push_decimal(&mut s, n);
        assert_eq!(s, n.to_string());
    }
}
