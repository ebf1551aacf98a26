use macro_paste::utf16::{encode_utf16, first_char_lossy, is_control_char, to_wide_nul};

#[test]
fn encodes_like_std() {
    for c in ['a', 'é', '€', '\u{ffff}', '😀', '\u{10ffff}', '\u{10000}'] {
        let mut buf = [0u16; 2];
        assert_eq!(encode_utf16(c), c.encode_utf16(&mut buf).to_vec());
    }
}

#[test]
fn decoding_an_encoding_gives_the_character_back() {
    for c in ['a', '\u{0}', '\u{d7ff}', '\u{e000}', '€', '😀', '\u{10ffff}'] {
        assert_eq!(first_char_lossy(&encode_utf16(c)), Some(c));
    }
}

#[test]
fn lossy_decoding_replaces_lone_surrogates() {
    assert_eq!(first_char_lossy(&[]), None);
    assert_eq!(first_char_lossy(&[0xD800]), Some('\u{fffd}'));
    assert_eq!(first_char_lossy(&[0xDC00, 0x61]), Some('\u{fffd}'));
    assert_eq!(first_char_lossy(&[0xD83D, 0x61]), Some('\u{fffd}'));
    assert_eq!(first_char_lossy(&[0x61, 0xD800]), Some('a'));
    for units in [vec![0xD83Du16, 0xDE00], vec![0xDBFF, 0xDFFF, 0x20], vec![0x41]] {
        assert_eq!(
            first_char_lossy(&units),
            String::from_utf16_lossy(&units).chars().next()
        );
    }
}

#[test]
fn control_characters() {
    assert!(is_control_char('\n'));
    assert!(is_control_char('\u{7f}'));
    assert!(is_control_char('\u{9f}'));
    assert!(!is_control_char(' '));
    assert!(!is_control_char('\u{a0}'));
}

#[test]
fn wide_strings_end_with_nul() {
    assert_eq!(to_wide_nul("Hi"), vec![0x48, 0x69, 0]);
    assert_eq!(to_wide_nul(""), vec![0]);
    assert_eq!(to_wide_nul("a😀"), vec![0x61, 0xD83D, 0xDE00, 0]);
}
