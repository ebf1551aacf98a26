use global_hotkey::hotkey::{Code, HotKey, Modifiers};
use macro_paste::hotkey::{
    code_name, hotkey_for_registration, parse_hotkey, parse_hotkey_chord, parse_key_code,
    to_code, HotkeyChord, KeyCode,
};

fn chord(ctrl: bool, shift: bool, alt: bool, meta: bool, key: KeyCode) -> HotkeyChord {
    HotkeyChord { ctrl, shift, alt, meta, key }
}

#[test]
fn default_hotkey_parses_to_ctrl_shift_v() {
    assert_eq!(
        parse_hotkey_chord("Ctrl+Shift+V"),
        Some(chord(true, true, false, false, KeyCode::Letter('V')))
    );
}

#[test]
fn menu_hotkey_choices_all_parse() {
    assert_eq!(
        parse_hotkey_chord("Ctrl+Shift+P"),
        Some(chord(true, true, false, false, KeyCode::Letter('P')))
    );
    assert_eq!(
        parse_hotkey_chord("Ctrl+Alt+V"),
        Some(chord(true, false, true, false, KeyCode::Letter('V')))
    );
    assert_eq!(
        parse_hotkey_chord("Ctrl+Alt+P"),
        Some(chord(true, false, true, false, KeyCode::Letter('P')))
    );
}

#[test]
fn parts_are_trimmed_and_case_insensitive() {
    assert_eq!(
        parse_hotkey_chord("  ctrl + shift +  v "),
        Some(chord(true, true, false, false, KeyCode::Letter('V')))
    );
    assert_eq!(
        parse_hotkey_chord("CONTROL+alt+\tf5\n"),
        Some(chord(true, false, true, false, KeyCode::Function(5)))
    );
}

#[test]
fn meta_has_three_names() {
    for name in ["Win", "super", "META"] {
        let s = format!("{name}+1");
        assert_eq!(
            parse_hotkey_chord(&s),
            Some(chord(false, false, false, true, KeyCode::Digit('1')))
        );
    }
}

#[test]
fn key_alone_is_a_hotkey() {
    assert_eq!(
        parse_hotkey_chord("F12"),
        Some(chord(false, false, false, false, KeyCode::Function(12)))
    );
}

#[test]
fn hotkey_without_known_key_is_rejected() {
    assert_eq!(parse_hotkey_chord(""), None);
    assert_eq!(parse_hotkey_chord("Ctrl+Shift"), None);
    assert_eq!(parse_hotkey_chord("Ctrl+Shift+"), None);
    assert_eq!(parse_hotkey_chord("Ctrl+Enter"), None);
    assert_eq!(parse_hotkey_chord("Ctrl+F13"), None);
    assert_eq!(parse_hotkey_chord("Ctrl+VV"), None);
}

#[test]
fn last_key_part_decides() {
    assert_eq!(
        parse_hotkey_chord("Ctrl+V+Q"),
        Some(chord(true, false, false, false, KeyCode::Letter('Q')))
    );
    assert_eq!(parse_hotkey_chord("Ctrl+V+Nope"), None);
    assert_eq!(
        parse_hotkey_chord("X+Ctrl"),
        Some(chord(true, false, false, false, KeyCode::Letter('X')))
    );
}

#[test]
fn modifier_names_match_after_unicode_upper_casing() {
    // U+017F LATIN SMALL LETTER LONG S upper-cases to 'S'.
    assert_eq!(
        parse_hotkey_chord("\u{17f}hift+a"),
        Some(chord(false, true, false, false, KeyCode::Letter('A')))
    );
}

#[test]
fn key_codes_cover_letters_digits_and_function_keys() {
    assert_eq!(parse_key_code("a"), Some(KeyCode::Letter('A')));
    assert_eq!(parse_key_code("Z"), Some(KeyCode::Letter('Z')));
    assert_eq!(parse_key_code("0"), Some(KeyCode::Digit('0')));
    assert_eq!(parse_key_code("9"), Some(KeyCode::Digit('9')));
    assert_eq!(parse_key_code("f1"), Some(KeyCode::Function(1)));
    assert_eq!(parse_key_code("F9"), Some(KeyCode::Function(9)));
    assert_eq!(parse_key_code("F10"), Some(KeyCode::Function(10)));
    assert_eq!(parse_key_code("f11"), Some(KeyCode::Function(11)));
    assert_eq!(parse_key_code("F12"), Some(KeyCode::Function(12)));
    assert_eq!(parse_key_code("F0"), None);
    assert_eq!(parse_key_code("F01"), None);
    assert_eq!(parse_key_code("F13"), None);
    assert_eq!(parse_key_code("Ä"), None);
    assert_eq!(parse_key_code(""), None);
}

#[test]
fn key_names_are_upper_cased_by_unicode_rules() {
    // U+0131 LATIN SMALL LETTER DOTLESS I upper-cases to 'I'.
    assert_eq!(parse_key_code("\u{131}"), Some(KeyCode::Letter('I')));
    // 'ß' upper-cases to "SS", which names no key.
    assert_eq!(parse_key_code("ß"), None);
}

#[test]
fn code_names_are_the_w3c_names() {
    assert_eq!(code_name(KeyCode::Letter('V')), "KeyV");
    assert_eq!(code_name(KeyCode::Digit('7')), "Digit7");
    assert_eq!(code_name(KeyCode::Function(11)), "F11");
    assert_eq!(to_code(KeyCode::Letter('A')), Code::KeyA);
    assert_eq!(to_code(KeyCode::Digit('0')), Code::Digit0);
    assert_eq!(to_code(KeyCode::Function(12)), Code::F12);
}

#[test]
fn parsed_hotkey_is_the_global_hotkey_value() {
    let expected = HotKey::new(Some(Modifiers::CONTROL | Modifiers::SHIFT), Code::KeyV);
    assert_eq!(parse_hotkey("Ctrl+Shift+V"), Some(expected));
    let meta = HotKey::new(Some(Modifiers::META | Modifiers::ALT), Code::F4);
    assert_eq!(parse_hotkey("alt+win+f4"), Some(meta));
    assert_eq!(parse_hotkey("Ctrl+Shift"), None);
}

#[test]
fn registration_reports_invalid_hotkey() {
    match hotkey_for_registration("Ctrl+Shift+Enter") {
        Err(msg) => assert_eq!(msg, "Invalid hotkey: Ctrl+Shift+Enter"),
        Ok(_) => panic!("expected an error"),
    }
    let hk = hotkey_for_registration("Ctrl+Alt+P").ok().unwrap();
    assert_eq!(hk, HotKey::new(Some(Modifiers::CONTROL | Modifiers::ALT), Code::KeyP));
}

#[test]
fn modifier_order_padding_and_repeats_do_not_matter() {
    let expected = parse_hotkey("Ctrl+Shift+V");
    assert!(expected.is_some());
    assert_eq!(parse_hotkey(" shift + ctrl + v "), expected);
    assert_eq!(parse_hotkey("Shift+V+Ctrl"), expected);
    assert_eq!(parse_hotkey("Ctrl+Ctrl+Shift+V"), expected);
    assert_eq!(parse_hotkey("Ctrl+Ctrl+V"), parse_hotkey("Ctrl+V"));
    assert_eq!(parse_hotkey("Ctrl+V+V"), parse_hotkey("Ctrl+V"));
    assert_eq!(parse_hotkey("cTRL+shift+v"), expected);
    assert_eq!(
        parse_hotkey_chord("\tAlt +\u{3000}F4 "),
        Some(chord(false, false, true, false, KeyCode::Function(4)))
    );
}
