use macro_paste::keystrokes::windows::{
    bmp_unit, is_key_down, modifier_key_list, send_unicode_char, send_virtual_key, split_vk_scan,
    LayoutKey, WinStep, VK_CONTROL, VK_MENU, VK_SHIFT,
};
use macro_paste::keystrokes::{
    key_for_char, paste_start_delay_ms, send_special_key, send_string_as_keystrokes,
    wait_for_modifiers_released, Platform, SpecialKey, TextKey, TypingStep,
};

#[test]
fn text_becomes_keys_with_pauses() {
    let steps = send_string_as_keystrokes("a\r\nb\tä", 30);
    let p = |k| TypingStep::Press(k);
    let w = TypingStep::Pause { ms: 30 };
    assert_eq!(
        steps,
        vec![
            p(TextKey::Char('a')),
            w,
            p(TextKey::Enter),
            w,
            p(TextKey::Char('b')),
            w,
            p(TextKey::Tab),
            w,
            p(TextKey::Char('ä')),
            w,
        ]
    );
}

#[test]
fn carriage_returns_are_not_typed() {
    assert_eq!(send_string_as_keystrokes("\r\r", 10), vec![]);
    assert_eq!(key_for_char('\r'), None);
    assert_eq!(send_string_as_keystrokes("", 10), vec![]);
}

#[test]
fn typing_concatenation_is_typing_in_turn() {
    let mut ab = send_string_as_keystrokes("x\r", 20);
    ab.extend(send_string_as_keystrokes("\ny", 20));
    assert_eq!(send_string_as_keystrokes("x\r\ny", 20), ab);
}

#[test]
fn special_key_codes() {
    assert_eq!(send_special_key(SpecialKey::Enter, Platform::Windows), 0x0D);
    assert_eq!(send_special_key(SpecialKey::Tab, Platform::Windows), 0x09);
    assert_eq!(send_special_key(SpecialKey::Enter, Platform::MacOs), 0x24);
    assert_eq!(send_special_key(SpecialKey::Tab, Platform::MacOs), 0x30);
}

#[test]
fn paste_waits_longer_on_macos() {
    assert_eq!(paste_start_delay_ms(Platform::Windows), 300);
    assert_eq!(paste_start_delay_ms(Platform::MacOs), 350);
}

#[test]
fn modifier_wait_ends_when_all_up_or_timed_out() {
    assert!(wait_for_modifiers_released(&[false, false, false], false));
    assert!(!wait_for_modifiers_released(&[false, true, false], false));
    assert!(wait_for_modifiers_released(&[true, true], true));
    assert!(wait_for_modifiers_released(&[], false));
}

#[test]
fn key_state_high_bit_means_down() {
    assert!(is_key_down(i16::MIN));
    assert!(is_key_down(-32767));
    assert!(!is_key_down(0));
    assert!(!is_key_down(1));
    assert!(!is_key_down(0x7fff));
    assert_eq!(modifier_key_list(), vec![0x10, 0x11, 0x12, 0x5B, 0x5C]);
}

#[test]
fn vk_scan_results_split_into_key_and_shift_state() {
    assert_eq!(split_vk_scan(-1), None);
    assert_eq!(split_vk_scan(0x0141), Some((0x41, 0x01)));
    assert_eq!(split_vk_scan(0x0632), Some((0x32, 0x06)));
    assert_eq!(split_vk_scan(0x0041), Some((0x41, 0)));
    assert_eq!(bmp_unit('€'), Some(0x20AC));
    assert_eq!(bmp_unit('😀'), None);
}

#[test]
fn layout_key_presses_modifiers_around_the_key() {
    // '@' on a German layout: AltGr = Ctrl+Alt with the Q key.
    let l = LayoutKey { vk: 0x51, shift_state: 6, scan: 0x10 };
    assert_eq!(
        send_unicode_char('@', Some(l)),
        vec![
            WinStep::Virtual { vk: VK_CONTROL, key_up: false },
            WinStep::Virtual { vk: VK_MENU, key_up: false },
            WinStep::Sleep { ms: 5 },
            WinStep::Scan { vk: 0x51, scan: 0x10, key_up: false },
            WinStep::Scan { vk: 0x51, scan: 0x10, key_up: true },
            WinStep::Sleep { ms: 5 },
            WinStep::Virtual { vk: VK_MENU, key_up: true },
            WinStep::Virtual { vk: VK_CONTROL, key_up: true },
        ]
    );
}

#[test]
fn layout_key_with_shift_and_without_modifiers() {
    let upper = LayoutKey { vk: 0x41, shift_state: 1, scan: 0x1E };
    assert_eq!(
        send_unicode_char('A', Some(upper)),
        vec![
            WinStep::Virtual { vk: VK_SHIFT, key_up: false },
            WinStep::Sleep { ms: 5 },
            WinStep::Scan { vk: 0x41, scan: 0x1E, key_up: false },
            WinStep::Scan { vk: 0x41, scan: 0x1E, key_up: true },
            WinStep::Sleep { ms: 5 },
            WinStep::Virtual { vk: VK_SHIFT, key_up: true },
        ]
    );
    let lower = LayoutKey { vk: 0x41, shift_state: 0, scan: 0x1E };
    assert_eq!(
        send_unicode_char('a', Some(lower)),
        vec![
            WinStep::Scan { vk: 0x41, scan: 0x1E, key_up: false },
            WinStep::Scan { vk: 0x41, scan: 0x1E, key_up: true },
        ]
    );
}

#[test]
fn unmapped_characters_fall_back_to_unicode_input() {
    assert_eq!(send_unicode_char('ß', None), vec![WinStep::Unicode { unit: 0xDF }]);
    assert_eq!(
        send_unicode_char('😀', None),
        vec![WinStep::Unicode { unit: 0xD83D }, WinStep::Unicode { unit: 0xDE00 }]
    );
    let no_scan = LayoutKey { vk: 0x41, shift_state: 0, scan: 0 };
    assert_eq!(send_unicode_char('a', Some(no_scan)), vec![WinStep::Unicode { unit: 0x61 }]);
}

#[test]
fn virtual_key_is_pressed_then_released() {
    assert_eq!(
        send_virtual_key(0x0D),
        vec![
            WinStep::Virtual { vk: 0x0D, key_up: false },
            WinStep::Virtual { vk: 0x0D, key_up: true },
        ]
    );
}

#[test]
fn windows_and_unix_line_endings_type_alike() {
    assert_eq!(
        send_string_as_keystrokes("one\r\ntwo\r\n", 30),
        send_string_as_keystrokes("one\ntwo\n", 30)
    );
}

#[test]
fn keys_do_not_depend_on_the_pause() {
    let presses = |steps: Vec<TypingStep>| -> Vec<TypingStep> {
        steps.into_iter().filter(|s| matches!(s, TypingStep::Press(_))).collect()
    };
    let slow = send_string_as_keystrokes("Hi\tthere\r\n", 200);
    let fast = send_string_as_keystrokes("Hi\tthere\r\n", 10);
    assert_eq!(slow.len(), fast.len());
    assert_eq!(presses(slow.clone()), presses(fast.clone()));
    for (i, s) in slow.iter().enumerate() {
        if i % 2 == 1 {
            assert_eq!(*s, TypingStep::Pause { ms: 200 });
        }
    }
}
