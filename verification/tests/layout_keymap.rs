use macro_paste::keystrokes::macos::{
    keymap_queries, modifier_keycode_list, pair_with_queries, send_unicode_char, uc_modifiers, KeyMap, KeyStroke,
    KeyOutput, LayoutModifiers,
};

/// A small US-like layout: key 0 gives a/A/å/Å, key 18 gives 1/!/¡/⁄, key 36
/// gives a carriage return, key 50 is a dead key that writes nothing.
fn layout_output(keycode: u16, mods: LayoutModifiers) -> (i32, Vec<u16>) {
    let ch = match (keycode, mods) {
        (0, LayoutModifiers::Plain) => "a",
        (0, LayoutModifiers::Shift) => "A",
        (0, LayoutModifiers::Option) => "å",
        (0, LayoutModifiers::ShiftOption) => "Å",
        (18, LayoutModifiers::Plain) => "1",
        (18, LayoutModifiers::Shift) => "!",
        (18, LayoutModifiers::Option) => "¡",
        (18, LayoutModifiers::ShiftOption) => "!",
        (36, _) => "\r",
        (40, _) => return (-1, vec![]),
        _ => "",
    };
    (0, ch.encode_utf16().collect())
}

fn layout() -> Vec<KeyOutput> {
    keymap_queries()
        .into_iter()
        .map(|(keycode, modifiers)| {
            let (status, units) = layout_output(keycode, modifiers);
            KeyOutput { keycode, modifiers, status, units }
        })
        .collect()
}

#[test]
fn keymap_builds_and_is_populated() {
    let map = KeyMap::build_keymap(&layout());
    assert!(map.contains('a'), "keymap should contain 'a'");
    assert_eq!(map.keystroke_for('a'), KeyStroke { keycode: 0, modifiers: LayoutModifiers::Plain });
}

#[test]
fn simplest_combination_wins() {
    let map = KeyMap::build_keymap(&layout());
    assert_eq!(map.keystroke_for('A'), KeyStroke { keycode: 0, modifiers: LayoutModifiers::Shift });
    assert_eq!(map.keystroke_for('Å'), KeyStroke { keycode: 0, modifiers: LayoutModifiers::ShiftOption });
    // '!' comes from Shift and from Shift+Option on key 18: Shift wins.
    assert_eq!(map.keystroke_for('!'), KeyStroke { keycode: 18, modifiers: LayoutModifiers::Shift });
}

#[test]
fn control_characters_and_failures_are_left_out() {
    let map = KeyMap::build_keymap(&layout());
    assert!(!map.contains('\r'));
    assert!(!map.contains('z'));
    assert_eq!(map.keystroke_for('z'), KeyStroke { keycode: 0, modifiers: LayoutModifiers::Plain });
}

#[test]
fn queries_cover_every_key_in_order() {
    let q = keymap_queries();
    assert_eq!(q.len(), 512);
    assert_eq!(q[0], (0, LayoutModifiers::Plain));
    assert_eq!(q[3], (0, LayoutModifiers::ShiftOption));
    assert_eq!(q[5], (1, LayoutModifiers::Shift));
    assert_eq!(q[511], (127, LayoutModifiers::ShiftOption));
    assert_eq!(uc_modifiers(LayoutModifiers::Plain), 0);
    assert_eq!(uc_modifiers(LayoutModifiers::Shift), 2);
    assert_eq!(uc_modifiers(LayoutModifiers::Option), 8);
    assert_eq!(uc_modifiers(LayoutModifiers::ShiftOption), 10);
}

#[test]
fn typed_character_carries_keystroke_and_text() {
    let map = KeyMap::build_keymap(&layout());
    let s = send_unicode_char(&map, 'å');
    assert_eq!(s.stroke, KeyStroke { keycode: 0, modifiers: LayoutModifiers::Option });
    assert_eq!(s.units, vec![0xE5]);
    let e = send_unicode_char(&map, '😀');
    assert_eq!(e.stroke, KeyStroke { keycode: 0, modifiers: LayoutModifiers::Plain });
    assert_eq!(e.units, vec![0xD83D, 0xDE00]);
    assert_eq!(modifier_keycode_list(), vec![0x37, 0x36, 0x38, 0x3C, 0x3B, 0x3E, 0x3A, 0x3D]);
}

#[test]
fn every_entry_comes_from_a_key_below_128() {
    let outputs = layout();
    let map = KeyMap::build_keymap(&outputs);
    for ch in ['a', 'A', 'å', 'Å', '1', '!', '¡'] {
        assert!(map.contains(ch));
        let stroke = map.keystroke_for(ch);
        assert!(stroke.keycode < 128);
        assert!(outputs.iter().any(|o| o.keycode == stroke.keycode
            && o.modifiers == stroke.modifiers
            && o.status == 0
            && String::from_utf16_lossy(&o.units).starts_with(ch)));
    }
}

#[test]
fn lookups_are_paired_with_their_keys() {
    let lookups: Vec<(i32, Vec<u16>)> =
        keymap_queries().into_iter().map(|(k, m)| layout_output(k, m)).collect();
    let paired = pair_with_queries(&lookups);
    assert_eq!(paired.len(), 512);
    assert_eq!(paired[73].keycode, 18);
    assert_eq!(paired[73].modifiers, LayoutModifiers::Shift);
    assert_eq!(paired[73].units, vec![0x21]);
    let map = KeyMap::build_from_lookups(&lookups);
    for ch in ['a', 'A', 'å', 'Å', '1', '!', '¡'] {
        assert_eq!(map.keystroke_for(ch), KeyMap::build_keymap(&layout()).keystroke_for(ch));
        assert!(map.keystroke_for(ch).keycode < 128);
    }
    // Results past the last query are left out.
    let mut longer = lookups.clone();
    longer.push((0, vec![0x7A]));
    assert_eq!(pair_with_queries(&longer).len(), 512);
    assert!(!KeyMap::build_from_lookups(&longer).contains('z'));
}
