use macro_paste::config::{Config, StoredConfig};
use macro_paste::tray::{build_tray, delay_choice_list, delay_label, hotkey_choice_list, hotkey_label};

#[test]
fn default_config_values() {
    let c = Config::default();
    assert_eq!(c.hotkey, "Ctrl+Shift+V");
    assert_eq!(c.delay_ms, 30);
    assert!(!c.autostart);
}

#[test]
fn missing_settings_file_gives_defaults_and_is_written() {
    let (c, write) = Config::from_stored(StoredConfig::Missing);
    assert_eq!((c.hotkey.as_str(), c.delay_ms, c.autostart), ("Ctrl+Shift+V", 30, false));
    assert!(write);
}

#[test]
fn unreadable_settings_file_gives_defaults_without_writing() {
    let (c, write) = Config::from_stored(StoredConfig::Found(None));
    assert_eq!((c.hotkey.as_str(), c.delay_ms, c.autostart), ("Ctrl+Shift+V", 30, false));
    assert!(!write);
}

#[test]
fn stored_settings_are_used() {
    let stored = Config { hotkey: "Ctrl+Alt+P".to_string(), delay_ms: 100, autostart: true };
    let (c, write) = Config::from_stored(StoredConfig::Found(Some(stored)));
    assert_eq!((c.hotkey.as_str(), c.delay_ms, c.autostart), ("Ctrl+Alt+P", 100, true));
    assert!(!write);
    let copy = c.snapshot();
    assert_eq!(copy.hotkey, "Ctrl+Alt+P");
}

#[test]
fn menu_offers_the_documented_choices() {
    assert_eq!(hotkey_choice_list(), vec!["Ctrl+Shift+V", "Ctrl+Shift+P", "Ctrl+Alt+V", "Ctrl+Alt+P"]);
    assert_eq!(delay_choice_list(), vec![10, 20, 30, 50, 100, 200]);
}

#[test]
fn tray_menu_for_default_settings() {
    let m = build_tray("Ctrl+Shift+V", 30, false, "0.3.1");
    assert_eq!(m.version_label, "macro_paste v0.3.1");
    assert_eq!(m.hotkey_label, "Hotkey: Ctrl+Shift+V");
    let hk: Vec<(String, bool)> = m.hotkey_items.iter().map(|i| (i.label.clone(), i.checked)).collect();
    assert_eq!(
        hk,
        vec![
            ("Ctrl+Shift+V".to_string(), true),
            ("Ctrl+Shift+P".to_string(), false),
            ("Ctrl+Alt+V".to_string(), false),
            ("Ctrl+Alt+P".to_string(), false),
        ]
    );
    assert_eq!(m.delay_label, "Delay: 30ms");
    let d: Vec<(u64, String, bool)> =
        m.delay_items.iter().map(|i| (i.ms, i.label.clone(), i.checked)).collect();
    assert_eq!(
        d,
        vec![
            (10, "10ms".to_string(), false),
            (20, "20ms".to_string(), false),
            (30, "30ms".to_string(), true),
            (50, "50ms".to_string(), false),
            (100, "100ms".to_string(), false),
            (200, "200ms".to_string(), false),
        ]
    );
    assert!(!m.autostart_checked);
}

#[test]
fn tray_menu_with_unlisted_settings_checks_nothing() {
    let m = build_tray("Win+F1", 75, true, "1.0.0");
    assert_eq!(m.hotkey_label, "Hotkey: Win+F1");
    assert!(m.hotkey_items.iter().all(|i| !i.checked));
    assert_eq!(m.delay_label, "Delay: 75ms");
    assert!(m.delay_items.iter().all(|i| !i.checked));
    assert!(m.autostart_checked);
    assert_eq!(hotkey_label("X"), "Hotkey: X");
    assert_eq!(delay_label(200), "Delay: 200ms");
}
