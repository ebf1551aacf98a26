use macro_paste::app::{App, Effect, MenuAction, MenuDecision, MenuIds, SetupStep, WakeStep};
use macro_paste::config::Config;

fn ids() -> MenuIds {
    MenuIds {
        paste_now: "2".to_string(),
        quit: "15".to_string(),
        autostart: "14".to_string(),
        hotkey_items: vec![
            ("4".to_string(), "Ctrl+Shift+V".to_string()),
            ("5".to_string(), "Ctrl+Shift+P".to_string()),
            ("6".to_string(), "Ctrl+Alt+V".to_string()),
            ("7".to_string(), "Ctrl+Alt+P".to_string()),
        ],
        delay_items: vec![
            ("8".to_string(), 10),
            ("9".to_string(), 20),
            ("10".to_string(), 30),
            ("11".to_string(), 50),
            ("12".to_string(), 100),
            ("13".to_string(), 200),
        ],
    }
}

fn running_app() -> App {
    let mut app = App::new(Config::default());
    app.tray_built(ids());
    assert!(app.hotkey_registered(Ok(0x0208_0055)).is_empty());
    app
}

fn only_saves(effects: &[Effect]) -> usize {
    effects.iter().filter(|e| matches!(e, Effect::SaveConfig { report_errors: true })).count()
}

#[test]
fn setup_happens_once() {
    let mut app = App::new(Config::default());
    assert!(app.needs_setup());
    app.tray_built(ids());
    assert!(!app.needs_setup());
}

#[test]
fn tray_failure_shows_error_and_exits() {
    let e = App::tray_failed("no tray".to_string());
    assert!(matches!(&e[0], Effect::ShowError { title, message } if title == "Tray-Fehler" && message == "no tray"));
    assert!(matches!(e[1], Effect::ExitProcess { code: 1 }));
    assert_eq!(e.len(), 2);
}

#[test]
fn failed_hotkey_registration_is_shown() {
    let mut app = App::new(Config::default());
    let e = app.hotkey_registered(Err("taken".to_string()));
    assert!(matches!(&e[..], [Effect::ShowError { title, message }] if title == "Hotkey-Fehler" && message == "taken"));
    assert_eq!(app.current_hotkey, None);
}

#[test]
fn autostart_state_is_synced_quietly() {
    let mut app = running_app();
    assert!(app.sync_autostart(false).is_empty());
    let e = app.sync_autostart(true);
    assert!(matches!(&e[..], [Effect::SaveConfig { report_errors: false }]));
    assert!(app.config.autostart);
}

#[test]
fn menu_events_decode_to_actions() {
    let app = running_app();
    assert!(matches!(app.decode_menu_event("2"), MenuDecision::Act(MenuAction::Paste)));
    assert!(matches!(app.decode_menu_event("15"), MenuDecision::Act(MenuAction::Quit)));
    assert!(matches!(app.decode_menu_event("14"), MenuDecision::Act(MenuAction::ToggleAutostart)));
    assert!(matches!(app.decode_menu_event("6"), MenuDecision::Act(MenuAction::ChangeHotkey(h)) if h == "Ctrl+Alt+V"));
    assert!(matches!(app.decode_menu_event("12"), MenuDecision::Act(MenuAction::ChangeDelay(100))));
    assert!(matches!(app.decode_menu_event("1"), MenuDecision::Ignore));
    let fresh = App::new(Config::default());
    assert!(matches!(fresh.decode_menu_event("2"), MenuDecision::Stop));
}

#[test]
fn paste_uses_configured_delay() {
    let mut app = running_app();
    let e = app.handle_menu_action(MenuAction::Paste);
    assert!(matches!(&e[..], [Effect::Paste { delay_ms: 30 }]));
}

#[test]
fn hotkey_press_pastes_only_for_registered_hotkey() {
    let app = running_app();
    assert!(matches!(&app.hotkey_event(true, 0x0208_0055)[..], [Effect::Paste { delay_ms: 30 }]));
    assert!(app.hotkey_event(false, 0x0208_0055).is_empty());
    assert!(app.hotkey_event(true, 7).is_empty());
}

#[test]
fn quit_ends_the_event_loop() {
    let mut app = running_app();
    assert_eq!(app.about_to_wait(), WakeStep::Poll { ms: 50 });
    assert!(app.handle_menu_action(MenuAction::Quit).is_empty());
    assert_eq!(app.about_to_wait(), WakeStep::Exit);
}

#[test]
fn toggling_autostart_applies_marks_and_saves() {
    let mut app = running_app();
    let e = app.handle_menu_action(MenuAction::ToggleAutostart);
    assert!(matches!(
        &e[..],
        [
            Effect::ApplyAutostart { enable: true },
            Effect::CheckAutostart { on: true },
            Effect::SaveConfig { report_errors: true }
        ]
    ));
    assert!(app.config.autostart);
    app.handle_menu_action(MenuAction::ToggleAutostart);
    assert!(!app.config.autostart);
}

#[test]
fn changing_delay_saves_and_updates_menu() {
    let mut app = running_app();
    let e = app.handle_menu_action(MenuAction::ChangeDelay(100));
    assert_eq!(app.config.delay_ms, 100);
    assert_eq!(only_saves(&e), 1);
    assert!(matches!(&e[1], Effect::CheckDelays { checked } if checked == &vec![false, false, false, false, true, false]));
    assert!(matches!(&e[2], Effect::LabelDelay { text } if text == "Delay: 100ms"));
    assert_eq!(e.len(), 3);
}

#[test]
fn choosing_current_delay_only_restores_marks() {
    let mut app = running_app();
    let e = app.handle_menu_action(MenuAction::ChangeDelay(30));
    assert_eq!(app.config.delay_ms, 30);
    assert!(matches!(&e[..], [Effect::CheckDelays { checked }] if checked == &vec![false, false, true, false, false, false]));
}

#[test]
fn changing_hotkey_asks_for_registration_then_saves() {
    let mut app = running_app();
    let e = app.handle_menu_action(MenuAction::ChangeHotkey("Ctrl+Alt+P".to_string()));
    assert!(matches!(&e[..], [Effect::UpdateHotkey { hotkey }] if hotkey == "Ctrl+Alt+P"));
    assert_eq!(app.config.hotkey, "Ctrl+Shift+V");
    let done = app.hotkey_change_done("Ctrl+Alt+P", Ok(99));
    assert_eq!(app.config.hotkey, "Ctrl+Alt+P");
    assert_eq!(app.current_hotkey, Some(99));
    assert!(matches!(done[0], Effect::SaveConfig { report_errors: true }));
    assert!(matches!(&done[1], Effect::CheckHotkeys { checked } if checked == &vec![false, false, false, true]));
    assert!(matches!(&done[2], Effect::LabelHotkey { text } if text == "Hotkey: Ctrl+Alt+P"));
}

#[test]
fn failed_hotkey_change_keeps_settings_and_reverts_marks() {
    let mut app = running_app();
    let done = app.hotkey_change_done("Ctrl+Alt+V", Err("Failed to register hotkey: busy".to_string()));
    assert_eq!(app.config.hotkey, "Ctrl+Shift+V");
    assert_eq!(app.current_hotkey, Some(0x0208_0055));
    assert!(matches!(&done[0], Effect::ShowError { title, .. } if title == "Hotkey-Fehler"));
    assert!(matches!(&done[1], Effect::CheckHotkeys { checked } if checked == &vec![true, false, false, false]));
    assert_eq!(only_saves(&done), 0);
}

#[test]
fn choosing_current_hotkey_only_restores_marks() {
    let mut app = running_app();
    let e = app.handle_menu_action(MenuAction::ChangeHotkey("Ctrl+Shift+V".to_string()));
    assert!(matches!(&e[..], [Effect::CheckHotkeys { checked }] if checked == &vec![true, false, false, false]));
}

#[test]
fn hotkey_change_without_registered_hotkey_does_nothing() {
    let mut app = App::new(Config::default());
    app.tray_built(ids());
    let e = app.handle_menu_action(MenuAction::ChangeHotkey("Ctrl+Alt+P".to_string()));
    assert!(e.is_empty());
}

#[test]
fn setup_builds_tray_then_hotkey_then_autostart_once() {
    let mut app = App::new(Config::default());
    assert_eq!(
        app.setup_steps(),
        vec![SetupStep::BuildTray, SetupStep::RegisterHotkey, SetupStep::SyncAutostart]
    );
    app.tray_built(ids());
    assert!(app.setup_steps().is_empty());
}

#[test]
fn choosing_a_new_delay_marks_every_entry_and_same_choice_saves_nothing() {
    let mut app = running_app();
    let effects = app.handle_menu_action(MenuAction::ChangeDelay(100));
    assert!(effects.iter().any(|e| matches!(e, Effect::CheckDelays { checked }
        if *checked == vec![false, false, false, false, true, false])));
    assert!(effects.iter().any(|e| matches!(e, Effect::SaveConfig { .. })));
    let again = app.handle_menu_action(MenuAction::ChangeDelay(100));
    assert!(!again.iter().any(|e| matches!(e, Effect::SaveConfig { .. })));
    assert!(again.iter().any(|e| matches!(e, Effect::CheckDelays { checked }
        if *checked == vec![false, false, false, false, true, false])));
    let paste = app.handle_menu_action(MenuAction::Paste);
    assert!(!paste.iter().any(|e| matches!(e, Effect::SaveConfig { .. })));
}
