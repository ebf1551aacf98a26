use macro_paste::autostart::{
    autostart_change, disable_autostart, enable_autostart, launch_agent_plist,
    plist_path, toggle_autostart, AutostartChange,
};
use macro_paste::notify::{
    clicked_open_settings, contains_str, error_dialog_script, error_log_line,
    escape_applescript, PERMISSION_DIALOG_SCRIPT,
};
use macro_paste::single_instance::{lock_dir, lock_path};
use macro_paste::text::join_path;

const PLIST: &str = r#"<?xml version="1.0" encoding="UTF-8"?>
<!DOCTYPE plist PUBLIC "-//Apple//DTD PLIST 1.0//EN" "http://www.apple.com/DTDs/PropertyList-1.0.dtd">
<plist version="1.0">
<dict>
    <key>Label</key>
    <string>io.github.lovablepablo.macropaste</string>
    <key>ProgramArguments</key>
    <array>
        <string>/Applications/macro_paste.app/Contents/MacOS/macro_paste</string>
    </array>
    <key>RunAtLoad</key>
    <true/>
</dict>
</plist>"#;

#[test]
fn plist_lives_in_launch_agents() {
    assert_eq!(
        plist_path(Some("/Users/anna")).ok().unwrap(),
        "/Users/anna/Library/LaunchAgents/io.github.lovablepablo.macropaste.plist"
    );
    assert_eq!(
        plist_path(Some("/Users/anna/")).ok().unwrap(),
        "/Users/anna/Library/LaunchAgents/io.github.lovablepablo.macropaste.plist"
    );
    assert_eq!(plist_path(None).err().unwrap(), "HOME environment variable not set");
    assert_eq!(disable_autostart(None).err().unwrap(), "HOME environment variable not set");
}

#[test]
fn paths_join_like_std() {
    for (base, comp) in [("/a", "b"), ("/a/", "b"), ("", "b"), ("a//", "b")] {
        let expected = std::path::PathBuf::from(base).join(comp);
        assert_eq!(join_path(base, comp), expected.to_str().unwrap());
    }
}

#[test]
fn enabling_writes_the_launch_agent() {
    let exe = "/Applications/macro_paste.app/Contents/MacOS/macro_paste";
    assert_eq!(launch_agent_plist(exe), PLIST);
    let f = enable_autostart(exe, Some("/Users/anna")).ok().unwrap();
    assert_eq!(f.dir, "/Users/anna/Library/LaunchAgents");
    assert_eq!(f.path, "/Users/anna/Library/LaunchAgents/io.github.lovablepablo.macropaste.plist");
    assert_eq!(f.contents, PLIST);
    assert_eq!(enable_autostart(exe, None).err().unwrap(), "HOME environment variable not set");
}

#[test]
fn toggle_reports_new_state_or_error() {
    assert_eq!(autostart_change(true), AutostartChange::Enable);
    assert_eq!(autostart_change(false), AutostartChange::Disable);
    assert_eq!(toggle_autostart(true, Ok(())), Ok(true));
    assert_eq!(toggle_autostart(false, Ok(())), Ok(false));
    assert_eq!(toggle_autostart(true, Err("denied".to_string())), Err("denied".to_string()));
}

#[test]
fn dialog_text_escapes_quotes_and_backslashes() {
    assert_eq!(escape_applescript(r#"say "hi""#), r#"say \"hi\""#);
    assert_eq!(escape_applescript(r"a\b"), r"a\\b");
    assert_eq!(escape_applescript(r#"C:\x "y"\"#), r#"C:\\x \"y\"\\"#);
    assert_eq!(
        error_dialog_script(r"Pfad\Fehler", r"kein \n"),
        r#"display dialog "kein \\n" with title "Pfad\\Fehler" buttons {"OK"} default button "OK" with icon stop"#
    );
    assert_eq!(
        error_dialog_script("Hotkey-Fehler", "Invalid hotkey: \"X\""),
        r#"display dialog "Invalid hotkey: \"X\"" with title "Hotkey-Fehler" buttons {"OK"} default button "OK" with icon stop"#
    );
    assert_eq!(error_log_line("Config-Fehler", "disk full"), "Config-Fehler: disk full");
}

#[test]
fn permission_dialog_answer() {
    assert!(clicked_open_settings("button returned:Open Settings\n"));
    assert!(!clicked_open_settings("button returned:Later\n"));
    assert!(!clicked_open_settings(""));
    assert!(contains_str("abc", ""));
    assert!(contains_str("abc", "bc"));
    assert!(!contains_str("ab", "abc"));
    assert!(PERMISSION_DIALOG_SCRIPT.contains(r#"buttons {"Later", "Open Settings"}"#));
    assert!(PERMISSION_DIALOG_SCRIPT.contains("permission to send keystrokes.\\n\\nPlease"));
}

#[test]
fn lock_file_location() {
    assert_eq!(lock_dir(Some("/Users/anna")), "/Users/anna/.macropaste");
    assert_eq!(lock_path(Some("/Users/anna")), "/Users/anna/.macropaste/instance.lock");
    assert_eq!(lock_path(None), "/tmp/.macropaste/instance.lock");
}
