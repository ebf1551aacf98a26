//! The settings the program keeps between runs.

use vstd::prelude::*;
use crate::text::{join_path, path_join, path_join_ends_with_component};

verus! {

/// Application settings, stored as JSON.
#[derive(Clone, Debug)]
pub struct Config {
    /// Hotkey string, such as `"Ctrl+Shift+V"`.
    pub hotkey: String,
    /// Pause between two simulated keystrokes, in milliseconds.
    pub delay_ms: u64,
    /// Whether the program starts with the user session.
    pub autostart: bool,
}

/// The content of a `Config`.
pub ghost struct ConfigView {
    pub hotkey: Seq<char>,
    pub delay_ms: u64,
    pub autostart: bool,
}

impl View for Config {
    type V = ConfigView;

    open spec fn view(&self) -> ConfigView {
        ConfigView { hotkey: self.hotkey@, delay_ms: self.delay_ms, autostart: self.autostart }
    }
}

/// The settings of a first run.
pub open spec fn default_config() -> ConfigView {
    ConfigView { hotkey: "Ctrl+Shift+V"@, delay_ms: 30, autostart: false }
}

impl Default for Config {
    fn default() -> (res: Self)
        ensures
            res@ == default_config(),
    {
        Config { hotkey: String::from_str("Ctrl+Shift+V"), delay_ms: 30, autostart: false }
    }
}

/// What was found where the settings are stored.
#[derive(Clone, Debug)]
pub enum StoredConfig {
    /// There is no settings file.
    Missing,
    /// There is a file; `None` when it could not be read or parsed.
    Found(Option<Config>),
}

/// The settings to start with, and whether the default settings are to be
/// written out.
pub open spec fn loaded_config(stored: StoredConfig) -> (ConfigView, bool) {
    match stored {
        StoredConfig::Missing => (default_config(), true),
        StoredConfig::Found(Some(c)) => (c@, false),
        StoredConfig::Found(None) => (default_config(), false),
    }
}

impl Config {
    /// A copy of these settings.
    pub fn snapshot(&self) -> (res: Config)
        ensures
            res@ == self@,
    {
        Config { hotkey: self.hotkey.clone(), delay_ms: self.delay_ms, autostart: self.autostart }
    }

    /// The settings to start with: a missing file gives the defaults, which
    /// are then written out; a file that cannot be read or parsed gives the
    /// defaults and is left as it is.
    pub fn from_stored(stored: StoredConfig) -> (res: (Config, bool))
        ensures
            (res.0@, res.1) == loaded_config(stored),
    {
        match stored {
            StoredConfig::Missing => (Config::default(), true),
            StoredConfig::Found(Some(c)) => (c, false),
            StoredConfig::Found(None) => (Config::default(), false),
        }
    }
}

} // verus!

verus! {

/// The settings file on macOS, under the user's application support
/// directory.
pub open spec fn mac_config_file(home: Seq<char>) -> Seq<char> {
    path_join(
        path_join(path_join(path_join(home, "Library"@), "Application Support"@), "macro_paste"@),
        "config.json"@,
    )
}

/// The settings file on macOS for a home directory.
pub fn mac_config_path(home: &str) -> (res: String)
    ensures
        res@ == mac_config_file(home@),
{
    let a = join_path(home, "Library");
    let b = join_path(a.as_str(), "Application Support");
    let c = join_path(b.as_str(), "macro_paste");
    join_path(c.as_str(), "config.json")
}

/// On macOS the settings file is `config.json` in the program's own folder
/// `macro_paste`, under `Library/Application Support` in the home directory,
/// whatever the home directory is.
pub proof fn mac_config_file_in_own_folder(home: Seq<char>)
    ensures
        mac_config_file(home) == path_join(home, "Library"@)
            + "/Application Support/macro_paste/config.json"@,
        home.len() > 0 && home.last() != '/' ==> mac_config_file(home) == home
            + "/Library/Application Support/macro_paste/config.json"@,
        mac_config_file(home).len() >= 24,
        mac_config_file(home).subrange(
            mac_config_file(home).len() - 24,
            mac_config_file(home).len() as int,
        ) == "/macro_paste/config.json"@,
{
    reveal_strlit("Library");
    reveal_strlit("Application Support");
    reveal_strlit("macro_paste");
    reveal_strlit("config.json");
    reveal_strlit("/Application Support/macro_paste/config.json");
    reveal_strlit("/Library/Application Support/macro_paste/config.json");
    reveal_strlit("/macro_paste/config.json");
    let a = path_join(home, "Library"@);
    path_join_ends_with_component(home, "Library"@);
    let b = path_join(a, "Application Support"@);
    path_join_ends_with_component(a, "Application Support"@);
    let c = path_join(b, "macro_paste"@);
    path_join_ends_with_component(b, "macro_paste"@);
    assert(b == a.push('/') + "Application Support"@);
    assert(c == b.push('/') + "macro_paste"@);
    let f = mac_config_file(home);
    assert(f == c.push('/') + "config.json"@);
    assert(f =~= a + "/Application Support/macro_paste/config.json"@);
    if home.len() > 0 && home.last() != '/' {
        assert(a == home.push('/') + "Library"@);
        assert(f =~= home + "/Library/Application Support/macro_paste/config.json"@);
    }
    assert(f.subrange(f.len() - 24, f.len() as int) =~= "/macro_paste/config.json"@);
}

/// The name of the settings file next to the executable on Windows.
pub const CONFIG_FILE_NAME: &'static str = "config.json";

} // verus!
