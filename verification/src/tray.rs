//! The tray menu: its entries, labels and check marks for given settings.

use vstd::prelude::*;
use crate::text::{concat_str, decimal, push_decimal, str_eq};

verus! {

/// The hotkeys the menu offers.
pub open spec fn hotkey_choices() -> Seq<Seq<char>> {
    seq!["Ctrl+Shift+V"@, "Ctrl+Shift+P"@, "Ctrl+Alt+V"@, "Ctrl+Alt+P"@]
}

/// The pauses between keystrokes the menu offers, in milliseconds.
pub open spec fn delay_choices() -> Seq<u64> {
    seq![10, 20, 30, 50, 100, 200]
}

/// The hotkeys the menu offers, in menu order.
pub fn hotkey_choice_list() -> (res: Vec<&'static str>)
    ensures
        res@.map_values(|s: &str| s@) == hotkey_choices(),
{
    let mut v: Vec<&'static str> = Vec::new();
    v.push("Ctrl+Shift+V");
    v.push("Ctrl+Shift+P");
    v.push("Ctrl+Alt+V");
    v.push("Ctrl+Alt+P");
    assert(v@.map_values(|s: &str| s@) =~= hotkey_choices());
    v
}

/// The pauses the menu offers, in menu order.
pub fn delay_choice_list() -> (res: Vec<u64>)
    ensures
        res@ == delay_choices(),
{
    let mut v: Vec<u64> = Vec::new();
    v.push(10);
    v.push(20);
    v.push(30);
    v.push(50);
    v.push(100);
    v.push(200);
    assert(v@ =~= delay_choices());
    v
}

pub const PASTE_LABEL: &'static str = "Paste as Keystrokes";
pub const AUTOSTART_LABEL: &'static str = "Autostart";
pub const QUIT_LABEL: &'static str = "Quit";
pub const TOOLTIP: &'static str = "macro_paste – Paste clipboard as keystrokes";
/// A disabled hint shown on macOS: remote desktop clients in scancode mode
/// drop synthesized modifiers, so Unicode keyboard mode is needed there.
pub const RDP_HINT_LABEL: &'static str = "RDP tip: Keyboard Mode → Unicode (⌃⌘U)";

/// A check-mark entry of a submenu.
#[derive(Clone, Debug)]
pub struct CheckItem {
    pub label: String,
    pub checked: bool,
}

/// An entry of the delay submenu.
#[derive(Clone, Debug)]
pub struct DelayItem {
    pub ms: u64,
    pub label: String,
    pub checked: bool,
}

/// The content of the tray menu, top to bottom: the version line, the paste
/// entry, the hotkey submenu, the delay submenu, the autostart check box and
/// the quit entry.
#[derive(Clone, Debug)]
pub struct TrayMenu {
    pub version_label: String,
    pub hotkey_label: String,
    pub hotkey_items: Vec<CheckItem>,
    pub delay_label: String,
    pub delay_items: Vec<DelayItem>,
    pub autostart_checked: bool,
}

pub open spec fn hotkey_label_text(hotkey: Seq<char>) -> Seq<char> {
    "Hotkey: "@ + hotkey
}

pub open spec fn delay_label_text(ms: u64) -> Seq<char> {
    "Delay: "@ + decimal(ms as nat) + "ms"@
}

pub open spec fn delay_item_text(ms: u64) -> Seq<char> {
    decimal(ms as nat) + "ms"@
}

/// The title of the hotkey submenu for the current hotkey.
pub fn hotkey_label(hotkey: &str) -> (res: String)
    ensures
        res@ == hotkey_label_text(hotkey@),
{
    concat_str("Hotkey: ", hotkey)
}

/// The title of the delay submenu for the current pause.
pub fn delay_label(ms: u64) -> (res: String)
    ensures
        res@ == delay_label_text(ms),
{
    let mut s = String::from_str("Delay: ");
    push_decimal(&mut s, ms);
    s.append("ms");
    s
}

fn delay_item_label(ms: u64) -> (res: String)
    ensures
        res@ == delay_item_text(ms),
{
    let mut s = String::new();
    push_decimal(&mut s, ms);
    s.append("ms");
    assert(Seq::<char>::empty() + decimal(ms as nat) =~= decimal(ms as nat));
    s
}

/// Builds the tray menu's content for the current settings: the current
/// hotkey and pause are named in the submenu titles and checked in their
/// submenus.
pub fn build_tray(current_hotkey: &str, current_delay_ms: u64, autostart_enabled: bool, version: &str) -> (res: TrayMenu)
    ensures
        res.version_label@ == "macro_paste v"@ + version@,
        res.hotkey_label@ == hotkey_label_text(current_hotkey@),
        res.hotkey_items@.len() == hotkey_choices().len(),
        forall|i: int|
            0 <= i < hotkey_choices().len() ==> {
                &&& (#[trigger] res.hotkey_items@[i]).label@ == hotkey_choices()[i]
                &&& res.hotkey_items@[i].checked == (hotkey_choices()[i] == current_hotkey@)
            },
        res.delay_label@ == delay_label_text(current_delay_ms),
        res.delay_items@.len() == delay_choices().len(),
        forall|i: int|
            0 <= i < delay_choices().len() ==> {
                &&& (#[trigger] res.delay_items@[i]).ms == delay_choices()[i]
                &&& res.delay_items@[i].label@ == delay_item_text(delay_choices()[i])
                &&& res.delay_items@[i].checked == (delay_choices()[i] == current_delay_ms)
            },
        res.autostart_checked == autostart_enabled,
{
    let choices = hotkey_choice_list();
    let mut hotkey_items: Vec<CheckItem> = Vec::new();
    let mut i: usize = 0;
    while i < choices.len()
        invariant
            i <= choices@.len(),
            choices@.map_values(|s: &str| s@) == hotkey_choices(),
            hotkey_items@.len() == i,
            forall|k: int|
                0 <= k < i ==> {
                    &&& (#[trigger] hotkey_items@[k]).label@ == hotkey_choices()[k]
                    &&& hotkey_items@[k].checked == (hotkey_choices()[k] == current_hotkey@)
                },
        decreases choices.len() - i,
    {
        let choice = choices[i];
        assert(choice@ == hotkey_choices()[i as int]);
        let checked = str_eq(choice, current_hotkey);
        hotkey_items.push(CheckItem { label: String::from_str(choice), checked });
        i = i + 1;
    }
    let delays = delay_choice_list();
    let mut delay_items: Vec<DelayItem> = Vec::new();
    let mut j: usize = 0;
    while j < delays.len()
        invariant
            j <= delays@.len(),
            delays@ == delay_choices(),
            delay_items@.len() == j,
            forall|k: int|
                0 <= k < j ==> {
                    &&& (#[trigger] delay_items@[k]).ms == delay_choices()[k]
                    &&& delay_items@[k].label@ == delay_item_text(delay_choices()[k])
                    &&& delay_items@[k].checked == (delay_choices()[k] == current_delay_ms)
                },
        decreases delays.len() - j,
    {
        let ms = delays[j];
        delay_items.push(DelayItem { ms, label: delay_item_label(ms), checked: ms == current_delay_ms });
        j = j + 1;
    }
    TrayMenu {
        version_label: concat_str("macro_paste v", version),
        hotkey_label: hotkey_label(current_hotkey),
        hotkey_items,
        delay_label: delay_label(current_delay_ms),
        delay_items,
        autostart_checked: autostart_enabled,
    }
}

} // verus!
