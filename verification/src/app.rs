//! The tray application's decisions: what each menu entry and hotkey press
//! does to the settings, and which outside effects follow, in order. The
//! platform layer performs the effects and reports their outcomes back.

use vstd::prelude::*;
use crate::config::{Config, ConfigView};
use crate::text::str_eq;
use crate::tray::{delay_label, delay_label_text, hotkey_label, hotkey_label_text};

verus! {

pub const TRAY_ERROR_TITLE: &'static str = "Tray-Fehler";
pub const HOTKEY_ERROR_TITLE: &'static str = "Hotkey-Fehler";
pub const AUTOSTART_ERROR_TITLE: &'static str = "Autostart-Fehler";
pub const CONFIG_ERROR_TITLE: &'static str = "Config-Fehler";

/// How often the event loop wakes to poll hotkey and menu events, in
/// milliseconds.
pub const POLL_INTERVAL_MS: u64 = 50;

/// The identifiers of the menu entries, as the menu reports them in events,
/// with the hotkey string or pause each submenu entry stands for.
#[derive(Clone, Debug)]
pub struct MenuIds {
    pub paste_now: String,
    pub quit: String,
    pub autostart: String,
    pub hotkey_items: Vec<(String, String)>,
    pub delay_items: Vec<(String, u64)>,
}

pub ghost struct MenuIdsView {
    pub paste_now: Seq<char>,
    pub quit: Seq<char>,
    pub autostart: Seq<char>,
    pub hotkey_items: Seq<(Seq<char>, Seq<char>)>,
    pub delay_items: Seq<(Seq<char>, u64)>,
}

impl View for MenuIds {
    type V = MenuIdsView;

    open spec fn view(&self) -> MenuIdsView {
        MenuIdsView {
            paste_now: self.paste_now@,
            quit: self.quit@,
            autostart: self.autostart@,
            hotkey_items: self.hotkey_items@.map_values(|p: (String, String)| (p.0@, p.1@)),
            delay_items: self.delay_items@.map_values(|p: (String, u64)| (p.0@, p.1)),
        }
    }
}

/// What a menu entry asks for.
#[derive(Clone, Debug)]
pub enum MenuAction {
    Paste,
    Quit,
    ToggleAutostart,
    ChangeHotkey(String),
    ChangeDelay(u64),
}

pub ghost enum ActionView {
    Paste,
    Quit,
    ToggleAutostart,
    ChangeHotkey(Seq<char>),
    ChangeDelay(u64),
}

impl View for MenuAction {
    type V = ActionView;

    open spec fn view(&self) -> ActionView {
        match self {
            MenuAction::Paste => ActionView::Paste,
            MenuAction::Quit => ActionView::Quit,
            MenuAction::ToggleAutostart => ActionView::ToggleAutostart,
            MenuAction::ChangeHotkey(h) => ActionView::ChangeHotkey(h@),
            MenuAction::ChangeDelay(ms) => ActionView::ChangeDelay(*ms),
        }
    }
}

/// What to do with a menu event.
#[derive(Clone, Debug)]
pub enum MenuDecision {
    /// The menu is not built yet: stop reading menu events for now.
    Stop,
    /// The event is not for an entry that does anything.
    Ignore,
    Act(MenuAction),
}

/// An effect for the platform layer, performed in order.
#[derive(Clone, Debug)]
pub enum Effect {
    /// Read the clipboard and, if it holds text, type it with this pause
    /// between keystrokes.
    Paste { delay_ms: u64 },
    /// Turn starting with the session on or off; a failure is shown under
    /// `AUTOSTART_ERROR_TITLE`.
    ApplyAutostart { enable: bool },
    CheckAutostart { on: bool },
    /// Write the settings; a failure is shown under `CONFIG_ERROR_TITLE` when
    /// `report_errors` holds.
    SaveConfig { report_errors: bool },
    /// Replace the registered hotkey by this one and report the outcome to
    /// `App::hotkey_change_done`.
    UpdateHotkey { hotkey: String },
    /// Set the check marks of the hotkey entries, in menu order.
    CheckHotkeys { checked: Vec<bool> },
    LabelHotkey { text: String },
    /// Set the check marks of the delay entries, in menu order.
    CheckDelays { checked: Vec<bool> },
    LabelDelay { text: String },
    ShowError { title: String, message: String },
    ExitProcess { code: i32 },
}

pub ghost enum EffectView {
    Paste { delay_ms: u64 },
    ApplyAutostart { enable: bool },
    CheckAutostart { on: bool },
    SaveConfig { report_errors: bool },
    UpdateHotkey { hotkey: Seq<char> },
    CheckHotkeys { checked: Seq<bool> },
    LabelHotkey { text: Seq<char> },
    CheckDelays { checked: Seq<bool> },
    LabelDelay { text: Seq<char> },
    ShowError { title: Seq<char>, message: Seq<char> },
    ExitProcess { code: i32 },
}

impl View for Effect {
    type V = EffectView;

    open spec fn view(&self) -> EffectView {
        match self {
            Effect::Paste { delay_ms } => EffectView::Paste { delay_ms: *delay_ms },
            Effect::ApplyAutostart { enable } => EffectView::ApplyAutostart { enable: *enable },
            Effect::CheckAutostart { on } => EffectView::CheckAutostart { on: *on },
            Effect::SaveConfig { report_errors } => EffectView::SaveConfig {
                report_errors: *report_errors,
            },
            Effect::UpdateHotkey { hotkey } => EffectView::UpdateHotkey { hotkey: hotkey@ },
            Effect::CheckHotkeys { checked } => EffectView::CheckHotkeys { checked: checked@ },
            Effect::LabelHotkey { text } => EffectView::LabelHotkey { text: text@ },
            Effect::CheckDelays { checked } => EffectView::CheckDelays { checked: checked@ },
            Effect::LabelDelay { text } => EffectView::LabelDelay { text: text@ },
            Effect::ShowError { title, message } => EffectView::ShowError {
                title: title@,
                message: message@,
            },
            Effect::ExitProcess { code } => EffectView::ExitProcess { code: *code },
        }
    }
}

pub open spec fn effects_view(v: Seq<Effect>) -> Seq<EffectView> {
    v.map_values(|e: Effect| e@)
}

/// What the event loop does when it wakes.
#[derive(Clone, Copy, Debug, PartialEq, Eq, Structural)]
pub enum WakeStep {
    /// Leave the event loop.
    Exit,
    /// Sleep until this many milliseconds from now, then handle the pending
    /// hotkey and menu events.
    Poll { ms: u64 },
}

/// The state of the tray application.
pub struct App {
    pub config: Config,
    /// Set once the tray is built.
    pub menu_ids: Option<MenuIds>,
    /// The id of the registered hotkey, while one is registered.
    pub current_hotkey: Option<u32>,
    pub should_exit: bool,
}

pub ghost struct AppView {
    pub config: ConfigView,
    pub menu: Option<MenuIdsView>,
    pub current_hotkey: Option<u32>,
    pub should_exit: bool,
}

impl View for App {
    type V = AppView;

    open spec fn view(&self) -> AppView {
        AppView {
            config: self.config@,
            menu: match self.menu_ids {
                Some(m) => Some(m@),
                None => None,
            },
            current_hotkey: self.current_hotkey,
            should_exit: self.should_exit,
        }
    }
}

/// The hotkey string of the first hotkey entry with this id.
pub open spec fn find_hotkey_item(items: Seq<(Seq<char>, Seq<char>)>, id: Seq<char>) -> Option<
    Seq<char>,
>
    decreases items.len(),
{
    if items.len() == 0 {
        None
    } else if items[0].0 == id {
        Some(items[0].1)
    } else {
        find_hotkey_item(items.drop_first(), id)
    }
}

/// The pause of the first delay entry with this id.
pub open spec fn find_delay_item(items: Seq<(Seq<char>, u64)>, id: Seq<char>) -> Option<u64>
    decreases items.len(),
{
    if items.len() == 0 {
        None
    } else if items[0].0 == id {
        Some(items[0].1)
    } else {
        find_delay_item(items.drop_first(), id)
    }
}

/// The action of the menu entry with this id.
pub open spec fn entry_action(ids: MenuIdsView, id: Seq<char>) -> Option<ActionView> {
    if id == ids.paste_now {
        Some(ActionView::Paste)
    } else if id == ids.quit {
        Some(ActionView::Quit)
    } else if id == ids.autostart {
        Some(ActionView::ToggleAutostart)
    } else if let Some(h) = find_hotkey_item(ids.hotkey_items, id) {
        Some(ActionView::ChangeHotkey(h))
    } else if let Some(ms) = find_delay_item(ids.delay_items, id) {
        Some(ActionView::ChangeDelay(ms))
    } else {
        None
    }
}

/// Per hotkey entry, whether it stands for `hotkey`.
pub open spec fn hotkey_flags(items: Seq<(Seq<char>, Seq<char>)>, hotkey: Seq<char>) -> Seq<bool> {
    items.map_values(|p: (Seq<char>, Seq<char>)| p.1 == hotkey)
}

/// Per delay entry, whether it stands for `ms`.
pub open spec fn delay_flags(items: Seq<(Seq<char>, u64)>, ms: u64) -> Seq<bool> {
    items.map_values(|p: (Seq<char>, u64)| p.1 == ms)
}

/// The check marks of the hotkey entries when `hotkey` is the current one,
/// as an effect, when the menu exists.
pub open spec fn hotkey_marks(menu: Option<MenuIdsView>, hotkey: Seq<char>) -> Seq<EffectView> {
    match menu {
        Some(m) => seq![
            EffectView::CheckHotkeys { checked: hotkey_flags(m.hotkey_items, hotkey) },
        ],
        None => Seq::empty(),
    }
}

/// The check marks of the delay entries when `ms` is the current pause, as
/// an effect, when the menu exists.
pub open spec fn delay_marks(menu: Option<MenuIdsView>, ms: u64) -> Seq<EffectView> {
    match menu {
        Some(m) => seq![
            EffectView::CheckDelays { checked: delay_flags(m.delay_items, ms) },
        ],
        None => Seq::empty(),
    }
}

/// The submenu title for a new hotkey, when the menu exists.
pub open spec fn hotkey_title(menu: Option<MenuIdsView>, hotkey: Seq<char>) -> Seq<EffectView> {
    match menu {
        Some(m) => seq![EffectView::LabelHotkey { text: hotkey_label_text(hotkey) }],
        None => Seq::empty(),
    }
}

/// The submenu title for a new pause, when the menu exists.
pub open spec fn delay_title(menu: Option<MenuIdsView>, ms: u64) -> Seq<EffectView> {
    match menu {
        Some(m) => seq![EffectView::LabelDelay { text: delay_label_text(ms) }],
        None => Seq::empty(),
    }
}

/// The state after a menu action, and the effects it asks for.
pub open spec fn action_result(s: AppView, a: ActionView) -> (AppView, Seq<EffectView>) {
    match a {
        ActionView::Paste => (s, seq![EffectView::Paste { delay_ms: s.config.delay_ms }]),
        ActionView::Quit => (AppView { should_exit: true, ..s }, Seq::empty()),
        ActionView::ToggleAutostart => {
            let on = !s.config.autostart;
            (
                AppView { config: ConfigView { autostart: on, ..s.config }, ..s },
                seq![EffectView::ApplyAutostart { enable: on }] + match s.menu {
                    Some(m) => seq![EffectView::CheckAutostart { on: on }],
                    None => Seq::empty(),
                } + seq![EffectView::SaveConfig { report_errors: true }],
            )
        },
        ActionView::ChangeHotkey(h) => if h == s.config.hotkey {
            (s, hotkey_marks(s.menu, h))
        } else if s.current_hotkey is Some {
            (s, seq![EffectView::UpdateHotkey { hotkey: h }])
        } else {
            (s, Seq::empty())
        },
        ActionView::ChangeDelay(ms) => if ms == s.config.delay_ms {
            (s, delay_marks(s.menu, ms))
        } else {
            (
                AppView { config: ConfigView { delay_ms: ms, ..s.config }, ..s },
                seq![EffectView::SaveConfig { report_errors: true }] + delay_marks(s.menu, ms)
                    + delay_title(s.menu, ms),
            )
        },
    }
}

/// The state after the registered hotkey was to be replaced by `hotkey`,
/// with the new hotkey's id or the error, and the effects that follow.
pub open spec fn hotkey_change_result(s: AppView, hotkey: Seq<char>, result: Result<u32, Seq<char>>) -> (
    AppView,
    Seq<EffectView>,
) {
    match result {
        Ok(id) => (
            AppView {
                config: ConfigView { hotkey: hotkey, ..s.config },
                current_hotkey: Some(id),
                ..s
            },
            seq![EffectView::SaveConfig { report_errors: true }] + hotkey_marks(s.menu, hotkey)
                + hotkey_title(s.menu, hotkey),
        ),
        Err(e) => (
            s,
            seq![EffectView::ShowError { title: HOTKEY_ERROR_TITLE@, message: e }] + hotkey_marks(
                s.menu,
                s.config.hotkey,
            ),
        ),
    }
}

pub open spec fn result_view(r: Result<u32, String>) -> Result<u32, Seq<char>> {
    match r {
        Ok(id) => Ok(id),
        Err(e) => Err(e@),
    }
}

} // verus!

verus! {

fn find_hotkey(items: &Vec<(String, String)>, id: &str) -> (res: Option<String>)
    ensures
        match res {
            Some(h) => find_hotkey_item(items@.map_values(|p: (String, String)| (p.0@, p.1@)), id@)
                == Some(h@),
            None => find_hotkey_item(items@.map_values(|p: (String, String)| (p.0@, p.1@)), id@)
                is None,
        },
{
    let ghost all = items@.map_values(|p: (String, String)| (p.0@, p.1@));
    let mut i: usize = 0;
    assert(all.skip(0) =~= all);
    while i < items.len()
        invariant
            i <= items@.len(),
            all == items@.map_values(|p: (String, String)| (p.0@, p.1@)),
            find_hotkey_item(all, id@) == find_hotkey_item(all.skip(i as int), id@),
        decreases items.len() - i,
    {
        assert(all.skip(i as int)[0] == all[i as int]);
        if str_eq(items[i].0.as_str(), id) {
            return Some(items[i].1.clone());
        }
        assert(all.skip(i as int).drop_first() =~= all.skip(i + 1));
        i = i + 1;
    }
    assert(all.skip(i as int).len() == 0);
    None
}

fn find_delay(items: &Vec<(String, u64)>, id: &str) -> (res: Option<u64>)
    ensures
        res == find_delay_item(items@.map_values(|p: (String, u64)| (p.0@, p.1)), id@),
{
    let ghost all = items@.map_values(|p: (String, u64)| (p.0@, p.1));
    let mut i: usize = 0;
    assert(all.skip(0) =~= all);
    while i < items.len()
        invariant
            i <= items@.len(),
            all == items@.map_values(|p: (String, u64)| (p.0@, p.1)),
            find_delay_item(all, id@) == find_delay_item(all.skip(i as int), id@),
        decreases items.len() - i,
    {
        assert(all.skip(i as int)[0] == all[i as int]);
        if str_eq(items[i].0.as_str(), id) {
            return Some(items[i].1);
        }
        assert(all.skip(i as int).drop_first() =~= all.skip(i + 1));
        i = i + 1;
    }
    assert(all.skip(i as int).len() == 0);
    None
}

fn hotkey_checks(items: &Vec<(String, String)>, hotkey: &str) -> (res: Vec<bool>)
    ensures
        res@ == hotkey_flags(items@.map_values(|p: (String, String)| (p.0@, p.1@)), hotkey@),
{
    let ghost all = hotkey_flags(items@.map_values(|p: (String, String)| (p.0@, p.1@)), hotkey@);
    let mut v: Vec<bool> = Vec::new();
    let mut i: usize = 0;
    while i < items.len()
        invariant
            i <= items@.len(),
            all == hotkey_flags(items@.map_values(|p: (String, String)| (p.0@, p.1@)), hotkey@),
            v@ == all.take(i as int),
        decreases items.len() - i,
    {
        v.push(str_eq(items[i].1.as_str(), hotkey));
        i = i + 1;
        assert(v@ =~= all.take(i as int));
    }
    assert(all.take(i as int) =~= all);
    v
}

fn delay_checks(items: &Vec<(String, u64)>, ms: u64) -> (res: Vec<bool>)
    ensures
        res@ == delay_flags(items@.map_values(|p: (String, u64)| (p.0@, p.1)), ms),
{
    let ghost all = delay_flags(items@.map_values(|p: (String, u64)| (p.0@, p.1)), ms);
    let mut v: Vec<bool> = Vec::new();
    let mut i: usize = 0;
    while i < items.len()
        invariant
            i <= items@.len(),
            all == delay_flags(items@.map_values(|p: (String, u64)| (p.0@, p.1)), ms),
            v@ == all.take(i as int),
        decreases items.len() - i,
    {
        v.push(items[i].1 == ms);
        i = i + 1;
        assert(v@ =~= all.take(i as int));
    }
    assert(all.take(i as int) =~= all);
    v
}

fn push_hotkey_marks(effects: &mut Vec<Effect>, menu: &Option<MenuIds>, hotkey: &str)
    ensures
        effects_view(final(effects)@) == effects_view(old(effects)@) + hotkey_marks(
            match menu {
                Some(m) => Some(m@),
                None => None,
            },
            hotkey@,
        ),
{
    let ghost before = old(effects)@;
    match menu {
        Some(ids) => {
            effects.push(Effect::CheckHotkeys { checked: hotkey_checks(&ids.hotkey_items, hotkey) });
        },
        None => {},
    }
    assert(effects_view(effects@) =~= effects_view(before) + hotkey_marks(
        match menu {
            Some(m) => Some(m@),
            None => None,
        },
        hotkey@,
    ));
}

fn push_delay_marks(effects: &mut Vec<Effect>, menu: &Option<MenuIds>, ms: u64)
    ensures
        effects_view(final(effects)@) == effects_view(old(effects)@) + delay_marks(
            match menu {
                Some(m) => Some(m@),
                None => None,
            },
            ms,
        ),
{
    let ghost before = old(effects)@;
    match menu {
        Some(ids) => {
            let checked = delay_checks(&ids.delay_items, ms);
            effects.push(Effect::CheckDelays { checked });
            assert(effects_view(effects@) =~= effects_view(before) + delay_marks(Some(ids@), ms));
        },
        None => {
            assert(effects_view(effects@) =~= effects_view(before) + delay_marks(None, ms));
        },
    }
    assert(effects_view(effects@) =~= effects_view(before) + delay_marks(
        match menu {
            Some(m) => Some(m@),
            None => None,
        },
        ms,
    ));
}

impl App {
    /// A freshly started application with the loaded settings.
    pub fn new(config: Config) -> (res: App)
        ensures
            res@ == (AppView {
                config: config@,
                menu: None,
                current_hotkey: None,
                should_exit: false,
            }),
    {
        App { config, menu_ids: None, current_hotkey: None, should_exit: false }
    }

    /// Whether the tray and hotkey still have to be set up; they are set up
    /// once, on the first resume.
    pub fn needs_setup(&self) -> (res: bool)
        ensures
            res == (self@.menu is None),
    {
        self.menu_ids.is_none()
    }

    /// Records the built tray menu.
    pub fn tray_built(&mut self, ids: MenuIds)
        ensures
            final(self)@ == (AppView { menu: Some(ids@), ..old(self)@ }),
    {
        self.menu_ids = Some(ids);
    }

    /// The effects when the tray could not be built: show the error, then
    /// end the process with status 1.
    pub fn tray_failed(message: String) -> (res: Vec<Effect>)
        ensures
            effects_view(res@) == seq![
                EffectView::ShowError { title: TRAY_ERROR_TITLE@, message: message@ },
                EffectView::ExitProcess { code: 1 },
            ],
    {
        let mut v: Vec<Effect> = Vec::new();
        v.push(Effect::ShowError { title: String::from_str(TRAY_ERROR_TITLE), message });
        v.push(Effect::ExitProcess { code: 1 });
        assert(effects_view(v@) =~= seq![
            EffectView::ShowError { title: TRAY_ERROR_TITLE@, message: message@ },
            EffectView::ExitProcess { code: 1 },
        ]);
        v
    }

    /// Records the outcome of registering the configured hotkey at start:
    /// its id, or the error, which is shown.
    pub fn hotkey_registered(&mut self, result: Result<u32, String>) -> (res: Vec<Effect>)
        ensures
            match result {
                Ok(id) => final(self)@ == (AppView { current_hotkey: Some(id), ..old(self)@ })
                    && res@.len() == 0,
                Err(e) => final(self)@ == old(self)@ && effects_view(res@) == seq![
                    EffectView::ShowError { title: HOTKEY_ERROR_TITLE@, message: e@ },
                ],
            },
    {
        let mut v: Vec<Effect> = Vec::new();
        match result {
            Ok(id) => {
                self.current_hotkey = Some(id);
            },
            Err(e) => {
                v.push(Effect::ShowError { title: String::from_str(HOTKEY_ERROR_TITLE), message: e });
                assert(effects_view(v@) =~= seq![
                    EffectView::ShowError { title: HOTKEY_ERROR_TITLE@, message: e@ },
                ]);
            },
        }
        v
    }

    /// Adopts the system's actual autostart state at start; when it differs
    /// from the settings, the settings follow it and are saved, a failure
    /// to save going unreported.
    pub fn sync_autostart(&mut self, actual: bool) -> (res: Vec<Effect>)
        ensures
            actual == old(self)@.config.autostart ==> final(self)@ == old(self)@ && res@.len()
                == 0,
            actual != old(self)@.config.autostart ==> final(self)@ == (AppView {
                config: ConfigView { autostart: actual, ..old(self)@.config },
                ..old(self)@
            }) && effects_view(res@) == seq![EffectView::SaveConfig { report_errors: false }],
    {
        let mut v: Vec<Effect> = Vec::new();
        if actual != self.config.autostart {
            self.config.autostart = actual;
            v.push(Effect::SaveConfig { report_errors: false });
            assert(effects_view(v@) =~= seq![EffectView::SaveConfig { report_errors: false }]);
        }
        v
    }

    /// What the event loop does when it wakes: leave once quitting was
    /// asked for, else poll again after `POLL_INTERVAL_MS`.
    pub fn about_to_wait(&self) -> (res: WakeStep)
        ensures
            res == (if self@.should_exit {
                WakeStep::Exit
            } else {
                WakeStep::Poll { ms: POLL_INTERVAL_MS }
            }),
    {
        if self.should_exit {
            WakeStep::Exit
        } else {
            WakeStep::Poll { ms: POLL_INTERVAL_MS }
        }
    }

    /// The effects of a global hotkey event: a press of the registered
    /// hotkey pastes; releases and other hotkeys do nothing.
    pub fn hotkey_event(&self, pressed: bool, event_id: u32) -> (res: Vec<Effect>)
        ensures
            effects_view(res@) == (if pressed && self@.current_hotkey == Some(event_id) {
                seq![EffectView::Paste { delay_ms: self@.config.delay_ms }]
            } else {
                Seq::empty()
            }),
    {
        let mut v: Vec<Effect> = Vec::new();
        if pressed {
            match self.current_hotkey {
                Some(id) => {
                    if id == event_id {
                        v.push(Effect::Paste { delay_ms: self.config.delay_ms });
                    }
                },
                None => {},
            }
        }
        assert(effects_view(v@) =~= (if pressed && self@.current_hotkey == Some(event_id) {
            seq![EffectView::Paste { delay_ms: self@.config.delay_ms }]
        } else {
            Seq::empty()
        }));
        v
    }

    /// Which action a menu event with this id asks for.
    pub fn decode_menu_event(&self, event_id: &str) -> (res: MenuDecision)
        ensures
            match self@.menu {
                None => res is Stop,
                Some(m) => match entry_action(m, event_id@) {
                    Some(a) => res matches MenuDecision::Act(x) && x@ == a,
                    None => res is Ignore,
                },
            },
    {
        let ids = match &self.menu_ids {
            Some(ids) => ids,
            None => {
                return MenuDecision::Stop;
            },
        };
        if str_eq(event_id, ids.paste_now.as_str()) {
            MenuDecision::Act(MenuAction::Paste)
        } else if str_eq(event_id, ids.quit.as_str()) {
            MenuDecision::Act(MenuAction::Quit)
        } else if str_eq(event_id, ids.autostart.as_str()) {
            MenuDecision::Act(MenuAction::ToggleAutostart)
        } else {
            match find_hotkey(&ids.hotkey_items, event_id) {
                Some(h) => MenuDecision::Act(MenuAction::ChangeHotkey(h)),
                None => match find_delay(&ids.delay_items, event_id) {
                    Some(ms) => MenuDecision::Act(MenuAction::ChangeDelay(ms)),
                    None => MenuDecision::Ignore,
                },
            }
        }
    }

    /// Carries out a menu action on the settings and returns the effects
    /// that follow, in order.
    pub fn handle_menu_action(&mut self, action: MenuAction) -> (res: Vec<Effect>)
        ensures
            (final(self)@, effects_view(res@)) == action_result(old(self)@, action@),
    {
        let ghost s = self@;
        let mut v: Vec<Effect> = Vec::new();
        match action {
            MenuAction::Paste => {
                v.push(Effect::Paste { delay_ms: self.config.delay_ms });
                assert(effects_view(v@) =~= seq![EffectView::Paste { delay_ms: s.config.delay_ms }]);
            },
            MenuAction::Quit => {
                self.should_exit = true;
                assert(effects_view(v@) =~= Seq::<EffectView>::empty());
            },
            MenuAction::ToggleAutostart => {
                let on = !self.config.autostart;
                self.config.autostart = on;
                v.push(Effect::ApplyAutostart { enable: on });
                if self.menu_ids.is_some() {
                    v.push(Effect::CheckAutostart { on });
                }
                v.push(Effect::SaveConfig { report_errors: true });
                assert(effects_view(v@) =~= action_result(s, action@).1);
            },
            MenuAction::ChangeHotkey(h) => {
                if str_eq(h.as_str(), self.config.hotkey.as_str()) {
                    push_hotkey_marks(&mut v, &self.menu_ids, h.as_str());
                    assert(effects_view(v@) =~= action_result(s, action@).1);
                } else if self.current_hotkey.is_some() {
                    v.push(Effect::UpdateHotkey { hotkey: h });
                    assert(effects_view(v@) =~= action_result(s, action@).1);
                } else {
                    assert(effects_view(v@) =~= action_result(s, action@).1);
                }
            },
            MenuAction::ChangeDelay(ms) => {
                if ms == self.config.delay_ms {
                    push_delay_marks(&mut v, &self.menu_ids, ms);
                    assert(effects_view(v@) =~= action_result(s, action@).1);
                } else {
                    self.config.delay_ms = ms;
                    v.push(Effect::SaveConfig { report_errors: true });
                    assert(effects_view(v@) =~= seq![EffectView::SaveConfig { report_errors: true }]);
                    push_delay_marks(&mut v, &self.menu_ids, ms);
                    let ghost mid = v@;
                    if self.menu_ids.is_some() {
                        let text = delay_label(ms);
                        v.push(Effect::LabelDelay { text });
                        assert(effects_view(v@) =~= effects_view(mid) + delay_title(s.menu, ms));
                    } else {
                        assert(effects_view(v@) =~= effects_view(mid) + delay_title(s.menu, ms));
                    }
                    assert(effects_view(v@) =~= action_result(s, action@).1);
                }
            },
        }
        v
    }

    /// Records the outcome of replacing the registered hotkey by `hotkey`:
    /// on success the settings take it, are saved, and the menu shows it; on
    /// failure the error is shown and the check marks return to the
    /// configured hotkey.
    pub fn hotkey_change_done(&mut self, hotkey: &str, result: Result<u32, String>) -> (res: Vec<Effect>)
        ensures
            (final(self)@, effects_view(res@)) == hotkey_change_result(
                old(self)@,
                hotkey@,
                result_view(result),
            ),
    {
        let ghost s = self@;
        let mut v: Vec<Effect> = Vec::new();
        match result {
            Ok(id) => {
                self.current_hotkey = Some(id);
                self.config.hotkey = String::from_str(hotkey);
                v.push(Effect::SaveConfig { report_errors: true });
                assert(effects_view(v@) =~= seq![EffectView::SaveConfig { report_errors: true }]);
                push_hotkey_marks(&mut v, &self.menu_ids, hotkey);
                let ghost mid = v@;
                if self.menu_ids.is_some() {
                    let text = hotkey_label(hotkey);
                    v.push(Effect::LabelHotkey { text });
                    assert(effects_view(v@) =~= effects_view(mid) + hotkey_title(s.menu, hotkey@));
                } else {
                    assert(effects_view(v@) =~= effects_view(mid) + hotkey_title(s.menu, hotkey@));
                }
                assert(effects_view(v@) =~= hotkey_change_result(s, hotkey@, result_view(result)).1);
            },
            Err(e) => {
                v.push(Effect::ShowError { title: String::from_str(HOTKEY_ERROR_TITLE), message: e });
                push_hotkey_marks(&mut v, &self.menu_ids, self.config.hotkey.as_str());
                assert(effects_view(v@) =~= hotkey_change_result(s, hotkey@, result_view(result)).1);
            },
        }
        v
    }
}

} // verus!

verus! {

/// Whether the effects write the settings and report a failure to do so.
pub open spec fn saves_settings(effects: Seq<EffectView>) -> bool {
    effects.contains(EffectView::SaveConfig { report_errors: true })
}

/// Every change that a menu action makes to the settings is written out at
/// once, with a failure reported.
pub proof fn menu_changes_are_saved(s: AppView, a: ActionView)
    ensures
        action_result(s, a).0.config != s.config ==> saves_settings(action_result(s, a).1),
{
    let r = action_result(s, a);
    match a {
        ActionView::ToggleAutostart => {
            assert(r.1[r.1.len() - 1] == EffectView::SaveConfig { report_errors: true });
        },
        ActionView::ChangeDelay(ms) => {
            if ms != s.config.delay_ms {
                assert(r.1[0] == EffectView::SaveConfig { report_errors: true });
            }
        },
        _ => {},
    }
}

/// A successful hotkey change is written out at once, with a failure
/// reported; a failed one leaves the settings as they were.
pub proof fn hotkey_changes_are_saved(s: AppView, hotkey: Seq<char>, result: Result<u32, Seq<char>>)
    ensures
        hotkey_change_result(s, hotkey, result).0.config != s.config ==> saves_settings(
            hotkey_change_result(s, hotkey, result).1,
        ),
        result is Err ==> hotkey_change_result(s, hotkey, result).0 == s,
{
    let r = hotkey_change_result(s, hotkey, result);
    if result is Ok {
        assert(r.1[0] == EffectView::SaveConfig { report_errors: true });
    }
}

/// Toggling autostart twice gives back the state one started from.
pub proof fn toggle_autostart_twice_restores(s: AppView)
    ensures
        action_result(action_result(s, ActionView::ToggleAutostart).0, ActionView::ToggleAutostart).0
            == s,
{
}

/// Choosing the hotkey or pause that is already set changes nothing and
/// writes nothing; the menu's check marks are only set again.
pub proof fn choosing_current_setting_changes_nothing(s: AppView)
    ensures
        action_result(s, ActionView::ChangeDelay(s.config.delay_ms)).0 == s,
        !saves_settings(action_result(s, ActionView::ChangeDelay(s.config.delay_ms)).1),
        action_result(s, ActionView::ChangeHotkey(s.config.hotkey)).0 == s,
        !saves_settings(action_result(s, ActionView::ChangeHotkey(s.config.hotkey)).1),
{
    let d = action_result(s, ActionView::ChangeDelay(s.config.delay_ms)).1;
    let h = action_result(s, ActionView::ChangeHotkey(s.config.hotkey)).1;
    assert(!d.contains(EffectView::SaveConfig { report_errors: true })) by {
        if d.len() > 0 {
            assert(d.len() == 1 && d[0] is CheckDelays);
        }
    }
    assert(!h.contains(EffectView::SaveConfig { report_errors: true })) by {
        if h.len() > 0 {
            assert(h.len() == 1 && h[0] is CheckHotkeys);
        }
    }
}

/// The check marks that the effects set: exactly the entries of the
/// resulting settings' hotkey and pause are checked.
pub open spec fn marks_match(menu: Option<MenuIdsView>, config: ConfigView, effects: Seq<EffectView>) -> bool {
    forall|i: int|
        0 <= i < effects.len() ==> {
            &&& (#[trigger] effects[i] matches EffectView::CheckDelays { checked } ==> menu is Some
                && checked == delay_flags(menu->0.delay_items, config.delay_ms))
            &&& (effects[i] matches EffectView::CheckHotkeys { checked } ==> menu is Some
                && checked == hotkey_flags(menu->0.hotkey_items, config.hotkey))
        }
}

/// Whatever a menu action or hotkey change does, the check marks it sets
/// show the settings it leaves.
pub proof fn menu_marks_show_settings(s: AppView, a: ActionView, hotkey: Seq<char>, result: Result<u32, Seq<char>>)
    ensures
        marks_match(s.menu, action_result(s, a).0.config, action_result(s, a).1),
        marks_match(
            s.menu,
            hotkey_change_result(s, hotkey, result).0.config,
            hotkey_change_result(s, hotkey, result).1,
        ),
{
}

/// A menu action that leaves the settings as they were writes nothing; nor
/// does a hotkey change that leaves them as they were, unless it was asked for
/// the hotkey already set (which a menu action never asks for).
pub proof fn unchanged_settings_are_not_saved(
    s: AppView,
    a: ActionView,
    hotkey: Seq<char>,
    result: Result<u32, Seq<char>>,
)
    ensures
        action_result(s, a).0.config == s.config ==> !saves_settings(action_result(s, a).1),
        hotkey != s.config.hotkey && hotkey_change_result(s, hotkey, result).0.config == s.config
            ==> !saves_settings(hotkey_change_result(s, hotkey, result).1),
        action_result(s, a).1.contains(EffectView::UpdateHotkey { hotkey: hotkey }) ==> hotkey
            != s.config.hotkey,
{
    let save = EffectView::SaveConfig { report_errors: true };
    let r = action_result(s, a);
    match a {
        ActionView::Paste => {
            assert(!r.1.contains(save)) by {
                if r.1.contains(save) {
                    assert(r.1.len() == 1 && r.1[0] is Paste);
                }
            }
        },
        ActionView::Quit => {},
        ActionView::ToggleAutostart => {},
        ActionView::ChangeHotkey(h) => {
            assert(!r.1.contains(save)) by {
                if r.1.len() > 0 {
                    assert(r.1.len() == 1 && (r.1[0] is CheckHotkeys || r.1[0] is UpdateHotkey));
                }
            }
            if r.1.contains(EffectView::UpdateHotkey { hotkey: hotkey }) {
                assert(h != s.config.hotkey) by {
                    if h == s.config.hotkey {
                        assert(r.1.len() <= 1);
                        if r.1.len() == 1 {
                            assert(r.1[0] is CheckHotkeys);
                        }
                    }
                }
                assert(r.1 == seq![EffectView::UpdateHotkey { hotkey: h }]);
                assert(r.1[0] == EffectView::UpdateHotkey { hotkey: hotkey });
            }
        },
        ActionView::ChangeDelay(ms) => {
            if ms == s.config.delay_ms {
                assert(!r.1.contains(save)) by {
                    if r.1.len() > 0 {
                        assert(r.1.len() == 1 && r.1[0] is CheckDelays);
                    }
                }
            }
        },
    }
    let h = hotkey_change_result(s, hotkey, result);
    if result is Err {
        assert(!h.1.contains(save)) by {
            if h.1.contains(save) {
                let k = choose|k: int| 0 <= k < h.1.len() && h.1[k] == save;
                assert(h.1[0] is ShowError);
                assert(k > 0 ==> h.1[k] is CheckHotkeys);
            }
        }
    }
}

/// Choosing a pause, or a hotkey, sets the check mark of every entry of its
/// submenu: an entry is checked exactly when it stands for the setting that
/// follows. A new hotkey is first registered; the marks come with the
/// outcome, whichever it is.
pub proof fn choices_set_all_marks(s: AppView, ms: u64, hotkey: Seq<char>, result: Result<u32, Seq<char>>)
    ensures
        s.menu matches Some(m) ==> action_result(s, ActionView::ChangeDelay(ms)).1.contains(
            EffectView::CheckDelays {
                checked: delay_flags(
                    m.delay_items,
                    action_result(s, ActionView::ChangeDelay(ms)).0.config.delay_ms,
                ),
            },
        ),
        hotkey == s.config.hotkey ==> (s.menu matches Some(m) ==> action_result(
            s,
            ActionView::ChangeHotkey(hotkey),
        ).1.contains(EffectView::CheckHotkeys { checked: hotkey_flags(m.hotkey_items, hotkey) })),
        hotkey != s.config.hotkey && s.current_hotkey is Some ==> action_result(
            s,
            ActionView::ChangeHotkey(hotkey),
        ).1 == seq![EffectView::UpdateHotkey { hotkey: hotkey }],
        s.menu matches Some(m) ==> hotkey_change_result(s, hotkey, result).1.contains(
            EffectView::CheckHotkeys {
                checked: hotkey_flags(
                    m.hotkey_items,
                    hotkey_change_result(s, hotkey, result).0.config.hotkey,
                ),
            },
        ),
{
    if let Some(m) = s.menu {
        let d = action_result(s, ActionView::ChangeDelay(ms));
        let dm = EffectView::CheckDelays { checked: delay_flags(m.delay_items, d.0.config.delay_ms) };
        if ms == s.config.delay_ms {
            assert(d.1[0] == dm);
        } else {
            assert(d.1[1] == dm);
        }
        let h = action_result(s, ActionView::ChangeHotkey(hotkey));
        if hotkey == s.config.hotkey {
            assert(h.1[0] == EffectView::CheckHotkeys { checked: hotkey_flags(m.hotkey_items, hotkey) });
        }
        let c = hotkey_change_result(s, hotkey, result);
        assert(c.1[1] == EffectView::CheckHotkeys {
            checked: hotkey_flags(m.hotkey_items, c.0.config.hotkey),
        });
    }
}

/// A step of setting the application up on its first resume.
#[derive(Clone, Copy, Debug, PartialEq, Eq, Structural)]
pub enum SetupStep {
    /// Build the tray icon and menu; report to `tray_built` or `tray_failed`.
    BuildTray,
    /// Register the hotkey of the settings; report to `hotkey_registered`.
    RegisterHotkey,
    /// Read whether the system starts the program with the session; report
    /// to `sync_autostart`.
    SyncAutostart,
}

/// The setup steps, in order: tray first, then the hotkey, then autostart;
/// none once the tray exists.
pub open spec fn setup_order(s: AppView) -> Seq<SetupStep> {
    if s.menu is None {
        seq![SetupStep::BuildTray, SetupStep::RegisterHotkey, SetupStep::SyncAutostart]
    } else {
        Seq::empty()
    }
}

impl App {
    /// The setup steps to perform now, in order.
    pub fn setup_steps(&self) -> (res: Vec<SetupStep>)
        ensures
            res@ == setup_order(self@),
    {
        let mut v: Vec<SetupStep> = Vec::new();
        if self.needs_setup() {
            v.push(SetupStep::BuildTray);
            v.push(SetupStep::RegisterHotkey);
            v.push(SetupStep::SyncAutostart);
        }
        proof {
            assert(v@ =~= setup_order(self@));
        }
        v
    }
}

/// "Paste now" from the menu types with the pause the settings hold, and
/// changes nothing: the state stays as it is, and the one effect is the
/// paste.
pub proof fn menu_paste_uses_configured_pause(s: AppView)
    ensures
        action_result(s, ActionView::Paste).0 == s,
        action_result(s, ActionView::Paste).1.len() == 1,
        action_result(s, ActionView::Paste).1[0] == (EffectView::Paste { delay_ms: s.config.delay_ms }),
{
}

} // verus!

