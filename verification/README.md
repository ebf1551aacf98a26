# macro_paste

A tray program that types the clipboard's text as individual keystrokes, for
remote desktop sessions where pasting does not work (a remote Windows login
screen, for instance). A global hotkey (default `Ctrl+Shift+V`) or the tray
menu starts typing; the menu also sets the hotkey, the pause between
keystrokes (10–200 ms, default 30 ms) and autostart.

## Layout

- `src/` is the verified library, checked by Verus:
  - `hotkey` parses hotkey strings and builds the `global_hotkey` value;
  - `keystrokes` plans how text is typed (and `keystrokes::windows`,
    `keystrokes::macos` how a character is typed on each system, including
    the macOS reverse keyboard-layout map);
  - `app` is the application's state machine: menu events, hotkey presses
    and the effects they ask for;
  - `tray` computes the menu's content, `config` the settings,
    `autostart`, `notify`, `single_instance` and `clipboard` the data the
    platform layer writes or reads;
  - `text` and `utf16` hold the character-level helpers.
- `app/` is the program around it: the event loop, the tray icon, hotkey
  registration, keyboard input APIs, files, registry and dialogs.
- `tests/` exercises the library on concrete values.
