//! Typing text as keystrokes: which key each character becomes, the pause
//! between keys, and the special keys' codes on each platform.

pub mod macos;
pub mod windows;

use vstd::prelude::*;

verus! {

/// A key that stands for one character of the typed text.
#[derive(Clone, Copy, Debug, PartialEq, Eq, Structural)]
pub enum TextKey {
    /// A line break, typed as the Return key.
    Enter,
    /// A tab, typed as the Tab key.
    Tab,
    /// Any other character, typed as itself.
    Char(char),
}

/// One step of typing a text.
#[derive(Clone, Copy, Debug, PartialEq, Eq, Structural)]
pub enum TypingStep {
    Press(TextKey),
    Pause { ms: u64 },
}

/// The key that a character is typed as; carriage returns are not typed, since
/// the line feed that follows them already gives the Return key.
pub open spec fn text_key(c: char) -> Option<TextKey> {
    if c == '\r' {
        None
    } else if c == '\n' {
        Some(TextKey::Enter)
    } else if c == '\t' {
        Some(TextKey::Tab)
    } else {
        Some(TextKey::Char(c))
    }
}

/// The steps that type `s`: each typed key is followed by a pause of
/// `delay_ms`.
pub open spec fn typing_steps(s: Seq<char>, delay_ms: u64) -> Seq<TypingStep>
    decreases s.len(),
{
    if s.len() == 0 {
        Seq::empty()
    } else {
        let front = typing_steps(s.drop_last(), delay_ms);
        match text_key(s.last()) {
            Some(k) => front.push(TypingStep::Press(k)).push(TypingStep::Pause { ms: delay_ms }),
            None => front,
        }
    }
}

/// Which key a character is typed as.
pub fn key_for_char(c: char) -> (res: Option<TextKey>)
    ensures
        res == text_key(c),
{
    if c == '\r' {
        None
    } else if c == '\n' {
        Some(TextKey::Enter)
    } else if c == '\t' {
        Some(TextKey::Tab)
    } else {
        Some(TextKey::Char(c))
    }
}

/// The steps that type `text` as individual keystrokes, `delay_ms`
/// milliseconds apart.
pub fn send_string_as_keystrokes(text: &str, delay_ms: u64) -> (res: Vec<TypingStep>)
    ensures
        res@ == typing_steps(text@, delay_ms),
{
    let n: usize = text.unicode_len();
    let mut steps: Vec<TypingStep> = Vec::new();
    let mut i: usize = 0;
    while i < n
        invariant
            n == text@.len(),
            i <= n,
            steps@ == typing_steps(text@.take(i as int), delay_ms),
        decreases n - i,
    {
        let c = text.get_char(i);
        assert(text@.take(i + 1).drop_last() =~= text@.take(i as int));
        match key_for_char(c) {
            Some(k) => {
                steps.push(TypingStep::Press(k));
                steps.push(TypingStep::Pause { ms: delay_ms });
            },
            None => {},
        }
        i = i + 1;
    }
    assert(text@.take(n as int) =~= text@);
    steps
}

/// Typing the concatenation of two texts is typing one, then the other.
pub proof fn typing_steps_concat(a: Seq<char>, b: Seq<char>, delay_ms: u64)
    ensures
        typing_steps(a + b, delay_ms) == typing_steps(a, delay_ms) + typing_steps(b, delay_ms),
    decreases b.len(),
{
    if b.len() == 0 {
        assert(a + b =~= a);
        assert(typing_steps(a, delay_ms) + typing_steps(b, delay_ms) =~= typing_steps(a, delay_ms));
    } else {
        typing_steps_concat(a, b.drop_last(), delay_ms);
        assert((a + b).drop_last() =~= a + b.drop_last());
        assert((a + b).last() == b.last());
        let fa = typing_steps(a, delay_ms);
        let fb = typing_steps(b.drop_last(), delay_ms);
        match text_key(b.last()) {
            Some(k) => {
                assert(fa + fb.push(TypingStep::Press(k)).push(TypingStep::Pause { ms: delay_ms })
                    =~= (fa + fb).push(TypingStep::Press(k)).push(TypingStep::Pause { ms: delay_ms }));
            },
            None => {},
        }
    }
}

/// The keys that type `s`, in order.
pub open spec fn typed_keys(s: Seq<char>) -> Seq<TextKey>
    decreases s.len(),
{
    if s.len() == 0 {
        Seq::empty()
    } else {
        match text_key(s.last()) {
            Some(k) => typed_keys(s.drop_last()).push(k),
            None => typed_keys(s.drop_last()),
        }
    }
}

/// Typing `s` presses its keys in order, each followed by the pause: which
/// keys are pressed does not depend on the pause.
pub proof fn typing_steps_are_keys_and_pauses(s: Seq<char>, delay_ms: u64)
    ensures
        typing_steps(s, delay_ms).len() == 2 * typed_keys(s).len(),
        forall|k: int|
            0 <= k < typed_keys(s).len() ==> {
                &&& #[trigger] typing_steps(s, delay_ms)[2 * k] == TypingStep::Press(typed_keys(s)[k])
                &&& typing_steps(s, delay_ms)[2 * k + 1] == TypingStep::Pause { ms: delay_ms }
            },
    decreases s.len(),
{
    if s.len() > 0 {
        typing_steps_are_keys_and_pauses(s.drop_last(), delay_ms);
        let front = typing_steps(s.drop_last(), delay_ms);
        let keys = typed_keys(s.drop_last());
        match text_key(s.last()) {
            Some(key) => {
                assert forall|k: int| 0 <= k < typed_keys(s).len() implies {
                    &&& #[trigger] typing_steps(s, delay_ms)[2 * k] == TypingStep::Press(typed_keys(s)[k])
                    &&& typing_steps(s, delay_ms)[2 * k + 1] == TypingStep::Pause { ms: delay_ms }
                } by {
                    if k < keys.len() {
                        assert(front[2 * k] == TypingStep::Press(keys[k]));
                    }
                }
            },
            None => {},
        }
    }
}

/// `s` with every CR LF pair replaced by a single LF.
pub open spec fn crlf_to_lf(s: Seq<char>) -> Seq<char>
    decreases s.len(),
{
    if s.len() == 0 {
        Seq::empty()
    } else if s.len() >= 2 && s[0] == '\r' && s[1] == '\n' {
        seq!['\n'] + crlf_to_lf(s.subrange(2, s.len() as int))
    } else {
        seq![s[0]] + crlf_to_lf(s.drop_first())
    }
}

/// Windows and Unix line endings are typed alike: replacing each CR LF by LF
/// changes no step.
pub proof fn crlf_typed_as_lf(s: Seq<char>, delay_ms: u64)
    ensures
        typing_steps(crlf_to_lf(s), delay_ms) == typing_steps(s, delay_ms),
    decreases s.len(),
{
    if s.len() == 0 {
    } else if s.len() >= 2 && s[0] == '\r' && s[1] == '\n' {
        let rest = s.subrange(2, s.len() as int);
        crlf_typed_as_lf(rest, delay_ms);
        typing_steps_concat(seq!['\n'], crlf_to_lf(rest), delay_ms);
        typing_steps_concat(seq!['\r', '\n'], rest, delay_ms);
        assert(s =~= seq!['\r', '\n'] + rest);
        let cr = seq!['\r'];
        let lf = seq!['\n'];
        let crlf = seq!['\r', '\n'];
        assert(crlf.drop_last() =~= cr);
        assert(crlf.last() == '\n');
        assert(cr.drop_last() =~= lf.drop_last());
        assert(cr.last() == '\r');
        assert(lf.last() == '\n');
        assert(typing_steps(cr, delay_ms) == typing_steps(lf.drop_last(), delay_ms));
        assert(typing_steps(crlf, delay_ms) == typing_steps(lf, delay_ms));
    } else {
        let rest = s.drop_first();
        crlf_typed_as_lf(rest, delay_ms);
        typing_steps_concat(seq![s[0]], crlf_to_lf(rest), delay_ms);
        typing_steps_concat(seq![s[0]], rest, delay_ms);
        assert(s =~= seq![s[0]] + rest);
    }
}

/// Every character is typed as itself, except three: a carriage return is
/// not typed, a line feed is typed as Return and a tab as Tab. White space
/// such as a space is typed like any other character.
pub proof fn characters_typed_as_themselves(c: char)
    ensures
        c != '\r' && c != '\n' && c != '\t' ==> text_key(c) == Some(TextKey::Char(c)),
        text_key('\r') is None,
        text_key('\n') == Some(TextKey::Enter),
        text_key('\t') == Some(TextKey::Tab),
        typing_steps(seq![c], 30) == (if c == '\r' {
            Seq::<TypingStep>::empty()
        } else if c == '\n' {
            seq![TypingStep::Press(TextKey::Enter), TypingStep::Pause { ms: 30 }]
        } else if c == '\t' {
            seq![TypingStep::Press(TextKey::Tab), TypingStep::Pause { ms: 30 }]
        } else {
            seq![TypingStep::Press(TextKey::Char(c)), TypingStep::Pause { ms: 30 }]
        }),
{
    let one = seq![c];
    assert(one.drop_last() =~= Seq::<char>::empty());
    assert(one.last() == c);
    assert(typing_steps(one.drop_last(), 30) =~= Seq::<TypingStep>::empty());
    assert(Seq::<TypingStep>::empty().push(TypingStep::Press(TextKey::Char(c))).push(
        TypingStep::Pause { ms: 30 },
    ) =~= seq![TypingStep::Press(TextKey::Char(c)), TypingStep::Pause { ms: 30 }]);
    assert(Seq::<TypingStep>::empty().push(TypingStep::Press(TextKey::Enter)).push(
        TypingStep::Pause { ms: 30 },
    ) =~= seq![TypingStep::Press(TextKey::Enter), TypingStep::Pause { ms: 30 }]);
    assert(Seq::<TypingStep>::empty().push(TypingStep::Press(TextKey::Tab)).push(
        TypingStep::Pause { ms: 30 },
    ) =~= seq![TypingStep::Press(TextKey::Tab), TypingStep::Pause { ms: 30 }]);
}

/// The key a character other than a carriage return stands for: Return for
/// a line feed, Tab for a tab, the character itself for anything else.
pub open spec fn key_of_char(c: char) -> TextKey {
    if c == '\n' {
        TextKey::Enter
    } else if c == '\t' {
        TextKey::Tab
    } else {
        TextKey::Char(c)
    }
}

/// The keys that type a text are its characters in order, carriage returns
/// left out, line feeds and tabs as Return and Tab, every other character as
/// itself.
pub proof fn typed_keys_are_the_characters(s: Seq<char>)
    ensures
        typed_keys(s) == s.filter(|c: char| c != '\r').map_values(|c: char| key_of_char(c)),
    decreases s.len(),
{
    reveal(Seq::filter);
    let f = s.filter(|c: char| c != '\r');
    if s.len() > 0 {
        typed_keys_are_the_characters(s.drop_last());
        characters_typed_as_themselves(s.last());
        let g = s.drop_last().filter(|c: char| c != '\r');
        assert(f == (if s.last() != '\r' { g.push(s.last()) } else { g }));
        if s.last() != '\r' {
            assert(g.push(s.last()).map_values(|c: char| key_of_char(c)) =~= g.map_values(
                |c: char| key_of_char(c),
            ).push(key_of_char(s.last())));
        }
    } else {
        assert(f.len() == 0);
        assert(f.map_values(|c: char| key_of_char(c)) =~= Seq::<TextKey>::empty());
    }
}

/// Keys that are typed by key code rather than by character.
#[derive(Clone, Copy, Debug, PartialEq, Eq, Structural)]
pub enum SpecialKey {
    Enter,
    Tab,
}

/// The desktop systems this program types on.
#[derive(Clone, Copy, Debug, PartialEq, Eq, Structural)]
pub enum Platform {
    Windows,
    MacOs,
}

/// The key code of a special key: a Windows virtual key (`VK_RETURN`,
/// `VK_TAB`) or a macOS virtual key code (`kVK_Return`, `kVK_Tab`).
pub open spec fn special_key_code(key: SpecialKey, platform: Platform) -> u16 {
    match (platform, key) {
        (Platform::Windows, SpecialKey::Enter) => 0x0D,
        (Platform::Windows, SpecialKey::Tab) => 0x09,
        (Platform::MacOs, SpecialKey::Enter) => 0x24,
        (Platform::MacOs, SpecialKey::Tab) => 0x30,
    }
}

/// The key code to send for a special key on a platform.
pub fn send_special_key(key: SpecialKey, platform: Platform) -> (res: u16)
    ensures
        res == special_key_code(key, platform),
{
    match platform {
        Platform::Windows => match key {
            SpecialKey::Enter => 0x0D,
            SpecialKey::Tab => 0x09,
        },
        Platform::MacOs => match key {
            SpecialKey::Enter => 0x24,
            SpecialKey::Tab => 0x30,
        },
    }
}

/// Whether waiting for the modifier keys is over: every key in `pressed` is
/// up, or the wait has run out of time.
pub fn wait_for_modifiers_released(pressed: &[bool], timed_out: bool) -> (done: bool)
    ensures
        done == (timed_out || forall|i: int| 0 <= i < pressed@.len() ==> !pressed@[i]),
{
    if timed_out {
        return true;
    }
    let mut i: usize = 0;
    while i < pressed.len()
        invariant
            i <= pressed@.len(),
            !timed_out,
            forall|k: int| 0 <= k < i ==> !pressed@[k],
        decreases pressed.len() - i,
    {
        if pressed[i] {
            assert(pressed@[i as int]);
            return false;
        }
        i = i + 1;
    }
    true
}

/// The pause before typing starts after a paste was asked for, in
/// milliseconds, so that the user can let go of the hotkey's modifiers
/// (their release is slower to register on macOS).
pub open spec fn paste_start_delay(platform: Platform) -> u64 {
    match platform {
        Platform::Windows => 300,
        Platform::MacOs => 350,
    }
}

/// The pause before typing starts after a paste was asked for.
pub fn paste_start_delay_ms(platform: Platform) -> (res: u64)
    ensures
        res == paste_start_delay(platform),
{
    match platform {
        Platform::Windows => 300,
        Platform::MacOs => 350,
    }
}

/// How long the wait for modifier keys may last, in milliseconds.
pub const MODIFIER_WAIT_TIMEOUT_MS: u64 = 3000;

/// The pause between two polls of the modifier keys, in milliseconds.
pub const MODIFIER_POLL_MS: u64 = 10;

/// The pause after the modifier keys are up, in milliseconds, so that the
/// system has processed their release before typing starts.
pub const MODIFIER_SETTLE_MS: u64 = 50;

} // verus!
