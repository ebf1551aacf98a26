//! The text of the messages shown to the user: the error line, the macOS
//! dialog scripts, and reading which button the user chose.

use vstd::prelude::*;
use crate::text::{concat_str, push_char};

verus! {

/// How a character is written inside an AppleScript string literal: a
/// backslash or double quote is preceded by a backslash, any other character
/// stands for itself.
pub open spec fn escaped_char(c: char) -> Seq<char> {
    if c == '\\' || c == '"' {
        seq!['\\', c]
    } else {
        seq![c]
    }
}

/// `s` written as the body of an AppleScript string literal.
pub open spec fn applescript_escaped(s: Seq<char>) -> Seq<char>
    decreases s.len(),
{
    if s.len() == 0 {
        Seq::empty()
    } else {
        escaped_char(s[0]) + applescript_escaped(s.drop_first())
    }
}

/// Escaping a concatenation escapes each part in turn.
pub proof fn applescript_escaped_concat(a: Seq<char>, b: Seq<char>)
    ensures
        applescript_escaped(a + b) == applescript_escaped(a) + applescript_escaped(b),
    decreases a.len(),
{
    if a.len() == 0 {
        assert(a + b =~= b);
        assert(Seq::<char>::empty() + applescript_escaped(b) =~= applescript_escaped(b));
    } else {
        applescript_escaped_concat(a.drop_first(), b);
        assert((a + b).drop_first() =~= a.drop_first() + b);
        assert((a + b)[0] == a[0]);
        assert(escaped_char(a[0]) + (applescript_escaped(a.drop_first()) + applescript_escaped(b))
            =~= (escaped_char(a[0]) + applescript_escaped(a.drop_first())) + applescript_escaped(b));
    }
}

/// Reads an AppleScript string literal whose opening quote is already read,
/// for literals whose only escapes are `\\` and `\"`: the text up to the
/// closing unescaped quote, with the escapes resolved, and what follows the
/// quote. `None` when the literal does not end.
pub open spec fn read_literal(t: Seq<char>) -> Option<(Seq<char>, Seq<char>)>
    decreases t.len(),
{
    if t.len() == 0 {
        None
    } else if t[0] == '"' {
        Some((Seq::empty(), t.drop_first()))
    } else if t[0] == '\\' {
        if t.len() < 2 {
            None
        } else {
            match read_literal(t.subrange(2, t.len() as int)) {
                Some((body, rest)) => Some((seq![t[1]] + body, rest)),
                None => None,
            }
        }
    } else {
        match read_literal(t.drop_first()) {
            Some((body, rest)) => Some((seq![t[0]] + body, rest)),
            None => None,
        }
    }
}

/// An escaped text followed by a quote reads back as exactly that text, and
/// the literal ends at that quote: a dialog shows the title and message as
/// given, whatever quotes or backslashes they hold.
pub proof fn applescript_escape_reads_back(s: Seq<char>, rest: Seq<char>)
    ensures
        read_literal(applescript_escaped(s) + seq!['"'] + rest) == Some((s, rest)),
    decreases s.len(),
{
    let t = applescript_escaped(s) + seq!['"'] + rest;
    if s.len() == 0 {
        assert(t =~= seq!['"'] + rest);
        assert(t.drop_first() =~= rest);
    } else {
        applescript_escape_reads_back(s.drop_first(), rest);
        let tail = applescript_escaped(s.drop_first()) + seq!['"'] + rest;
        let c = s[0];
        assert(t =~= escaped_char(c) + tail);
        if c == '\\' || c == '"' {
            assert(t[0] == '\\' && t[1] == c);
            assert(t.subrange(2, t.len() as int) =~= tail);
        } else {
            assert(t[0] == c);
            assert(t.drop_first() =~= tail);
        }
        assert(seq![c] + s.drop_first() =~= s);
    }
}

/// Writes `s` as the body of an AppleScript string literal, escaping
/// backslashes and double quotes.
pub fn escape_applescript(s: &str) -> (res: String)
    ensures
        res@ == applescript_escaped(s@),
{
    let n: usize = s.unicode_len();
    let mut out = String::new();
    let mut i: usize = 0;
    while i < n
        invariant
            n == s@.len(),
            i <= n,
            out@ == applescript_escaped(s@.take(i as int)),
        decreases n - i,
    {
        let c = s.get_char(i);
        proof {
            applescript_escaped_concat(s@.take(i as int), seq![c]);
            assert(s@.take(i + 1) =~= s@.take(i as int) + seq![c]);
            assert(seq![c].drop_first() =~= Seq::<char>::empty());
            assert(seq![c][0] == c);
            assert(applescript_escaped(Seq::<char>::empty()) == Seq::<char>::empty());
            assert(escaped_char(c) + Seq::<char>::empty() =~= escaped_char(c));
            assert(applescript_escaped(seq![c]) =~= escaped_char(c));
        }
        if c == '\\' || c == '"' {
            push_char(&mut out, '\\');
            push_char(&mut out, c);
        } else {
            push_char(&mut out, c);
        }
        i = i + 1;
    }
    assert(s@.take(n as int) =~= s@);
    out
}

/// The line an error is logged as.
pub fn error_log_line(title: &str, message: &str) -> (res: String)
    ensures
        res@ == title@ + ": "@ + message@,
{
    let mut s = concat_str(title, ": ");
    s.append(message);
    s
}

pub const DIALOG_START: &'static str = "display dialog \"";
pub const DIALOG_TITLE: &'static str = "\" with title \"";
pub const DIALOG_END: &'static str = "\" buttons {\"OK\"} default button \"OK\" with icon stop";

/// The AppleScript that shows an error with a stop icon and an OK button;
/// the message and title stand escaped inside its string literals.
pub open spec fn error_script(title: Seq<char>, message: Seq<char>) -> Seq<char> {
    DIALOG_START@ + applescript_escaped(message) + DIALOG_TITLE@ + applescript_escaped(title) + DIALOG_END@
}

/// The AppleScript that shows an error dialog on macOS.
pub fn error_dialog_script(title: &str, message: &str) -> (res: String)
    ensures
        res@ == error_script(title@, message@),
{
    let mut s = String::from_str(DIALOG_START);
    let m = escape_applescript(message);
    s.append(m.as_str());
    s.append(DIALOG_TITLE);
    let t = escape_applescript(title);
    s.append(t.as_str());
    s.append(DIALOG_END);
    s
}

/// The button of the permission dialog that opens the system settings.
pub const OPEN_SETTINGS_BUTTON: &'static str = "Open Settings";

/// The system settings page for the Accessibility permission.
pub const ACCESSIBILITY_SETTINGS_URL: &'static str = "x-apple.systempreferences:com.apple.preference.security?Privacy_Accessibility";

/// The AppleScript that asks the user to grant the Accessibility
/// permission, offering "Later" and `OPEN_SETTINGS_BUTTON`.
pub const PERMISSION_DIALOG_SCRIPT: &'static str = "display dialog \"macro_paste needs the Accessibility permission to send keystrokes.\\n\\nPlease enable macro_paste under:\\nSystem Settings → Privacy & Security → Accessibility.\" with title \"Permission required\" buttons {\"Later\", \"Open Settings\"} default button \"Open Settings\" with icon caution";

/// Whether `pat` occurs in `s`.
pub open spec fn occurs_in(pat: Seq<char>, s: Seq<char>) -> bool {
    exists|i: int| 0 <= i && i + pat.len() <= s.len() && #[trigger] s.subrange(i, i + pat.len()) == pat
}

/// Whether `pat` occurs in `s` at position `i`.
fn occurs_at(s: &str, pat: &str, i: usize) -> (res: bool)
    requires
        i + pat@.len() <= s@.len(),
    ensures
        res == (s@.subrange(i as int, i + pat@.len()) == pat@),
{
    let m: usize = pat.unicode_len();
    let n: usize = s.unicode_len();
    let mut k: usize = 0;
    while k < m
        invariant
            m == pat@.len(),
            n == s@.len(),
            i + m <= n,
            k <= m,
            forall|j: int| 0 <= j < k ==> s@[i + j] == pat@[j],
        decreases m - k,
    {
        if s.get_char(i + k) != pat.get_char(k) {
            assert(s@.subrange(i as int, i + m)[k as int] != pat@[k as int]);
            return false;
        }
        k = k + 1;
    }
    assert(s@.subrange(i as int, i + m) =~= pat@);
    true
}

/// Whether `pat` occurs in `s`.
pub fn contains_str(s: &str, pat: &str) -> (res: bool)
    ensures
        res == occurs_in(pat@, s@),
{
    let n: usize = s.unicode_len();
    let m: usize = pat.unicode_len();
    if m > n {
        return false;
    }
    if m == 0 {
        assert(s@.subrange(0, 0 + pat@.len() as int) =~= pat@);
        return true;
    }
    let mut i: usize = 0;
    while i <= n - m
        invariant
            n == s@.len(),
            m == pat@.len(),
            0 < m <= n,
            i <= n - m + 1,
            forall|j: int| 0 <= j < i ==> #[trigger] s@.subrange(j, j + m) != pat@,
        decreases n - m + 1 - i,
    {
        if occurs_at(s, pat, i) {
            return true;
        }
        i = i + 1;
    }
    false
}

/// Whether the permission dialog's output says that the user chose to open
/// the settings.
pub fn clicked_open_settings(dialog_output: &str) -> (res: bool)
    ensures
        res == occurs_in(OPEN_SETTINGS_BUTTON@, dialog_output@),
{
    contains_str(dialog_output, OPEN_SETTINGS_BUTTON)
}

} // verus!
