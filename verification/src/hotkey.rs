//! Hotkey strings such as `"Ctrl+Shift+V"`: splitting, trimming, modifier
//! names, key names, and the `global_hotkey` value they describe.

use vstd::prelude::*;
use global_hotkey::hotkey::{Code, HotKey, Modifiers};
use crate::text::{
    all_white_space, ascii_upper, ascii_upper_stays_ascii, concat_str, decimal, is_ascii_text,
    is_white_space, join_with, push_char, push_decimal, split_join, split_on, split_on_ascii,
    split_same_upper, split_str, str_eq, trim, trim_ascii, trim_ignores_padding, trim_same_upper,
    trim_str, views_of,
};

verus! {

/// global-hotkey's `HotKey`, carried as an opaque value.
#[verifier::external_type_specification]
#[verifier::external_body]
pub struct ExHotKey(HotKey);

/// keyboard-types' `Code` (re-exported by global-hotkey), carried as an
/// opaque value.
#[verifier::external_type_specification]
#[verifier::external_body]
pub struct ExCode(Code);

/// The main key of a hotkey: a letter `A`–`Z`, a digit `0`–`9`, or a
/// function key `F1`–`F12`.
#[derive(Clone, Copy, Debug, PartialEq, Eq, Structural)]
pub enum KeyCode {
    Letter(char),
    Digit(char),
    Function(u8),
}

impl KeyCode {
    /// The values that name a key this program knows.
    pub open spec fn wf(self) -> bool {
        match self {
            KeyCode::Letter(c) => 'A' <= c && c <= 'Z',
            KeyCode::Digit(c) => '0' <= c && c <= '9',
            KeyCode::Function(n) => 1 <= n && n <= 12,
        }
    }
}

/// A modifier key as a hotkey string names it.
#[derive(Clone, Copy, Debug, PartialEq, Eq, Structural)]
pub enum ModifierKey {
    Control,
    Shift,
    Alt,
    Meta,
}

/// Modifiers and main key of a parsed hotkey string.
#[derive(Clone, Copy, Debug, PartialEq, Eq, Structural)]
pub struct HotkeyChord {
    pub ctrl: bool,
    pub shift: bool,
    pub alt: bool,
    pub meta: bool,
    pub key: KeyCode,
}

/// What has been read of a hotkey string so far: the modifiers seen, and the
/// key that the last non-modifier part named (`None` when that part named no
/// known key, or before any such part).
#[derive(Clone, Copy, Debug, PartialEq, Eq, Structural)]
pub struct ChordState {
    pub ctrl: bool,
    pub shift: bool,
    pub alt: bool,
    pub meta: bool,
    pub key: Option<KeyCode>,
}

/// The upper-case form of a string, as `str::to_uppercase` computes it under
/// the Unicode case mapping.
pub uninterp spec fn upper_case(s: Seq<char>) -> Seq<char>;

/// std's `str::to_uppercase`, which maps every character by the Unicode
/// upper-case mapping (possibly to several characters). The result is named
/// by `upper_case` of the argument. Of ASCII text it is stated that `a`–`z`
/// become `A`–`Z` and every other character stays, which is what the Unicode
/// mapping does on ASCII; of other text nothing more is stated.
#[verifier::external_body]
pub(crate) fn to_uppercase(s: &str) -> (res: String)
    ensures
        res@ == upper_case(s@),
        is_ascii_text(s@) ==> res@ == ascii_upper(s@),
{
    s.to_uppercase()
}

/// The modifier that an upper-cased hotkey part names.
pub open spec fn modifier_named(u: Seq<char>) -> Option<ModifierKey> {
    if u == "CTRL"@ || u == "CONTROL"@ {
        Some(ModifierKey::Control)
    } else if u == "SHIFT"@ {
        Some(ModifierKey::Shift)
    } else if u == "ALT"@ {
        Some(ModifierKey::Alt)
    } else if u == "WIN"@ || u == "SUPER"@ || u == "META"@ {
        Some(ModifierKey::Meta)
    } else {
        None
    }
}

/// The key that an upper-cased key name denotes: a single letter or digit, or
/// `F1` to `F12`.
pub open spec fn key_code_of(u: Seq<char>) -> Option<KeyCode> {
    if u.len() == 1 && 'A' <= u[0] && u[0] <= 'Z' {
        Some(KeyCode::Letter(u[0]))
    } else if u.len() == 1 && '0' <= u[0] && u[0] <= '9' {
        Some(KeyCode::Digit(u[0]))
    } else if u.len() == 2 && u[0] == 'F' && '1' <= u[1] && u[1] <= '9' {
        Some(KeyCode::Function((u[1] as u32 - 48) as u8))
    } else if u.len() == 3 && u[0] == 'F' && u[1] == '1' && '0' <= u[2] && u[2] <= '2' {
        Some(KeyCode::Function((u[2] as u32 - 38) as u8))
    } else {
        None
    }
}

/// The key a key name denotes, compared in upper case.
pub open spec fn parsed_key_code(key: Seq<char>) -> Option<KeyCode> {
    key_code_of(upper_case(key))
}

/// The state after reading a part whose upper-case form is `u`: a modifier
/// name sets its modifier, anything else sets the key to `key`, the key that
/// `u` names.
pub open spec fn absorb_reading(acc: ChordState, u: Seq<char>, key: Option<KeyCode>) -> ChordState {
    match modifier_named(u) {
        Some(ModifierKey::Control) => ChordState { ctrl: true, ..acc },
        Some(ModifierKey::Shift) => ChordState { shift: true, ..acc },
        Some(ModifierKey::Alt) => ChordState { alt: true, ..acc },
        Some(ModifierKey::Meta) => ChordState { meta: true, ..acc },
        None => ChordState { key: key, ..acc },
    }
}

/// The state after reading one trimmed part of a hotkey string.
pub open spec fn absorb_part(acc: ChordState, part: Seq<char>) -> ChordState {
    let u = upper_case(part);
    absorb_reading(acc, u, parsed_key_code(u))
}

/// Nothing read yet.
pub open spec fn empty_chord_state() -> ChordState {
    ChordState { ctrl: false, shift: false, alt: false, meta: false, key: None }
}

/// The state after reading `parts` in order, starting from `acc`.
pub open spec fn absorb_from(acc: ChordState, parts: Seq<Seq<char>>) -> ChordState
    decreases parts.len(),
{
    if parts.len() == 0 {
        acc
    } else {
        absorb_part(absorb_from(acc, parts.drop_last()), parts.last())
    }
}

/// The state after reading all the parts in order.
pub open spec fn absorb_parts(parts: Seq<Seq<char>>) -> ChordState {
    absorb_from(empty_chord_state(), parts)
}

/// The trimmed parts of a hotkey string, split at `+`.
pub open spec fn hotkey_parts(s: Seq<char>) -> Seq<Seq<char>> {
    split_on(s, '+').map_values(|p: Seq<char>| trim(p))
}

/// The chord that a reading state stands for, when it has a key.
pub open spec fn chord_of_state(st: ChordState) -> Option<HotkeyChord> {
    match st.key {
        Some(k) => Some(HotkeyChord { ctrl: st.ctrl, shift: st.shift, alt: st.alt, meta: st.meta, key: k }),
        None => None,
    }
}

/// The chord a hotkey string describes: every part is a modifier name or a key
/// name; the last part that is not a modifier decides the key, and the string
/// describes nothing when that part names no known key or there is none.
pub open spec fn hotkey_chord(s: Seq<char>) -> Option<HotkeyChord> {
    chord_of_state(absorb_parts(hotkey_parts(s)))
}

/// The state after reading one trimmed ASCII part, upper-cased the ASCII way.
pub open spec fn absorb_ascii_part(acc: ChordState, part: Seq<char>) -> ChordState {
    let u = ascii_upper(part);
    absorb_reading(acc, u, key_code_of(u))
}

/// The state after reading ASCII parts in order, starting from `acc`.
pub open spec fn absorb_ascii_from(acc: ChordState, parts: Seq<Seq<char>>) -> ChordState
    decreases parts.len(),
{
    if parts.len() == 0 {
        acc
    } else {
        absorb_ascii_part(absorb_ascii_from(acc, parts.drop_last()), parts.last())
    }
}

/// The chord an ASCII hotkey string describes: as `hotkey_chord`, with the
/// ASCII upper-case form of each part.
pub open spec fn ascii_hotkey_chord(s: Seq<char>) -> Option<HotkeyChord> {
    chord_of_state(absorb_ascii_from(empty_chord_state(), hotkey_parts(s)))
}

/// The key an upper-case key name denotes: a single letter or digit, or
/// `F1`–`F12`.
pub fn key_code_from_upper(u: &str) -> (res: Option<KeyCode>)
    ensures
        res == key_code_of(u@),
        res matches Some(k) ==> k.wf(),
{
    let n: usize = u.unicode_len();
    if n == 1 {
        let c = u.get_char(0);
        if 'A' <= c && c <= 'Z' {
            return Some(KeyCode::Letter(c));
        } else if '0' <= c && c <= '9' {
            return Some(KeyCode::Digit(c));
        }
        None
    } else if n == 2 {
        let f = u.get_char(0);
        let d = u.get_char(1);
        if f == 'F' && '1' <= d && d <= '9' {
            Some(KeyCode::Function((d as u32 - 48) as u8))
        } else {
            None
        }
    } else if n == 3 {
        let f = u.get_char(0);
        let t = u.get_char(1);
        let d = u.get_char(2);
        if f == 'F' && t == '1' && '0' <= d && d <= '2' {
            Some(KeyCode::Function((d as u32 - 38) as u8))
        } else {
            None
        }
    } else {
        None
    }
}

/// Parses a key name (a letter, a digit or `F1`–`F12`), in any case.
pub fn parse_key_code(key: &str) -> (res: Option<KeyCode>)
    ensures
        res == parsed_key_code(key@),
        is_ascii_text(key@) ==> res == key_code_of(ascii_upper(key@)),
        res matches Some(k) ==> k.wf(),
{
    let u = to_uppercase(key);
    key_code_from_upper(u.as_str())
}

/// The modifier an upper-case hotkey part names.
pub fn modifier_from_upper(u: &str) -> (res: Option<ModifierKey>)
    ensures
        res == modifier_named(u@),
{
    if str_eq(u, "CTRL") || str_eq(u, "CONTROL") {
        Some(ModifierKey::Control)
    } else if str_eq(u, "SHIFT") {
        Some(ModifierKey::Shift)
    } else if str_eq(u, "ALT") {
        Some(ModifierKey::Alt)
    } else if str_eq(u, "WIN") || str_eq(u, "SUPER") || str_eq(u, "META") {
        Some(ModifierKey::Meta)
    } else {
        None
    }
}

fn read_part(acc: ChordState, part: &str) -> (res: ChordState)
    ensures
        res == absorb_part(acc, part@),
        is_ascii_text(part@) ==> res == absorb_ascii_part(acc, part@),
{
    let u = to_uppercase(part);
    proof {
        if is_ascii_text(part@) {
            ascii_upper_stays_ascii(part@);
        }
    }
    match modifier_from_upper(u.as_str()) {
        Some(ModifierKey::Control) => ChordState { ctrl: true, ..acc },
        Some(ModifierKey::Shift) => ChordState { shift: true, ..acc },
        Some(ModifierKey::Alt) => ChordState { alt: true, ..acc },
        Some(ModifierKey::Meta) => ChordState { meta: true, ..acc },
        None => ChordState { key: parse_key_code(u.as_str()), ..acc },
    }
}

/// Reads a hotkey string such as `"Ctrl+Shift+V"` into its modifiers and key.
pub fn parse_hotkey_chord(hotkey_str: &str) -> (res: Option<HotkeyChord>)
    ensures
        res == hotkey_chord(hotkey_str@),
        is_ascii_text(hotkey_str@) ==> res == ascii_hotkey_chord(hotkey_str@),
        res matches Some(c) ==> c.key.wf(),
{
    let pieces = split_str(hotkey_str, '+');
    let ghost all = views_of(pieces@).map_values(|p: Seq<char>| trim(p));
    let ghost ascii = is_ascii_text(hotkey_str@);
    proof {
        if ascii {
            split_on_ascii(hotkey_str@, '+');
        }
    }
    let mut acc = ChordState { ctrl: false, shift: false, alt: false, meta: false, key: None };
    let mut i: usize = 0;
    assert(all.take(0) =~= Seq::<Seq<char>>::empty());
    assert(ascii ==> forall|k: int| 0 <= k < all.len() ==> is_ascii_text(#[trigger] all[k])) by {
        if ascii {
            assert forall|k: int| 0 <= k < all.len() implies is_ascii_text(#[trigger] all[k]) by {
                assert(views_of(pieces@)[k] == split_on(hotkey_str@, '+')[k]);
                trim_ascii(views_of(pieces@)[k]);
            }
        }
    }
    while i < pieces.len()
        invariant
            i <= pieces.len(),
            all == views_of(pieces@).map_values(|p: Seq<char>| trim(p)),
            acc == absorb_parts(all.take(i as int)),
            ascii == is_ascii_text(hotkey_str@),
            ascii ==> acc == absorb_ascii_from(empty_chord_state(), all.take(i as int)),
            ascii ==> forall|k: int| 0 <= k < all.len() ==> is_ascii_text(#[trigger] all[k]),
            acc.key matches Some(k) ==> k.wf(),
        decreases pieces.len() - i,
    {
        let part = trim_str(pieces[i]);
        assert(all.take(i + 1).drop_last() =~= all.take(i as int));
        assert(all[i as int] == part@);
        assert(ascii ==> is_ascii_text(part@));
        acc = read_part(acc, part);
        i = i + 1;
    }
    assert(all.take(pieces.len() as int) =~= all);
    match acc.key {
        Some(k) => Some(HotkeyChord { ctrl: acc.ctrl, shift: acc.shift, alt: acc.alt, meta: acc.meta, key: k }),
        None => None,
    }
}

} // verus!

verus! {

/// The W3C `code` name of a key, as `keyboard_types::Code` displays and
/// parses it: `KeyA`, `Digit0`, `F1`.
pub open spec fn key_code_name(k: KeyCode) -> Seq<char> {
    match k {
        KeyCode::Letter(c) => "Key"@.push(c),
        KeyCode::Digit(c) => "Digit"@.push(c),
        KeyCode::Function(n) => "F"@ + decimal(n as nat),
    }
}

/// The names `key_code_name` gives the known keys.
pub open spec fn is_known_code_name(name: Seq<char>) -> bool {
    exists|k: KeyCode| k.wf() && #[trigger] key_code_name(k) == name
}

/// The `keyboard_types::Code` that parsing a code name gives.
pub uninterp spec fn code_named(name: Seq<char>) -> Option<Code>;

/// The `HotKey` that `HotKey::new` builds from these modifiers and key.
pub uninterp spec fn hotkey_of(ctrl: bool, shift: bool, alt: bool, meta: bool, key: Code) -> HotKey;

/// `<Code as FromStr>::from_str` of keyboard-types, with the error dropped. Its
/// result is named by `code_named`; the crate's table recognises every name of
/// the form `KeyA`–`KeyZ`, `Digit0`–`Digit9` and `F1`–`F12`, so for those the
/// result is `Some`. Which variant comes back is not stated beyond the name.
#[verifier::external_body]
fn code_from_name(name: &str) -> (res: Option<Code>)
    ensures
        res == code_named(name@),
        is_known_code_name(name@) ==> res is Some,
{
    name.parse::<Code>().ok()
}

/// `HotKey::new(Some(mods), key)` of global-hotkey, where `mods` holds
/// `CONTROL`, `SHIFT`, `ALT` and `META` as the flags say. The result is named
/// by `hotkey_of`; its fields and id are not stated.
#[verifier::external_body]
fn new_hotkey(ctrl: bool, shift: bool, alt: bool, meta: bool, key: Code) -> (res: HotKey)
    ensures
        res == hotkey_of(ctrl, shift, alt, meta, key),
{
    let mut mods = Modifiers::empty();
    mods.set(Modifiers::CONTROL, ctrl);
    mods.set(Modifiers::SHIFT, shift);
    mods.set(Modifiers::ALT, alt);
    mods.set(Modifiers::META, meta);
    HotKey::new(Some(mods), key)
}

/// Writes the code name of a key.
pub fn code_name(k: KeyCode) -> (res: String)
    requires
        k.wf(),
    ensures
        res@ == key_code_name(k),
{
    match k {
        KeyCode::Letter(c) => {
            let mut s = String::from_str("Key");
            push_char(&mut s, c);
            s
        },
        KeyCode::Digit(c) => {
            let mut s = String::from_str("Digit");
            push_char(&mut s, c);
            s
        },
        KeyCode::Function(n) => {
            let mut s = String::from_str("F");
            push_decimal(&mut s, n as u64);
            s
        },
    }
}

/// The `keyboard_types::Code` of a known key.
pub fn to_code(k: KeyCode) -> (res: Code)
    requires
        k.wf(),
    ensures
        Some(res) == code_named(key_code_name(k)),
{
    let name = code_name(k);
    assert(is_known_code_name(name@)) by {
        assert(key_code_name(k) == name@);
    }
    match code_from_name(name.as_str()) {
        Some(code) => code,
        None => {
            assert(false);
            vstd::pervasive::unreached()
        },
    }
}

/// The hotkey for a chord, when there is one.
pub open spec fn hotkey_for_chord(chord: Option<HotkeyChord>) -> Option<HotKey> {
    match chord {
        Some(c) => Some(
            hotkey_of(c.ctrl, c.shift, c.alt, c.meta, code_named(key_code_name(c.key)).unwrap()),
        ),
        None => None,
    }
}

/// The hotkey a string describes, when it describes one.
pub open spec fn hotkey_described(s: Seq<char>) -> Option<HotKey> {
    hotkey_for_chord(hotkey_chord(s))
}

/// Parses a hotkey string like `"Ctrl+Shift+V"` into a `HotKey`; `None` when
/// it names no known main key.
pub fn parse_hotkey(hotkey_str: &str) -> (res: Option<HotKey>)
    ensures
        res == hotkey_described(hotkey_str@),
        is_ascii_text(hotkey_str@) ==> res == hotkey_for_chord(ascii_hotkey_chord(hotkey_str@)),
        res is Some <==> hotkey_chord(hotkey_str@) is Some,
{
    match parse_hotkey_chord(hotkey_str) {
        Some(c) => {
            let code = to_code(c.key);
            Some(new_hotkey(c.ctrl, c.shift, c.alt, c.meta, code))
        },
        None => None,
    }
}

/// The message for a hotkey string that describes no hotkey.
pub open spec fn invalid_hotkey_message(s: Seq<char>) -> Seq<char> {
    "Invalid hotkey: "@ + s
}

/// The hotkey to register for a string, or the error shown when it describes
/// none.
pub fn hotkey_for_registration(hotkey_str: &str) -> (res: Result<HotKey, String>)
    ensures
        match res {
            Ok(hk) => hotkey_described(hotkey_str@) == Some(hk),
            Err(msg) => hotkey_described(hotkey_str@) is None && msg@ == invalid_hotkey_message(
                hotkey_str@,
            ),
        },
{
    match parse_hotkey(hotkey_str) {
        Some(hk) => Ok(hk),
        None => Err(concat_str("Invalid hotkey: ", hotkey_str)),
    }
}

} // verus!

verus! {

/// Whether a part, read as it is, names a modifier.
pub open spec fn names_modifier(part: Seq<char>) -> bool {
    modifier_named(upper_case(part)) is Some
}

/// Reading `a` and then `b` is reading `a + b`.
proof fn absorb_from_append(acc: ChordState, a: Seq<Seq<char>>, b: Seq<Seq<char>>)
    ensures
        absorb_from(acc, a + b) == absorb_from(absorb_from(acc, a), b),
    decreases b.len(),
{
    if b.len() == 0 {
        assert(a + b =~= a);
    } else {
        absorb_from_append(acc, a, b.drop_last());
        assert((a + b).drop_last() =~= a + b.drop_last());
        assert((a + b).last() == b.last());
    }
}

/// Reading two parts one after the other.
proof fn absorb_from_pair(acc: ChordState, x: Seq<char>, y: Seq<char>)
    ensures
        absorb_from(acc, seq![x, y]) == absorb_part(absorb_part(acc, x), y),
        absorb_from(acc, seq![x]) == absorb_part(acc, x),
{
    let (one, two) = (seq![x], seq![x, y]);
    assert(two.drop_last() =~= one);
    assert(two.last() == y);
    assert(one.drop_last() =~= Seq::<Seq<char>>::empty());
    assert(one.last() == x);
    assert(absorb_from(acc, one.drop_last()) == acc);
    assert(absorb_from(acc, one) == absorb_part(acc, x));
    assert(absorb_from(acc, two) == absorb_part(absorb_from(acc, one), y));
}

/// A modifier part and its neighbour may be read in either order.
proof fn absorb_part_swap(acc: ChordState, x: Seq<char>, y: Seq<char>)
    requires
        names_modifier(x) || names_modifier(y),
    ensures
        absorb_part(absorb_part(acc, x), y) == absorb_part(absorb_part(acc, y), x),
{
}

/// Parts that read alike after upper-casing leave the same state.
proof fn absorb_from_same_readings(acc: ChordState, p: Seq<Seq<char>>, q: Seq<Seq<char>>)
    requires
        p.len() == q.len(),
        forall|i: int| 0 <= i < p.len() ==> upper_case(#[trigger] p[i]) == upper_case(q[i]),
    ensures
        absorb_from(acc, p) == absorb_from(acc, q),
    decreases p.len(),
{
    if p.len() > 0 {
        let (pf, qf) = (p.drop_last(), q.drop_last());
        assert forall|i: int| 0 <= i < pf.len() implies upper_case(#[trigger] pf[i]) == upper_case(
            qf[i],
        ) by {
            assert(pf[i] == p[i] && qf[i] == q[i]);
        }
        absorb_from_same_readings(acc, pf, qf);
        assert(upper_case(p[p.len() - 1]) == upper_case(q[q.len() - 1]));
    }
}

/// The trimmed parts of parts joined with `+`, when no part holds a `+`.
proof fn hotkey_parts_of_join(p: Seq<Seq<char>>)
    requires
        p.len() >= 1,
        forall|i: int| 0 <= i < p.len() ==> !(#[trigger] p[i]).contains('+'),
    ensures
        hotkey_parts(join_with(p, '+')) =~= p.map_values(|x: Seq<char>| trim(x)),
{
    split_join(p, '+');
}

/// The chord of parts joined with `+` is that of the state they leave.
proof fn chord_of_joined(p: Seq<Seq<char>>)
    requires
        p.len() >= 1,
        forall|i: int| 0 <= i < p.len() ==> !(#[trigger] p[i]).contains('+'),
    ensures
        absorb_parts(hotkey_parts(join_with(p, '+'))) == absorb_parts(
            p.map_values(|x: Seq<char>| trim(x)),
        ),
{
    hotkey_parts_of_join(p);
    assert(hotkey_parts(join_with(p, '+')) == p.map_values(|x: Seq<char>| trim(x)));
}

/// A modifier part may trade places with its neighbour: hotkey strings whose
/// parts differ only by such a swap describe the same chord. Any reordering
/// that keeps the other parts in their order is a series of such swaps.
pub proof fn hotkey_chord_swap_modifier(
    a: Seq<Seq<char>>,
    x: Seq<char>,
    y: Seq<char>,
    b: Seq<Seq<char>>,
)
    requires
        forall|i: int| 0 <= i < a.len() ==> !(#[trigger] a[i]).contains('+'),
        forall|i: int| 0 <= i < b.len() ==> !(#[trigger] b[i]).contains('+'),
        !x.contains('+'),
        !y.contains('+'),
        names_modifier(trim(x)) || names_modifier(trim(y)),
    ensures
        hotkey_chord(join_with(a + seq![x, y] + b, '+')) == hotkey_chord(
            join_with(a + seq![y, x] + b, '+'),
        ),
{
    let p = a + seq![x, y] + b;
    let q = a + seq![y, x] + b;
    assert forall|i: int| 0 <= i < p.len() implies !(#[trigger] p[i]).contains('+') by {
        if i < a.len() {
            assert(p[i] == a[i]);
        } else if i >= a.len() + 2 {
            assert(p[i] == b[i - a.len() - 2]);
        }
    }
    assert forall|i: int| 0 <= i < q.len() implies !(#[trigger] q[i]).contains('+') by {
        if i < a.len() {
            assert(q[i] == a[i]);
        } else if i >= a.len() + 2 {
            assert(q[i] == b[i - a.len() - 2]);
        }
    }
    chord_of_joined(p);
    chord_of_joined(q);
    let ta = a.map_values(|z: Seq<char>| trim(z));
    let tb = b.map_values(|z: Seq<char>| trim(z));
    let (tx, ty) = (trim(x), trim(y));
    assert(p.map_values(|z: Seq<char>| trim(z)) =~= ta + seq![tx, ty] + tb);
    assert(q.map_values(|z: Seq<char>| trim(z)) =~= ta + seq![ty, tx] + tb);
    let e = empty_chord_state();
    absorb_from_append(e, ta + seq![tx, ty], tb);
    absorb_from_append(e, ta, seq![tx, ty]);
    absorb_from_append(e, ta + seq![ty, tx], tb);
    absorb_from_append(e, ta, seq![ty, tx]);
    let st = absorb_from(e, ta);
    absorb_from_pair(st, tx, ty);
    absorb_from_pair(st, ty, tx);
    absorb_part_swap(st, tx, ty);
}

/// A part given twice in a row counts once: the hotkey string describes the
/// same chord with the repetition as without it.
pub proof fn hotkey_chord_repeated_part(a: Seq<Seq<char>>, x: Seq<char>, b: Seq<Seq<char>>)
    requires
        forall|i: int| 0 <= i < a.len() ==> !(#[trigger] a[i]).contains('+'),
        forall|i: int| 0 <= i < b.len() ==> !(#[trigger] b[i]).contains('+'),
        !x.contains('+'),
    ensures
        hotkey_chord(join_with(a + seq![x, x] + b, '+')) == hotkey_chord(
            join_with(a + seq![x] + b, '+'),
        ),
{
    let p = a + seq![x, x] + b;
    let q = a + seq![x] + b;
    assert forall|i: int| 0 <= i < p.len() implies !(#[trigger] p[i]).contains('+') by {
        if i < a.len() {
            assert(p[i] == a[i]);
        } else if i >= a.len() + 2 {
            assert(p[i] == b[i - a.len() - 2]);
        }
    }
    assert forall|i: int| 0 <= i < q.len() implies !(#[trigger] q[i]).contains('+') by {
        if i < a.len() {
            assert(q[i] == a[i]);
        } else if i >= a.len() + 1 {
            assert(q[i] == b[i - a.len() - 1]);
        }
    }
    chord_of_joined(p);
    chord_of_joined(q);
    let ta = a.map_values(|z: Seq<char>| trim(z));
    let tb = b.map_values(|z: Seq<char>| trim(z));
    let tx = trim(x);
    assert(p.map_values(|z: Seq<char>| trim(z)) =~= ta + seq![tx, tx] + tb);
    assert(q.map_values(|z: Seq<char>| trim(z)) =~= ta + seq![tx] + tb);
    let e = empty_chord_state();
    absorb_from_append(e, ta + seq![tx, tx], tb);
    absorb_from_append(e, ta, seq![tx, tx]);
    absorb_from_append(e, ta + seq![tx], tb);
    absorb_from_append(e, ta, seq![tx]);
    absorb_from_pair(absorb_from(e, ta), tx, tx);
}

/// Hotkey strings whose parts, taken in order, read alike once trimmed and
/// upper-cased describe the same chord.
pub proof fn hotkey_chord_same_readings(p: Seq<Seq<char>>, q: Seq<Seq<char>>)
    requires
        p.len() == q.len(),
        forall|i: int| 0 <= i < p.len() ==> !(#[trigger] p[i]).contains('+'),
        forall|i: int| 0 <= i < q.len() ==> !(#[trigger] q[i]).contains('+'),
        forall|i: int| 0 <= i < p.len() ==> upper_case(trim(#[trigger] p[i])) == upper_case(trim(q[i])),
    ensures
        hotkey_chord(join_with(p, '+')) == hotkey_chord(join_with(q, '+')),
{
    if p.len() > 0 {
        chord_of_joined(p);
        chord_of_joined(q);
        let tp = p.map_values(|z: Seq<char>| trim(z));
        let tq = q.map_values(|z: Seq<char>| trim(z));
        assert forall|i: int| 0 <= i < tp.len() implies upper_case(#[trigger] tp[i]) == upper_case(
            tq[i],
        ) by {
            assert(upper_case(trim(p[i])) == upper_case(trim(q[i])));
        }
        absorb_from_same_readings(empty_chord_state(), tp, tq);
    } else {
        assert(p =~= q);
    }
}

/// White space around the parts of a hotkey string does not change the
/// chord it describes.
pub proof fn hotkey_chord_ignores_padding(
    p: Seq<Seq<char>>,
    left: Seq<Seq<char>>,
    right: Seq<Seq<char>>,
)
    requires
        left.len() == p.len(),
        right.len() == p.len(),
        forall|i: int| 0 <= i < p.len() ==> !(#[trigger] p[i]).contains('+'),
        forall|i: int| 0 <= i < p.len() ==> all_white_space(#[trigger] left[i]),
        forall|i: int| 0 <= i < p.len() ==> all_white_space(#[trigger] right[i]),
    ensures
        hotkey_chord(join_with(p, '+')) == hotkey_chord(
            join_with(Seq::new(p.len(), |i: int| left[i] + p[i] + right[i]), '+'),
        ),
{
    let q = Seq::new(p.len(), |i: int| left[i] + p[i] + right[i]);
    assert forall|i: int| 0 <= i < q.len() implies !(#[trigger] q[i]).contains('+') by {
        let (l, m, r) = (left[i], p[i], right[i]);
        assert(all_white_space(l) && all_white_space(r));
        if q[i].contains('+') {
            let k = choose|k: int| 0 <= k < q[i].len() && q[i][k] == '+';
            if k < l.len() {
                assert(q[i][k] == l[k]);
                assert(is_white_space(l[k]));
            } else if k < l.len() + m.len() {
                assert(q[i][k] == m[k - l.len()]);
                assert(m.contains('+'));
            } else {
                assert(q[i][k] == r[k - l.len() - m.len()]);
                assert(is_white_space(r[k - l.len() - m.len()]));
            }
        }
    }
    assert forall|i: int| 0 <= i < p.len() implies upper_case(trim(#[trigger] p[i])) == upper_case(
        trim(q[i]),
    ) by {
        trim_ignores_padding(left[i], p[i], right[i]);
    }
    hotkey_chord_same_readings(p, q);
}

/// ASCII parts that read alike once upper-cased leave the same state.
proof fn absorb_ascii_same_readings(acc: ChordState, p: Seq<Seq<char>>, q: Seq<Seq<char>>)
    requires
        p.len() == q.len(),
        forall|i: int| 0 <= i < p.len() ==> ascii_upper(#[trigger] p[i]) == ascii_upper(q[i]),
    ensures
        absorb_ascii_from(acc, p) == absorb_ascii_from(acc, q),
    decreases p.len(),
{
    if p.len() > 0 {
        let (pf, qf) = (p.drop_last(), q.drop_last());
        assert forall|i: int| 0 <= i < pf.len() implies ascii_upper(#[trigger] pf[i]) == ascii_upper(
            qf[i],
        ) by {
            assert(pf[i] == p[i] && qf[i] == q[i]);
        }
        absorb_ascii_same_readings(acc, pf, qf);
        assert(ascii_upper(p[p.len() - 1]) == ascii_upper(q[q.len() - 1]));
    }
}

/// Letter case does not matter: hotkey strings that differ only in the case
/// of `a`–`z` describe the same chord when read the ASCII way, which is how
/// `parse_hotkey_chord` and `parse_hotkey` read ASCII strings.
pub proof fn ascii_hotkey_chord_ignores_case(s: Seq<char>, t: Seq<char>)
    requires
        ascii_upper(s) == ascii_upper(t),
    ensures
        ascii_hotkey_chord(s) == ascii_hotkey_chord(t),
{
    split_same_upper(s, t);
    let (ps, pt) = (hotkey_parts(s), hotkey_parts(t));
    assert forall|i: int| 0 <= i < ps.len() implies ascii_upper(#[trigger] ps[i]) == ascii_upper(
        pt[i],
    ) by {
        trim_same_upper(split_on(s, '+')[i], split_on(t, '+')[i]);
    }
    absorb_ascii_same_readings(empty_chord_state(), ps, pt);
}

/// Whether some part, upper-cased the ASCII way, names the modifier `m`.
pub open spec fn ascii_parts_name(parts: Seq<Seq<char>>, m: ModifierKey) -> bool {
    exists|i: int| 0 <= i < parts.len() && modifier_named(ascii_upper(#[trigger] parts[i])) == Some(m)
}

/// The ASCII upper-case form of the last part that names no modifier.
pub open spec fn last_ascii_key_part(parts: Seq<Seq<char>>) -> Option<Seq<char>>
    decreases parts.len(),
{
    if parts.len() == 0 {
        None
    } else if modifier_named(ascii_upper(parts.last())) is None {
        Some(ascii_upper(parts.last()))
    } else {
        last_ascii_key_part(parts.drop_last())
    }
}

/// Whether the last part, or an earlier one, names the modifier `m`.
proof fn ascii_parts_name_last(parts: Seq<Seq<char>>, m: ModifierKey)
    requires
        parts.len() > 0,
    ensures
        ascii_parts_name(parts, m) == (ascii_parts_name(parts.drop_last(), m) || modifier_named(
            ascii_upper(parts.last()),
        ) == Some(m)),
{
    let front = parts.drop_last();
    if ascii_parts_name(front, m) {
        let i = choose|i: int| 0 <= i < front.len() && modifier_named(ascii_upper(#[trigger] front[i])) == Some(m);
        assert(front[i] == parts[i]);
    }
    if modifier_named(ascii_upper(parts.last())) == Some(m) {
        assert(parts[parts.len() - 1] == parts.last());
    }
    if ascii_parts_name(parts, m) {
        let i = choose|i: int| 0 <= i < parts.len() && modifier_named(ascii_upper(#[trigger] parts[i])) == Some(m);
        if i < parts.len() - 1 {
            assert(front[i] == parts[i]);
        }
    }
}

/// The state after reading ASCII parts: each modifier is set when it was set
/// before or some part names it, and the key is the one the last part that
/// names no modifier denotes (the earlier key when there is no such part).
proof fn absorb_ascii_from_state(acc: ChordState, parts: Seq<Seq<char>>)
    ensures
        absorb_ascii_from(acc, parts) == (ChordState {
            ctrl: acc.ctrl || ascii_parts_name(parts, ModifierKey::Control),
            shift: acc.shift || ascii_parts_name(parts, ModifierKey::Shift),
            alt: acc.alt || ascii_parts_name(parts, ModifierKey::Alt),
            meta: acc.meta || ascii_parts_name(parts, ModifierKey::Meta),
            key: match last_ascii_key_part(parts) {
                Some(u) => key_code_of(u),
                None => acc.key,
            },
        }),
    decreases parts.len(),
{
    if parts.len() > 0 {
        absorb_ascii_from_state(acc, parts.drop_last());
        ascii_parts_name_last(parts, ModifierKey::Control);
        ascii_parts_name_last(parts, ModifierKey::Shift);
        ascii_parts_name_last(parts, ModifierKey::Alt);
        ascii_parts_name_last(parts, ModifierKey::Meta);
    }
}

/// The chord of an ASCII hotkey string depends only on which modifiers its
/// parts name and on how its last part that names no modifier reads. So
/// parts may be reordered as long as those naming no modifier keep their
/// order, change letter case, gain white space around them, or be repeated,
/// all at once, and the string still describes the same chord; this is how
/// `parse_hotkey_chord` and `parse_hotkey` read ASCII strings.
pub proof fn ascii_hotkey_chord_normal_form(s: Seq<char>, t: Seq<char>)
    requires
        forall|m: ModifierKey|
            ascii_parts_name(hotkey_parts(s), m) == #[trigger] ascii_parts_name(hotkey_parts(t), m),
        last_ascii_key_part(hotkey_parts(s)) == last_ascii_key_part(hotkey_parts(t)),
    ensures
        ascii_hotkey_chord(s) == ascii_hotkey_chord(t),
{
    let (ps, pt) = (hotkey_parts(s), hotkey_parts(t));
    absorb_ascii_from_state(empty_chord_state(), ps);
    absorb_ascii_from_state(empty_chord_state(), pt);
    assert(ascii_parts_name(ps, ModifierKey::Control) == ascii_parts_name(pt, ModifierKey::Control));
    assert(ascii_parts_name(ps, ModifierKey::Shift) == ascii_parts_name(pt, ModifierKey::Shift));
    assert(ascii_parts_name(ps, ModifierKey::Alt) == ascii_parts_name(pt, ModifierKey::Alt));
    assert(ascii_parts_name(ps, ModifierKey::Meta) == ascii_parts_name(pt, ModifierKey::Meta));
}

} // verus!

