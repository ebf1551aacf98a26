//! macOS keystrokes: a reverse map of the current keyboard layout from
//! character to physical key, so that clients reading key codes (remote
//! desktops, virtual machines) receive the right key, while the event also
//! carries the character itself.

use vstd::prelude::*;
use std::collections::HashMap;
use crate::utf16::{encode_utf16, first_char_lossy, first_scalar_lossy, is_control_char, utf16_units};

verus! {

broadcast use vstd::std_specs::hash::group_hash_axioms;

/// The modifier combinations tried on every key when the layout map is
/// built, simplest first.
#[derive(Clone, Copy, Debug, PartialEq, Eq, Structural)]
pub enum LayoutModifiers {
    Plain,
    Shift,
    Option,
    ShiftOption,
}

/// A character's keystroke on the current layout: the virtual key code and
/// the modifiers held with it.
#[derive(Clone, Copy, Debug, PartialEq, Eq, Structural)]
pub struct KeyStroke {
    pub keycode: u16,
    pub modifiers: LayoutModifiers,
}

/// What the layout produced for one key and modifier combination:
/// `UCKeyTranslate`'s status and the UTF-16 units it wrote.
#[derive(Clone, Debug)]
pub struct KeyOutput {
    pub keycode: u16,
    pub modifiers: LayoutModifiers,
    pub status: i32,
    pub units: Vec<u16>,
}

/// The number of virtual key codes the layout map covers.
pub const LAYOUT_KEY_COUNT: u16 = 128;

/// The modifier combination with index `i` (0 to 3), simplest first.
pub open spec fn combo(i: int) -> LayoutModifiers {
    if i == 0 {
        LayoutModifiers::Plain
    } else if i == 1 {
        LayoutModifiers::Shift
    } else if i == 2 {
        LayoutModifiers::Option
    } else {
        LayoutModifiers::ShiftOption
    }
}

/// The modifier state `UCKeyTranslate` takes for a combination: the Carbon
/// event modifiers shifted right by 8 (Shift 2, Option 8).
pub open spec fn uc_modifier_state(m: LayoutModifiers) -> u32 {
    match m {
        LayoutModifiers::Plain => 0,
        LayoutModifiers::Shift => 2,
        LayoutModifiers::Option => 8,
        LayoutModifiers::ShiftOption => 10,
    }
}

/// The modifier state `UCKeyTranslate` takes for a combination.
pub fn uc_modifiers(m: LayoutModifiers) -> (res: u32)
    ensures
        res == uc_modifier_state(m),
{
    match m {
        LayoutModifiers::Plain => 0,
        LayoutModifiers::Shift => 2,
        LayoutModifiers::Option => 8,
        LayoutModifiers::ShiftOption => 10,
    }
}

/// The key and modifier combinations to look up, in the order the map
/// takes them: every key code, each with the combinations simplest first.
pub open spec fn layout_queries() -> Seq<(u16, LayoutModifiers)> {
    Seq::new(512, |i: int| ((i / 4) as u16, combo(i % 4)))
}

/// The key and modifier combinations to look up, in order.
pub fn keymap_queries() -> (res: Vec<(u16, LayoutModifiers)>)
    ensures
        res@ == layout_queries(),
{
    let mut v: Vec<(u16, LayoutModifiers)> = Vec::new();
    let mut k: u16 = 0;
    while k < LAYOUT_KEY_COUNT
        invariant
            k <= 128,
            v@ == layout_queries().take(4 * k),
        decreases 128 - k,
    {
        v.push((k, LayoutModifiers::Plain));
        v.push((k, LayoutModifiers::Shift));
        v.push((k, LayoutModifiers::Option));
        v.push((k, LayoutModifiers::ShiftOption));
        assert(v@ =~= layout_queries().take(4 * (k + 1)));
        k = k + 1;
    }
    assert(layout_queries().take(512) =~= layout_queries());
    v
}

/// The character (by scalar value) a key output contributes to the map:
/// the first character of its output, unless the lookup failed, wrote
/// nothing, or wrote a control character (those are typed as special keys).
pub open spec fn produced_scalar(t: KeyOutput) -> Option<u32> {
    if t.status != 0 || t.units@.len() == 0 {
        None
    } else {
        match first_scalar_lossy(t.units@) {
            Some(v) => if v <= 0x1F || (0x7F <= v && v <= 0x9F) {
                None
            } else {
                Some(v)
            },
            None => None,
        }
    }
}

pub open spec fn stroke_of(t: KeyOutput) -> KeyStroke {
    KeyStroke { keycode: t.keycode, modifiers: t.modifiers }
}

/// The map from character (scalar value) to keystroke that the outputs
/// give, taken in order: the first output to produce a character wins.
pub open spec fn keymap_of(ts: Seq<KeyOutput>) -> Map<u32, KeyStroke>
    decreases ts.len(),
{
    if ts.len() == 0 {
        Map::empty()
    } else {
        let m = keymap_of(ts.drop_last());
        match produced_scalar(ts.last()) {
            Some(v) => if m.contains_key(v) {
                m
            } else {
                m.insert(v, stroke_of(ts.last()))
            },
            None => m,
        }
    }
}

/// The reverse layout map: character to physical keystroke.
pub struct KeyMap {
    strokes: HashMap<u32, KeyStroke>,
}

impl View for KeyMap {
    type V = Map<u32, KeyStroke>;

    closed spec fn view(&self) -> Map<u32, KeyStroke> {
        self.strokes@
    }
}

fn output_scalar(t: &KeyOutput) -> (res: Option<u32>)
    ensures
        res == produced_scalar(*t),
{
    if t.status != 0 || t.units.len() == 0 {
        return None;
    }
    match first_char_lossy(t.units.as_slice()) {
        Some(c) => {
            if is_control_char(c) {
                None
            } else {
                Some(c as u32)
            }
        },
        None => None,
    }
}

impl KeyMap {
    /// Builds the map from the layout's key outputs, in the order
    /// `keymap_queries` gives: per character, the first (simplest) keystroke
    /// that produces it.
    pub fn build_keymap(outputs: &Vec<KeyOutput>) -> (res: KeyMap)
        ensures
            res@ == keymap_of(outputs@),
    {
        let mut strokes: HashMap<u32, KeyStroke> = HashMap::new();
        let mut i: usize = 0;
        while i < outputs.len()
            invariant
                i <= outputs@.len(),
                strokes@ == keymap_of(outputs@.take(i as int)),
            decreases outputs.len() - i,
        {
            let t = &outputs[i];
            assert(outputs@.take(i + 1).drop_last() =~= outputs@.take(i as int));
            assert(outputs@.take(i + 1).last() == *t);
            match output_scalar(t) {
                Some(v) => {
                    if !strokes.contains_key(&v) {
                        strokes.insert(v, KeyStroke { keycode: t.keycode, modifiers: t.modifiers });
                    }
                },
                None => {},
            }
            i = i + 1;
        }
        assert(outputs@.take(outputs.len() as int) =~= outputs@);
        KeyMap { strokes }
    }

    /// The keystroke for a character: its entry in the map, or key code 0
    /// without modifiers when the layout has no key for it (the character is
    /// still delivered through the event's text).
    pub fn keystroke_for(&self, ch: char) -> (res: KeyStroke)
        ensures
            res == (if self@.contains_key(ch as u32) {
                self@[ch as u32]
            } else {
                KeyStroke { keycode: 0, modifiers: LayoutModifiers::Plain }
            }),
    {
        match self.strokes.get(&(ch as u32)) {
            Some(s) => *s,
            None => KeyStroke { keycode: 0, modifiers: LayoutModifiers::Plain },
        }
    }

    /// Whether the map has a keystroke for a character.
    pub fn contains(&self, ch: char) -> (res: bool)
        ensures
            res == self@.contains_key(ch as u32),
    {
        self.strokes.contains_key(&(ch as u32))
    }
}

/// What a typed character becomes: the keystroke that the key-down and
/// key-up events carry, and the character's UTF-16 units as their text.
#[derive(Clone, Debug)]
pub struct CharStroke {
    pub stroke: KeyStroke,
    pub units: Vec<u16>,
}

/// The keystroke and text with which a character is typed.
pub fn send_unicode_char(map: &KeyMap, ch: char) -> (res: CharStroke)
    ensures
        res.stroke == (if map@.contains_key(ch as u32) {
            map@[ch as u32]
        } else {
            KeyStroke { keycode: 0, modifiers: LayoutModifiers::Plain }
        }),
        res.units@ == utf16_units(ch),
{
    CharStroke { stroke: map.keystroke_for(ch), units: encode_utf16(ch) }
}

/// The key codes of the modifier keys whose state the wait before typing
/// polls: left and right Command, Shift, Control and Option.
pub open spec fn modifier_keycodes() -> Seq<u16> {
    seq![0x37, 0x36, 0x38, 0x3C, 0x3B, 0x3E, 0x3A, 0x3D]
}

/// The key codes of the modifier keys whose state the wait before typing
/// polls.
pub fn modifier_keycode_list() -> (res: Vec<u16>)
    ensures
        res@ == modifier_keycodes(),
{
    let mut v: Vec<u16> = Vec::new();
    v.push(0x37);
    v.push(0x36);
    v.push(0x38);
    v.push(0x3C);
    v.push(0x3B);
    v.push(0x3E);
    v.push(0x3A);
    v.push(0x3D);
    assert(v@ =~= modifier_keycodes());
    v
}

/// A character that some key output produces is in the map, with the
/// keystroke of the first key output that produces it.
pub proof fn keymap_first_output_wins(ts: Seq<KeyOutput>, i: int, v: u32)
    requires
        0 <= i < ts.len(),
        produced_scalar(ts[i]) == Some(v),
        forall|j: int| 0 <= j < i ==> produced_scalar(#[trigger] ts[j]) != Some(v),
    ensures
        keymap_of(ts).contains_key(v),
        keymap_of(ts)[v] == stroke_of(ts[i]),
    decreases ts.len(),
{
    if i == ts.len() - 1 {
        keymap_absent_until_produced(ts.drop_last(), v);
    } else {
        keymap_first_output_wins(ts.drop_last(), i, v);
    }
}

/// A character no key output produces is not in the map.
pub proof fn keymap_absent_until_produced(ts: Seq<KeyOutput>, v: u32)
    requires
        forall|j: int| 0 <= j < ts.len() ==> produced_scalar(#[trigger] ts[j]) != Some(v),
    ensures
        !keymap_of(ts).contains_key(v),
    decreases ts.len(),
{
    if ts.len() > 0 {
        assert forall|j: int| 0 <= j < ts.drop_last().len() implies produced_scalar(
            #[trigger] ts.drop_last()[j],
        ) != Some(v) by {
            assert(ts.drop_last()[j] == ts[j]);
        }
        keymap_absent_until_produced(ts.drop_last(), v);
        assert(produced_scalar(ts[ts.len() - 1]) != Some(v));
    }
}

/// Every entry of the map comes from a key output: some output produces the
/// character, the entry is that output's keystroke, and the character is not
/// a control character.
pub proof fn keymap_entries_come_from_outputs(ts: Seq<KeyOutput>, v: u32)
    requires
        keymap_of(ts).contains_key(v),
    ensures
        exists|i: int|
            0 <= i < ts.len() && produced_scalar(#[trigger] ts[i]) == Some(v) && keymap_of(ts)[v]
                == stroke_of(ts[i]),
        !(v <= 0x1F || (0x7F <= v && v <= 0x9F)),
    decreases ts.len(),
{
    let front = ts.drop_last();
    if keymap_of(front).contains_key(v) {
        keymap_entries_come_from_outputs(front, v);
        let i = choose|i: int|
            0 <= i < front.len() && produced_scalar(#[trigger] front[i]) == Some(v)
                && keymap_of(front)[v] == stroke_of(front[i]);
        assert(front[i] == ts[i]);
        assert(keymap_of(ts)[v] == keymap_of(front)[v]);
        assert(produced_scalar(ts[i]) == Some(v));
    } else {
        let i = ts.len() - 1;
        assert(ts.last() == ts[i]);
        assert(produced_scalar(ts[i]) == Some(v));
    }
}

/// When the key outputs answer the lookups of `layout_queries` in order,
/// every entry of the map is a key code below `LAYOUT_KEY_COUNT`.
pub proof fn keymap_keycodes_in_range(ts: Seq<KeyOutput>, v: u32)
    requires
        ts.len() <= layout_queries().len(),
        forall|i: int|
            0 <= i < ts.len() ==> (#[trigger] ts[i].keycode, ts[i].modifiers)
                == layout_queries()[i],
        keymap_of(ts).contains_key(v),
    ensures
        keymap_of(ts)[v].keycode < LAYOUT_KEY_COUNT,
{
    keymap_entries_come_from_outputs(ts, v);
    let i = choose|i: int|
        0 <= i < ts.len() && produced_scalar(#[trigger] ts[i]) == Some(v) && keymap_of(ts)[v]
            == stroke_of(ts[i]);
    assert((ts[i].keycode, ts[i].modifiers) == layout_queries()[i]);
    assert(0 <= i / 4 < 128);
}

/// Whether `outs` are the lookup results `results`, given in the order of
/// `layout_queries`, each paired with the key and modifiers it was looked up
/// with; results past the last query are left out.
pub open spec fn pairs_lookups(outs: Seq<KeyOutput>, results: Seq<(i32, Vec<u16>)>) -> bool {
    &&& outs.len() == (if results.len() < layout_queries().len() {
        results.len()
    } else {
        layout_queries().len()
    })
    &&& forall|i: int|
        0 <= i < outs.len() ==> {
            &&& (#[trigger] outs[i]).keycode == layout_queries()[i].0
            &&& outs[i].modifiers == layout_queries()[i].1
            &&& outs[i].status == results[i].0
            &&& outs[i].units@ == results[i].1@
        }
}

/// Pairs lookup results, given in the order of `keymap_queries`, with the key
/// and modifiers each was looked up with.
pub fn pair_with_queries(results: &Vec<(i32, Vec<u16>)>) -> (res: Vec<KeyOutput>)
    ensures
        pairs_lookups(res@, results@),
{
    let queries = keymap_queries();
    let n: usize = if results.len() < queries.len() {
        results.len()
    } else {
        queries.len()
    };
    let mut out: Vec<KeyOutput> = Vec::new();
    let mut i: usize = 0;
    while i < n
        invariant
            queries@ == layout_queries(),
            n <= results@.len(),
            n <= queries@.len(),
            n == (if results@.len() < layout_queries().len() {
                results@.len()
            } else {
                layout_queries().len()
            }),
            i <= n,
            out@.len() == i,
            forall|k: int|
                0 <= k < i ==> {
                    &&& (#[trigger] out@[k]).keycode == layout_queries()[k].0
                    &&& out@[k].modifiers == layout_queries()[k].1
                    &&& out@[k].status == results@[k].0
                    &&& out@[k].units@ == results@[k].1@
                },
        decreases n - i,
    {
        let (keycode, modifiers) = queries[i];
        let src = &results[i].1;
        let mut units: Vec<u16> = Vec::new();
        let mut j: usize = 0;
        while j < src.len()
            invariant
                j <= src@.len(),
                units@ == src@.take(j as int),
            decreases src.len() - j,
        {
            units.push(src[j]);
            assert(units@ =~= src@.take(j + 1));
            j = j + 1;
        }
        assert(units@ =~= src@);
        out.push(KeyOutput { keycode, modifiers, status: results[i].0, units });
        i = i + 1;
    }
    out
}

impl KeyMap {
    /// Builds the map from lookup results given in the order of
    /// `keymap_queries`: every entry is the keystroke of a key below
    /// `LAYOUT_KEY_COUNT`.
    pub fn build_from_lookups(results: &Vec<(i32, Vec<u16>)>) -> (res: KeyMap)
        ensures
            exists|outs: Seq<KeyOutput>| pairs_lookups(outs, results@) && res@ == keymap_of(outs),
            forall|v: u32| res@.contains_key(v) ==> (#[trigger] res@[v]).keycode < LAYOUT_KEY_COUNT,
    {
        let outs = pair_with_queries(results);
        let map = KeyMap::build_keymap(&outs);
        proof {
            assert forall|v: u32| map@.contains_key(v) implies (#[trigger] map@[v]).keycode
                < LAYOUT_KEY_COUNT by {
                keymap_keycodes_in_range(outs@, v);
            }
        }
        map
    }
}

/// Once a character is in the map, reading more outputs keeps it there with
/// the same keystroke.
proof fn keymap_keeps_entries(ts: Seq<KeyOutput>, n: int, v: u32)
    requires
        0 <= n <= ts.len(),
        keymap_of(ts.take(n)).contains_key(v),
    ensures
        keymap_of(ts).contains_key(v),
        keymap_of(ts)[v] == keymap_of(ts.take(n))[v],
    decreases ts.len() - n,
{
    if n < ts.len() {
        let next = ts.take(n + 1);
        assert(next.drop_last() =~= ts.take(n));
        keymap_keeps_entries(ts, n + 1, v);
    } else {
        assert(ts.take(n) =~= ts);
    }
}

/// A successful lookup (status 0, some output) whose first character is not
/// a control character (`U+0000`–`U+001F`, `U+007F`–`U+009F`) puts that
/// character in the map, space and other white space included; a control
/// character, a failed lookup or an empty output puts nothing in.
pub proof fn successful_lookup_enters_map(ts: Seq<KeyOutput>, i: int, v: u32)
    requires
        0 <= i < ts.len(),
        ts[i].status == 0,
        ts[i].units@.len() > 0,
        first_scalar_lossy(ts[i].units@) == Some(v),
    ensures
        !(v <= 0x1F || (0x7F <= v && v <= 0x9F)) ==> keymap_of(ts).contains_key(v),
        !(v <= 0x1F || (0x7F <= v && v <= 0x9F)) ==> produced_scalar(ts[i]) == Some(v),
        (v <= 0x1F || (0x7F <= v && v <= 0x9F)) ==> produced_scalar(ts[i]) is None,
{
    if !(v <= 0x1F || (0x7F <= v && v <= 0x9F)) {
        let pre = ts.take(i + 1);
        assert(pre.drop_last() =~= ts.take(i));
        assert(pre.last() == ts[i]);
        assert(keymap_of(pre).contains_key(v));
        keymap_keeps_entries(ts, i + 1, v);
    }
}

} // verus!

