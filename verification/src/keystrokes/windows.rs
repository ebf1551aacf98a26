//! Windows keystrokes: keys found on the current layout are sent as virtual
//! key plus scan code (with the modifiers the layout needs), other characters
//! as Unicode input.

use vstd::prelude::*;
use crate::utf16::{encode_utf16, utf16_units};

verus! {

pub const VK_SHIFT: u16 = 0x10;
pub const VK_CONTROL: u16 = 0x11;
pub const VK_MENU: u16 = 0x12;
pub const VK_LWIN: u16 = 0x5B;
pub const VK_RWIN: u16 = 0x5C;

/// The pause around the modifier presses of a layout key, in milliseconds.
pub const MODIFIER_PAUSE_MS: u64 = 5;

/// One step of sending keyboard input on Windows.
#[derive(Clone, Copy, Debug, PartialEq, Eq, Structural)]
pub enum WinStep {
    /// A virtual key event whose scan code is looked up from the key.
    Virtual { vk: u16, key_up: bool },
    /// A key event with a known virtual key and scan code.
    Scan { vk: u16, scan: u16, key_up: bool },
    /// A Unicode key-down and key-up of one UTF-16 unit, sent together.
    Unicode { unit: u16 },
    /// A pause.
    Sleep { ms: u64 },
}

/// A character's place on the keyboard layout: its virtual key, the shift
/// state that `VkKeyScanW` reports for it (bit 1 Shift, bit 2 Ctrl, bit 4
/// Alt) and the key's scan code.
#[derive(Clone, Copy, Debug, PartialEq, Eq, Structural)]
pub struct LayoutKey {
    pub vk: u16,
    pub shift_state: u16,
    pub scan: u16,
}

/// The modifier keys whose state the wait before typing polls.
pub open spec fn modifier_keys() -> Seq<u16> {
    seq![VK_SHIFT, VK_CONTROL, VK_MENU, VK_LWIN, VK_RWIN]
}

/// The modifier keys whose state the wait before typing polls.
pub fn modifier_key_list() -> (res: Vec<u16>)
    ensures
        res@ == modifier_keys(),
{
    let mut v: Vec<u16> = Vec::new();
    v.push(VK_SHIFT);
    v.push(VK_CONTROL);
    v.push(VK_MENU);
    v.push(VK_LWIN);
    v.push(VK_RWIN);
    assert(v@ =~= modifier_keys());
    v
}

/// Whether a `GetAsyncKeyState` result says that the key is down: its most
/// significant bit is set.
pub fn is_key_down(state: i16) -> (res: bool)
    ensures
        res == (state < 0),
{
    let r = (state as u16) & 0x8000 != 0;
    assert(((state as u16) & 0x8000 != 0) == (state < 0)) by (bit_vector);
    r
}

/// The UTF-16 unit of a character of the Basic Multilingual Plane, the only
/// ones `VkKeyScanW` can look up.
pub fn bmp_unit(ch: char) -> (res: Option<u16>)
    ensures
        res == (if (ch as u32) <= 0xFFFF { Some(ch as u16) } else { None::<u16> }),
{
    if ch as u32 <= 0xFFFF {
        Some(ch as u16)
    } else {
        None
    }
}

/// The virtual key (low byte) and shift state (high byte) of a `VkKeyScanW`
/// result; `None` for -1, which means the layout has no key for the
/// character.
pub fn split_vk_scan(vk_scan: i16) -> (res: Option<(u16, u16)>)
    ensures
        vk_scan == -1 ==> res is None,
        vk_scan != -1 ==> res == Some(((vk_scan as u16) % 256, (vk_scan as u16) / 256)),
{
    if vk_scan == -1 {
        return None;
    }
    let u: u16 = vk_scan as u16;
    let vk: u16 = u & 0xFF;
    let shift: u16 = (u >> 8) & 0xFF;
    assert(u & 0xFF == u % 256) by (bit_vector);
    assert((u >> 8) & 0xFF == u / 256) by (bit_vector);
    Some((vk, shift))
}

pub open spec fn has_shift(s: u16) -> bool {
    s % 2 == 1
}

pub open spec fn has_ctrl(s: u16) -> bool {
    (s / 2) % 2 == 1
}

pub open spec fn has_alt(s: u16) -> bool {
    (s / 4) % 2 == 1
}

/// The modifier keys a shift state needs, in the order they are pressed.
pub open spec fn modifiers_needed(s: u16) -> Seq<u16> {
    (if has_shift(s) { seq![VK_SHIFT] } else { Seq::empty() })
        + (if has_ctrl(s) { seq![VK_CONTROL] } else { Seq::empty() })
        + (if has_alt(s) { seq![VK_MENU] } else { Seq::empty() })
}

pub open spec fn press(vk: u16) -> WinStep {
    WinStep::Virtual { vk, key_up: false }
}

pub open spec fn release(vk: u16) -> WinStep {
    WinStep::Virtual { vk, key_up: true }
}

/// The pause steps around the key: one when modifiers are involved.
pub open spec fn modifier_pause(s: u16) -> Seq<WinStep> {
    if s != 0 {
        seq![WinStep::Sleep { ms: MODIFIER_PAUSE_MS }]
    } else {
        Seq::empty()
    }
}

/// The steps that type a character found on the layout: press Shift, Ctrl
/// and Alt as the shift state needs, pause, press and release the key, pause,
/// and release Alt, Ctrl and Shift.
pub open spec fn layout_steps(l: LayoutKey) -> Seq<WinStep> {
    let s = l.shift_state;
    (if has_shift(s) { seq![press(VK_SHIFT)] } else { Seq::empty() })
        + (if has_ctrl(s) { seq![press(VK_CONTROL)] } else { Seq::empty() })
        + (if has_alt(s) { seq![press(VK_MENU)] } else { Seq::empty() })
        + modifier_pause(s)
        + seq![
        WinStep::Scan { vk: l.vk, scan: l.scan, key_up: false },
        WinStep::Scan { vk: l.vk, scan: l.scan, key_up: true },
    ]
        + modifier_pause(s)
        + (if has_alt(s) { seq![release(VK_MENU)] } else { Seq::empty() })
        + (if has_ctrl(s) { seq![release(VK_CONTROL)] } else { Seq::empty() })
        + (if has_shift(s) { seq![release(VK_SHIFT)] } else { Seq::empty() })
}

/// The steps that type a character as Unicode input, one key-down and
/// key-up pair per UTF-16 unit.
pub open spec fn unicode_steps(ch: char) -> Seq<WinStep> {
    utf16_units(ch).map_values(|u: u16| WinStep::Unicode { unit: u })
}

/// The steps that type a character: through the layout when it has a key
/// with a scan code, else as Unicode input.
pub open spec fn char_steps(ch: char, layout: Option<LayoutKey>) -> Seq<WinStep> {
    match layout {
        Some(l) => if l.scan != 0 {
            layout_steps(l)
        } else {
            unicode_steps(ch)
        },
        None => unicode_steps(ch),
    }
}

fn push_if(v: &mut Vec<WinStep>, cond: bool, step: WinStep)
    ensures
        final(v)@ == old(v)@ + (if cond { seq![step] } else { Seq::empty() }),
{
    if cond {
        v.push(step);
    } else {
        assert(v@ + Seq::<WinStep>::empty() =~= v@);
    }
}

/// The steps that type `ch`, given where the current layout has it (`None`
/// when `VkKeyScanW` has no key for it or it lies outside the Basic
/// Multilingual Plane).
pub fn send_unicode_char(ch: char, layout: Option<LayoutKey>) -> (res: Vec<WinStep>)
    ensures
        res@ == char_steps(ch, layout),
{
    match layout {
        Some(l) => {
            if l.scan != 0 {
                let s: u16 = l.shift_state;
                let shift = s & 1 != 0;
                let ctrl = s & 2 != 0;
                let alt = s & 4 != 0;
                assert((s & 1 != 0) == (s % 2 == 1)) by (bit_vector);
                assert((s & 2 != 0) == ((s / 2) % 2 == 1)) by (bit_vector);
                assert((s & 4 != 0) == ((s / 4) % 2 == 1)) by (bit_vector);
                let mut v: Vec<WinStep> = Vec::new();
                push_if(&mut v, shift, WinStep::Virtual { vk: VK_SHIFT, key_up: false });
                push_if(&mut v, ctrl, WinStep::Virtual { vk: VK_CONTROL, key_up: false });
                push_if(&mut v, alt, WinStep::Virtual { vk: VK_MENU, key_up: false });
                push_if(&mut v, s != 0, WinStep::Sleep { ms: MODIFIER_PAUSE_MS });
                v.push(WinStep::Scan { vk: l.vk, scan: l.scan, key_up: false });
                v.push(WinStep::Scan { vk: l.vk, scan: l.scan, key_up: true });
                push_if(&mut v, s != 0, WinStep::Sleep { ms: MODIFIER_PAUSE_MS });
                push_if(&mut v, alt, WinStep::Virtual { vk: VK_MENU, key_up: true });
                push_if(&mut v, ctrl, WinStep::Virtual { vk: VK_CONTROL, key_up: true });
                push_if(&mut v, shift, WinStep::Virtual { vk: VK_SHIFT, key_up: true });
                assert(v@ =~= layout_steps(l));
                return v;
            }
        },
        None => {},
    }
    let units = encode_utf16(ch);
    let mut v: Vec<WinStep> = Vec::new();
    let mut i: usize = 0;
    while i < units.len()
        invariant
            i <= units@.len(),
            v@ == units@.take(i as int).map_values(|u: u16| WinStep::Unicode { unit: u }),
        decreases units.len() - i,
    {
        v.push(WinStep::Unicode { unit: units[i] });
        i = i + 1;
        assert(units@.take(i as int).map_values(|u: u16| WinStep::Unicode { unit: u }) =~= units@.take(
            i - 1,
        ).map_values(|u: u16| WinStep::Unicode { unit: u }).push(WinStep::Unicode { unit: units@[i - 1] }));
    }
    assert(units@.take(units.len() as int) =~= units@);
    v
}

/// The steps of a virtual key press: key down, then key up.
pub fn send_virtual_key(vk: u16) -> (res: Vec<WinStep>)
    ensures
        res@ == seq![press(vk), release(vk)],
{
    let mut v: Vec<WinStep> = Vec::new();
    v.push(WinStep::Virtual { vk, key_up: false });
    v.push(WinStep::Virtual { vk, key_up: true });
    assert(v@ =~= seq![press(vk), release(vk)]);
    v
}

/// The modifiers a layout key presses before the key are released after it,
/// in reverse order, and nothing else is pressed or released around it.
pub proof fn layout_modifiers_released_in_reverse(l: LayoutKey)
    ensures
        layout_steps(l) == modifiers_needed(l.shift_state).map_values(|vk: u16| press(vk))
            + modifier_pause(l.shift_state) + seq![
            WinStep::Scan { vk: l.vk, scan: l.scan, key_up: false },
            WinStep::Scan { vk: l.vk, scan: l.scan, key_up: true },
        ] + modifier_pause(l.shift_state) + modifiers_needed(l.shift_state).reverse().map_values(
            |vk: u16| release(vk),
        ),
{
    let s = l.shift_state;
    let m = modifiers_needed(s);
    assert(m.map_values(|vk: u16| press(vk)) =~= (if has_shift(s) { seq![press(VK_SHIFT)] } else { Seq::empty() })
        + (if has_ctrl(s) { seq![press(VK_CONTROL)] } else { Seq::empty() })
        + (if has_alt(s) { seq![press(VK_MENU)] } else { Seq::empty() }));
    assert(m.reverse().map_values(|vk: u16| release(vk)) =~= (if has_alt(s) { seq![release(VK_MENU)] } else { Seq::empty() })
        + (if has_ctrl(s) { seq![release(VK_CONTROL)] } else { Seq::empty() })
        + (if has_shift(s) { seq![release(VK_SHIFT)] } else { Seq::empty() }));
    assert(layout_steps(l) =~= m.map_values(|vk: u16| press(vk)) + modifier_pause(s) + seq![
        WinStep::Scan { vk: l.vk, scan: l.scan, key_up: false },
        WinStep::Scan { vk: l.vk, scan: l.scan, key_up: true },
    ] + modifier_pause(s) + m.reverse().map_values(|vk: u16| release(vk)));
}

/// Whether the steps hold the step `w`.
pub open spec fn has_step(st: Seq<WinStep>, w: WinStep) -> bool {
    exists|k: int| 0 <= k < st.len() && st[k] == w
}

/// A step is in a concatenation exactly when it is in one of the parts.
proof fn has_step_concat(p: Seq<WinStep>, q: Seq<WinStep>, w: WinStep)
    ensures
        has_step(p + q, w) == (has_step(p, w) || has_step(q, w)),
{
    if has_step(p + q, w) {
        let k = choose|k: int| 0 <= k < (p + q).len() && (p + q)[k] == w;
        if k < p.len() {
            assert(p[k] == w);
        } else {
            assert(q[k - p.len()] == w);
        }
    }
    if has_step(p, w) {
        let k = choose|k: int| 0 <= k < p.len() && p[k] == w;
        assert((p + q)[k] == w);
    }
    if has_step(q, w) {
        let k = choose|k: int| 0 <= k < q.len() && q[k] == w;
        assert((p + q)[p.len() + k] == w);
    }
}

/// A step is in an optional one-step sequence exactly when it is there and
/// is that step.
proof fn has_step_optional(a: bool, x: WinStep, w: WinStep)
    ensures
        has_step(if a { seq![x] } else { Seq::empty() }, w) == (a && x == w),
{
    if a && x == w {
        assert(seq![x][0] == w);
    }
}

/// A character typed through the layout is typed with Shift held exactly
/// when bit 0 of its shift state is set, Ctrl exactly when bit 1 is, and Alt
/// exactly when bit 2 is, each bit whatever the others are: each such
/// modifier is pressed before the key and released after it, and no other
/// virtual key is pressed or released.
pub proof fn layout_modifiers_follow_shift_state_bits(ch: char, l: LayoutKey, vk: u16, key_up: bool)
    requires
        l.scan != 0,
    ensures
        has_step(char_steps(ch, Some(l)), WinStep::Virtual { vk: vk, key_up: key_up }) <==> ((vk
            == 0x10 && l.shift_state % 2 == 1) || (vk == 0x11 && (l.shift_state / 2) % 2 == 1) || (vk
            == 0x12 && (l.shift_state / 4) % 2 == 1)),
        l.shift_state % 2 == 1 ==> char_steps(ch, Some(l))[0] == (WinStep::Virtual {
            vk: 0x10,
            key_up: false,
        }),
        l.shift_state % 2 == 1 ==> char_steps(ch, Some(l)).last() == (WinStep::Virtual {
            vk: 0x10,
            key_up: true,
        }),
{
    let s = l.shift_state;
    let st = char_steps(ch, Some(l));
    let w = WinStep::Virtual { vk: vk, key_up: key_up };
    let p1 = if has_shift(s) { seq![press(VK_SHIFT)] } else { Seq::empty() };
    let p2 = if has_ctrl(s) { seq![press(VK_CONTROL)] } else { Seq::empty() };
    let p3 = if has_alt(s) { seq![press(VK_MENU)] } else { Seq::empty() };
    let m = modifier_pause(s) + seq![
        WinStep::Scan { vk: l.vk, scan: l.scan, key_up: false },
        WinStep::Scan { vk: l.vk, scan: l.scan, key_up: true },
    ] + modifier_pause(s);
    let r1 = if has_alt(s) { seq![release(VK_MENU)] } else { Seq::empty() };
    let r2 = if has_ctrl(s) { seq![release(VK_CONTROL)] } else { Seq::empty() };
    let r3 = if has_shift(s) { seq![release(VK_SHIFT)] } else { Seq::empty() };
    assert(st == p1 + p2 + p3 + m + r1 + r2 + r3);
    has_step_concat(p1 + p2 + p3 + m + r1 + r2, r3, w);
    has_step_concat(p1 + p2 + p3 + m + r1, r2, w);
    has_step_concat(p1 + p2 + p3 + m, r1, w);
    has_step_concat(p1 + p2 + p3, m, w);
    has_step_concat(p1 + p2, p3, w);
    has_step_concat(p1, p2, w);
    has_step_optional(has_shift(s), press(VK_SHIFT), w);
    has_step_optional(has_ctrl(s), press(VK_CONTROL), w);
    has_step_optional(has_alt(s), press(VK_MENU), w);
    has_step_optional(has_alt(s), release(VK_MENU), w);
    has_step_optional(has_ctrl(s), release(VK_CONTROL), w);
    has_step_optional(has_shift(s), release(VK_SHIFT), w);
    assert(!has_step(m, w)) by {
        if has_step(m, w) {
            let k = choose|k: int| 0 <= k < m.len() && m[k] == w;
            assert(!(m[k] is Virtual));
        }
    }
    if has_shift(s) {
        assert(st[0] == p1[0]);
        assert(st.last() == r3[0]);
    }
}

} // verus!

verus! {

/// `KEYEVENTF_KEYUP`: the event releases the key.
pub const KEYEVENTF_KEYUP: u32 = 0x0002;
/// `KEYEVENTF_UNICODE`: the scan code field holds a UTF-16 unit.
pub const KEYEVENTF_UNICODE: u32 = 0x0004;
/// `KEYEVENTF_SCANCODE`: the scan code field identifies the key.
pub const KEYEVENTF_SCANCODE: u32 = 0x0008;

/// The content of one keyboard `INPUT` for `SendInput`.
#[derive(Clone, Copy, Debug, PartialEq, Eq, Structural)]
pub struct KeyboardInput {
    pub vk: u16,
    pub scan: u16,
    pub flags: u32,
}

/// A virtual key event carrying the key's scan code, for modifiers and
/// special keys.
pub fn vk_input(vk: u16, scan: u16, key_up: bool) -> (res: KeyboardInput)
    ensures
        res == (KeyboardInput { vk, scan, flags: if key_up { KEYEVENTF_KEYUP } else { 0 } }),
{
    KeyboardInput { vk, scan, flags: if key_up { KEYEVENTF_KEYUP } else { 0 } }
}

/// A key event that names the key by scan code as well as virtual key, for
/// the character keys of the layout.
pub fn scan_input(vk: u16, scan: u16, key_up: bool) -> (res: KeyboardInput)
    ensures
        res == (KeyboardInput {
            vk,
            scan,
            flags: if key_up { KEYEVENTF_SCANCODE | KEYEVENTF_KEYUP } else { KEYEVENTF_SCANCODE },
        }),
{
    KeyboardInput {
        vk,
        scan,
        flags: if key_up { KEYEVENTF_SCANCODE | KEYEVENTF_KEYUP } else { KEYEVENTF_SCANCODE },
    }
}

/// A Unicode event for one UTF-16 unit; the virtual key must be 0.
pub fn create_unicode_input(code_unit: u16, key_up: bool) -> (res: KeyboardInput)
    ensures
        res == (KeyboardInput {
            vk: 0,
            scan: code_unit,
            flags: if key_up { KEYEVENTF_UNICODE | KEYEVENTF_KEYUP } else { KEYEVENTF_UNICODE },
        }),
{
    KeyboardInput {
        vk: 0,
        scan: code_unit,
        flags: if key_up { KEYEVENTF_UNICODE | KEYEVENTF_KEYUP } else { KEYEVENTF_UNICODE },
    }
}

} // verus!
