//! UTF-16 code units of characters, as the keyboard APIs take them, and the
//! lossy decoding of a key's output back to a character.

use vstd::prelude::*;

verus! {

broadcast use vstd::utf8::char_is_scalar;

/// The UTF-16 code units of a character, as `char::encode_utf16` writes them:
/// one unit below U+10000, else a high and a low surrogate.
pub open spec fn utf16_units(c: char) -> Seq<u16> {
    let v = c as u32;
    if v < 0x10000 {
        seq![v as u16]
    } else {
        let w = (v - 0x10000) as u32;
        seq![(0xD800 + w / 1024) as u16, (0xDC00 + w % 1024) as u16]
    }
}

/// The UTF-16 code units of a whole string.
pub open spec fn utf16_of(s: Seq<char>) -> Seq<u16>
    decreases s.len(),
{
    if s.len() == 0 {
        Seq::empty()
    } else {
        utf16_of(s.drop_last()) + utf16_units(s.last())
    }
}

pub open spec fn is_high_surrogate(u: u16) -> bool {
    0xD800 <= u && u <= 0xDBFF
}

pub open spec fn is_low_surrogate(u: u16) -> bool {
    0xDC00 <= u && u <= 0xDFFF
}

/// The scalar value of the first character of `String::from_utf16_lossy` of
/// `units`: a unit outside the surrogate range stands for itself, a high
/// surrogate followed by a low one for the pair's character, and any other
/// surrogate for U+FFFD. `None` for no units.
pub open spec fn first_scalar_lossy(units: Seq<u16>) -> Option<u32> {
    if units.len() == 0 {
        None
    } else if !(0xD800 <= units[0] && units[0] <= 0xDFFF) {
        Some(units[0] as u32)
    } else if is_high_surrogate(units[0]) && units.len() >= 2 && is_low_surrogate(units[1]) {
        Some((0x10000 + (units[0] - 0xD800) * 1024 + (units[1] - 0xDC00)) as u32)
    } else {
        Some(0xFFFD)
    }
}

/// The Unicode general category `Cc`, which `char::is_control` tests.
pub open spec fn is_control(c: char) -> bool {
    (c as u32) <= 0x1F || (0x7F <= (c as u32) && (c as u32) <= 0x9F)
}

/// std's `char::from_u32`: `Some` exactly for Unicode scalar values (as
/// vstd's `is_scalar` defines them), holding the character with that value.
#[verifier::external_body]
pub(crate) fn char_from_u32(v: u32) -> (res: Option<char>)
    ensures
        res is Some <==> vstd::utf8::is_scalar(v),
        res matches Some(c) ==> c as u32 == v,
{
    char::from_u32(v)
}

/// Encodes a character in UTF-16.
pub fn encode_utf16(c: char) -> (res: Vec<u16>)
    ensures
        res@ == utf16_units(c),
{
    let v: u32 = c as u32;
    if v < 0x10000 {
        let mut out: Vec<u16> = Vec::new();
        out.push(v as u16);
        out
    } else {
        let w: u32 = v - 0x10000;
        let mut out: Vec<u16> = Vec::new();
        out.push((0xD800 + w / 1024) as u16);
        out.push((0xDC00 + w % 1024) as u16);
        out
    }
}

/// Tests a character for the general category `Cc`.
pub fn is_control_char(c: char) -> (res: bool)
    ensures
        res == is_control(c),
{
    let v: u32 = c as u32;
    v <= 0x1F || (0x7F <= v && v <= 0x9F)
}

/// The first character that `String::from_utf16_lossy(units)` yields.
pub fn first_char_lossy(units: &[u16]) -> (res: Option<char>)
    ensures
        match res {
            Some(c) => first_scalar_lossy(units@) == Some(c as u32),
            None => first_scalar_lossy(units@) is None,
        },
{
    if units.len() == 0 {
        return None;
    }
    let u0: u16 = units[0];
    let v: u32 = if !(0xD800 <= u0 && u0 <= 0xDFFF) {
        u0 as u32
    } else if 0xD800 <= u0 && u0 <= 0xDBFF && units.len() >= 2 && 0xDC00 <= units[1] && units[1]
        <= 0xDFFF {
        0x10000 + (u0 as u32 - 0xD800) * 1024 + (units[1] as u32 - 0xDC00)
    } else {
        0xFFFD
    };
    char_from_u32(v)
}

/// Decoding the UTF-16 units of any character gives that character back.
pub proof fn utf16_round_trip(c: char)
    ensures
        first_scalar_lossy(utf16_units(c)) == Some(c as u32),
{
    let v = c as u32;
    if v >= 0x10000 {
        let w = (v - 0x10000) as u32;
        assert(w / 1024 * 1024 + w % 1024 == w);
    }
}

/// Encodes a string in UTF-16 and ends it with a NUL unit, as wide-string
/// Windows APIs take text.
pub fn to_wide_nul(s: &str) -> (res: Vec<u16>)
    ensures
        res@ == utf16_of(s@).push(0),
{
    let n: usize = s.unicode_len();
    let mut out: Vec<u16> = Vec::new();
    let mut i: usize = 0;
    while i < n
        invariant
            n == s@.len(),
            i <= n,
            out@ == utf16_of(s@.take(i as int)),
        decreases n - i,
    {
        let c = s.get_char(i);
        let units = encode_utf16(c);
        let mut k: usize = 0;
        let ghost before = out@;
        while k < units.len()
            invariant
                k <= units.len(),
                out@ == before + units@.take(k as int),
            decreases units.len() - k,
        {
            out.push(units[k]);
            k = k + 1;
            assert(before + units@.take(k as int) =~= (before + units@.take(k - 1)).push(units[k - 1 as int]));
        }
        assert(units@.take(units.len() as int) =~= units@);
        assert(s@.take(i + 1).drop_last() =~= s@.take(i as int));
        i = i + 1;
    }
    assert(s@.take(n as int) =~= s@);
    out.push(0);
    out
}

} // verus!
