//! Character-level text helpers: Unicode white space, trimming, splitting,
//! comparison and decimal rendering.

use vstd::prelude::*;

verus! {

/// The Unicode `White_Space` property, which `char::is_whitespace` tests.
pub open spec fn is_white_space(c: char) -> bool {
    ||| ('\u{9}' <= c && c <= '\u{d}')
    ||| c == ' '
    ||| c == '\u{85}'
    ||| c == '\u{a0}'
    ||| c == '\u{1680}'
    ||| ('\u{2000}' <= c && c <= '\u{200a}')
    ||| c == '\u{2028}'
    ||| c == '\u{2029}'
    ||| c == '\u{202f}'
    ||| c == '\u{205f}'
    ||| c == '\u{3000}'
}

/// `s` without its leading white space.
pub open spec fn trim_start(s: Seq<char>) -> Seq<char>
    decreases s.len(),
{
    if s.len() > 0 && is_white_space(s[0]) {
        trim_start(s.drop_first())
    } else {
        s
    }
}

/// `s` without its trailing white space.
pub open spec fn trim_end(s: Seq<char>) -> Seq<char>
    decreases s.len(),
{
    if s.len() > 0 && is_white_space(s.last()) {
        trim_end(s.drop_last())
    } else {
        s
    }
}

/// `s` without leading and trailing white space, as `str::trim` gives it.
pub open spec fn trim(s: Seq<char>) -> Seq<char> {
    trim_end(trim_start(s))
}

/// Tests a character for the Unicode `White_Space` property.
pub fn is_whitespace_char(c: char) -> (res: bool)
    ensures
        res == is_white_space(c),
{
    ('\u{9}' <= c && c <= '\u{d}') || c == ' ' || c == '\u{85}' || c == '\u{a0}' || c
        == '\u{1680}' || ('\u{2000}' <= c && c <= '\u{200a}') || c == '\u{2028}' || c == '\u{2029}'
        || c == '\u{202f}' || c == '\u{205f}' || c == '\u{3000}'
}

/// Removes leading and trailing white space.
pub fn trim_str(s: &str) -> (res: &str)
    ensures
        res@ == trim(s@),
{
    let n: usize = s.unicode_len();
    let mut i: usize = 0;
    assert(s@.subrange(0, n as int) =~= s@);
    while i < n && is_whitespace_char(s.get_char(i))
        invariant
            n == s@.len(),
            i <= n,
            trim_start(s@) == trim_start(s@.subrange(i as int, n as int)),
        decreases n - i,
    {
        assert(s@.subrange(i as int, n as int).drop_first() =~= s@.subrange(i + 1, n as int));
        i = i + 1;
    }
    let mut j: usize = n;
    assert(s@.subrange(i as int, n as int) =~= trim_start(s@));
    while j > i && is_whitespace_char(s.get_char(j - 1))
        invariant
            n == s@.len(),
            i <= j <= n,
            trim(s@) == trim_end(s@.subrange(i as int, j as int)),
        decreases j,
    {
        assert(s@.subrange(i as int, j as int).drop_last() =~= s@.subrange(i as int, j - 1));
        j = j - 1;
    }
    s.substring_char(i, j)
}

} // verus!

verus! {

/// Compares two strings character by character.
pub fn str_eq(a: &str, b: &str) -> (res: bool)
    ensures
        res == (a@ == b@),
{
    let n: usize = a.unicode_len();
    let m: usize = b.unicode_len();
    if n != m {
        return false;
    }
    let mut i: usize = 0;
    while i < n
        invariant
            n == a@.len(),
            n == b@.len(),
            i <= n,
            forall|k: int| 0 <= k < i ==> a@[k] == b@[k],
        decreases n - i,
    {
        if a.get_char(i) != b.get_char(i) {
            return false;
        }
        i = i + 1;
    }
    assert(a@ =~= b@);
    true
}

/// The pieces of `s` between the occurrences of `sep`, as `str::split` with a
/// `char` pattern yields them: there is always one piece more than there are
/// separators, and an empty string gives one empty piece.
pub open spec fn split_on(s: Seq<char>, sep: char) -> Seq<Seq<char>>
    decreases s.len(),
{
    if s.len() == 0 {
        seq![Seq::<char>::empty()]
    } else {
        let front = split_on(s.drop_last(), sep);
        if s.last() == sep {
            front.push(Seq::<char>::empty())
        } else {
            front.update(front.len() - 1, front.last().push(s.last()))
        }
    }
}

/// The views of a list of string slices.
pub open spec fn views_of(v: Seq<&str>) -> Seq<Seq<char>> {
    v.map_values(|p: &str| p@)
}

/// Splits `s` at every occurrence of `sep`.
pub fn split_str(s: &str, sep: char) -> (res: Vec<&str>)
    ensures
        views_of(res@) == split_on(s@, sep),
{
    let n: usize = s.unicode_len();
    let mut pieces: Vec<&str> = Vec::new();
    let mut start: usize = 0;
    let mut i: usize = 0;
    assert(s@.subrange(0, 0) =~= Seq::<char>::empty());
    while i < n
        invariant
            n == s@.len(),
            start <= i <= n,
            split_on(s@.subrange(0, i as int), sep) == views_of(pieces@).push(
                s@.subrange(start as int, i as int),
            ),
        decreases n - i,
    {
        let c = s.get_char(i);
        let ghost prefix = s@.subrange(0, i + 1);
        assert(prefix.drop_last() =~= s@.subrange(0, i as int));
        assert(prefix.last() == c);
        if c == sep {
            let piece = s.substring_char(start, i);
            let ghost before = pieces@;
            pieces.push(piece);
            assert(views_of(pieces@) =~= views_of(before).push(piece@));
            i = i + 1;
            start = i;
            assert(s@.subrange(start as int, i as int) =~= Seq::<char>::empty());
        } else {
            i = i + 1;
            assert(s@.subrange(start as int, i as int) =~= s@.subrange(start as int, i - 1).push(c));
        }
    }
    let last = s.substring_char(start, n);
    let ghost before = pieces@;
    pieces.push(last);
    assert(views_of(pieces@) =~= views_of(before).push(last@));
    assert(s@.subrange(0, n as int) =~= s@);
    pieces
}

} // verus!

verus! {

/// std's `String::push`: afterwards the string is what it was, followed by
/// `c`.
#[verifier::external_body]
pub(crate) fn push_char(s: &mut String, c: char)
    ensures
        final(s)@ == old(s)@.push(c),
{
    s.push(c)
}

/// The ASCII digit for `d < 10`.
pub open spec fn digit_char(d: nat) -> char {
    (48 + d) as char
}

/// The decimal representation of `n`, without sign or leading zeros, as
/// `u64`'s `Display` writes it.
pub open spec fn decimal(n: nat) -> Seq<char>
    decreases n,
{
    if n < 10 {
        seq![digit_char(n)]
    } else {
        decimal(n / 10).push(digit_char(n % 10))
    }
}

/// Appends the decimal representation of `n`.
pub fn push_decimal(s: &mut String, n: u64)
    ensures
        final(s)@ == old(s)@ + decimal(n as nat),
    decreases n,
{
    if n >= 10 {
        push_decimal(s, n / 10);
    }
    let d: u8 = (n % 10) as u8;
    let c: char = (48u8 + d) as char;
    assert(c == digit_char((n % 10) as nat));
    push_char(s, c);
}

/// A new string holding `a` followed by `b`.
pub fn concat_str(a: &str, b: &str) -> (res: String)
    ensures
        res@ == a@ + b@,
{
    let mut s = String::from_str(a);
    s.append(b);
    s
}

} // verus!

verus! {

/// `base` extended by the relative path `comp`, as `Path::join` does it: a
/// `/` goes between them unless `base` is empty or already ends in one.
pub open spec fn path_join(base: Seq<char>, comp: Seq<char>) -> Seq<char> {
    if base.len() == 0 {
        comp
    } else if base.last() == '/' {
        base + comp
    } else {
        base.push('/') + comp
    }
}

/// Extends the path `base` by the relative path `comp`.
pub fn join_path(base: &str, comp: &str) -> (res: String)
    ensures
        res@ == path_join(base@, comp@),
{
    let n: usize = base.unicode_len();
    if n == 0 {
        String::from_str(comp)
    } else if base.get_char(n - 1) == '/' {
        concat_str(base, comp)
    } else {
        let mut s = String::from_str(base);
        push_char(&mut s, '/');
        s.append(comp);
        s
    }
}

} // verus!

verus! {

/// A path extended by a non-empty component ends with that component's last
/// character.
pub proof fn path_join_ends_with_component(base: Seq<char>, comp: Seq<char>)
    requires
        comp.len() > 0,
    ensures
        path_join(base, comp).len() > 0,
        path_join(base, comp).last() == comp.last(),
{
}

} // verus!

verus! {

/// `parts` joined into one text, with `sep` between each two.
pub open spec fn join_with(parts: Seq<Seq<char>>, sep: char) -> Seq<char>
    decreases parts.len(),
{
    if parts.len() == 0 {
        Seq::empty()
    } else if parts.len() == 1 {
        parts[0]
    } else {
        join_with(parts.drop_last(), sep).push(sep) + parts.last()
    }
}

/// Splitting always gives at least one piece.
pub proof fn split_on_nonempty(s: Seq<char>, sep: char)
    ensures
        split_on(s, sep).len() >= 1,
    decreases s.len(),
{
    if s.len() > 0 {
        split_on_nonempty(s.drop_last(), sep);
    }
}

/// Text without the separator, appended to `s`, extends the last piece.
pub proof fn split_on_extend_last(s: Seq<char>, t: Seq<char>, sep: char)
    requires
        !t.contains(sep),
    ensures
        split_on(s, sep).len() >= 1,
        split_on(s + t, sep) == split_on(s, sep).update(
            split_on(s, sep).len() - 1,
            split_on(s, sep).last() + t,
        ),
    decreases t.len(),
{
    split_on_nonempty(s, sep);
    let f = split_on(s, sep);
    if t.len() == 0 {
        assert(s + t =~= s);
        assert(f.last() + t =~= f.last());
        assert(f.update(f.len() - 1, f.last() + t) =~= f);
    } else {
        let t0 = t.drop_last();
        assert(!t0.contains(sep)) by {
            if t0.contains(sep) {
                let k = choose|k: int| 0 <= k < t0.len() && t0[k] == sep;
                assert(t[k] == sep);
            }
        }
        split_on_extend_last(s, t0, sep);
        assert((s + t).drop_last() =~= s + t0);
        assert((s + t).last() == t.last());
        assert(t[t.len() - 1] != sep);
        let g = split_on(s + t0, sep);
        assert(g.last() == f.last() + t0);
        assert(g.last().push(t.last()) =~= f.last() + t);
        assert(g.update(g.len() - 1, g.last().push(t.last())) =~= f.update(
            f.len() - 1,
            f.last() + t,
        ));
    }
}

/// Splitting parts joined with a separator they do not contain gives the
/// parts back.
pub proof fn split_join(parts: Seq<Seq<char>>, sep: char)
    requires
        parts.len() >= 1,
        forall|i: int| 0 <= i < parts.len() ==> !(#[trigger] parts[i]).contains(sep),
    ensures
        split_on(join_with(parts, sep), sep) == parts,
    decreases parts.len(),
{
    let e = Seq::<char>::empty();
    if parts.len() == 1 {
        split_on_extend_last(e, parts[0], sep);
        assert(e + parts[0] =~= parts[0]);
        assert(split_on(e, sep).update(0, e + parts[0]) =~= parts);
    } else {
        let front = parts.drop_last();
        assert forall|i: int| 0 <= i < front.len() implies !(#[trigger] front[i]).contains(sep) by {
            assert(front[i] == parts[i]);
        }
        split_join(front, sep);
        let j = join_with(front, sep).push(sep);
        assert(j.drop_last() =~= join_with(front, sep));
        assert(split_on(j, sep) == front.push(e));
        assert(parts[parts.len() - 1] == parts.last());
        split_on_extend_last(j, parts.last(), sep);
        assert(e + parts.last() =~= parts.last());
        assert(front.push(e).update(front.len() as int, e + parts.last()) =~= parts);
    }
}

/// Whether every character of `s` is white space.
pub open spec fn all_white_space(s: Seq<char>) -> bool {
    forall|i: int| 0 <= i < s.len() ==> is_white_space(#[trigger] s[i])
}

/// Leading white space is trimmed away.
pub proof fn trim_start_skips_white_space(l: Seq<char>, x: Seq<char>)
    requires
        all_white_space(l),
    ensures
        trim_start(l + x) == trim_start(x),
    decreases l.len(),
{
    if l.len() > 0 {
        assert((l + x)[0] == l[0]);
        assert((l + x).drop_first() =~= l.drop_first() + x);
        assert forall|i: int| 0 <= i < l.drop_first().len() implies is_white_space(
            #[trigger] l.drop_first()[i],
        ) by {
            assert(l.drop_first()[i] == l[i + 1]);
        }
        trim_start_skips_white_space(l.drop_first(), x);
    } else {
        assert(l + x =~= x);
    }
}

/// Trailing white space is trimmed away.
pub proof fn trim_end_skips_white_space(x: Seq<char>, r: Seq<char>)
    requires
        all_white_space(r),
    ensures
        trim_end(x + r) == trim_end(x),
    decreases r.len(),
{
    if r.len() > 0 {
        assert((x + r).last() == r.last());
        assert(is_white_space(r[r.len() - 1]));
        assert((x + r).drop_last() =~= x + r.drop_last());
        assert forall|i: int| 0 <= i < r.drop_last().len() implies is_white_space(
            #[trigger] r.drop_last()[i],
        ) by {
            assert(r.drop_last()[i] == r[i]);
        }
        trim_end_skips_white_space(x, r.drop_last());
    } else {
        assert(x + r =~= x);
    }
}

/// Trimming the front of `p + r` trims the front of `p`, and goes on into `r`
/// only when `p` is all white space.
pub proof fn trim_start_concat(p: Seq<char>, r: Seq<char>)
    ensures
        trim_start(p).len() > 0 ==> trim_start(p + r) == trim_start(p) + r,
        trim_start(p).len() == 0 ==> trim_start(p + r) == trim_start(r),
    decreases p.len(),
{
    if p.len() == 0 {
        assert(p + r =~= r);
    } else if is_white_space(p[0]) {
        assert((p + r)[0] == p[0]);
        assert((p + r).drop_first() =~= p.drop_first() + r);
        trim_start_concat(p.drop_first(), r);
    } else {
        assert((p + r)[0] == p[0]);
    }
}

/// White space around a text does not change its trimmed form.
pub proof fn trim_ignores_padding(l: Seq<char>, p: Seq<char>, r: Seq<char>)
    requires
        all_white_space(l),
        all_white_space(r),
    ensures
        trim(l + p + r) == trim(p),
{
    assert(l + p + r =~= l + (p + r));
    trim_start_skips_white_space(l, p + r);
    trim_start_concat(p, r);
    if trim_start(p).len() > 0 {
        trim_end_skips_white_space(trim_start(p), r);
    } else {
        let e = Seq::<char>::empty();
        assert(r =~= r + e);
        trim_start_skips_white_space(r, e);
        assert(trim_start(p) =~= e);
    }
}

} // verus!

verus! {

/// Whether every character of `s` is ASCII.
pub open spec fn is_ascii_text(s: Seq<char>) -> bool {
    forall|i: int| 0 <= i < s.len() ==> (#[trigger] s[i]) <= '\u{7f}'
}

/// The ASCII upper-case form of a character: `a`–`z` become `A`–`Z`, every
/// other character stays as it is.
pub open spec fn ascii_upper_char(c: char) -> char {
    if 'a' <= c && c <= 'z' {
        ((c as u32) - 32) as char
    } else {
        c
    }
}

/// `s` with `a`–`z` replaced by `A`–`Z`.
pub open spec fn ascii_upper(s: Seq<char>) -> Seq<char> {
    s.map_values(|c: char| ascii_upper_char(c))
}

/// Upper-casing ASCII text gives ASCII text, and doing it twice is doing it
/// once.
pub proof fn ascii_upper_stays_ascii(s: Seq<char>)
    requires
        is_ascii_text(s),
    ensures
        is_ascii_text(ascii_upper(s)),
        ascii_upper(ascii_upper(s)) == ascii_upper(s),
{
    assert(ascii_upper(ascii_upper(s)) =~= ascii_upper(s));
}

/// The pieces of ASCII text split at a separator are ASCII.
pub proof fn split_on_ascii(s: Seq<char>, sep: char)
    requires
        is_ascii_text(s),
    ensures
        forall|i: int| 0 <= i < split_on(s, sep).len() ==> is_ascii_text(#[trigger] split_on(s, sep)[i]),
    decreases s.len(),
{
    if s.len() > 0 {
        let f = s.drop_last();
        assert(is_ascii_text(f)) by {
            assert forall|i: int| 0 <= i < f.len() implies (#[trigger] f[i]) <= '\u{7f}' by {
                assert(f[i] == s[i]);
            }
        }
        split_on_ascii(f, sep);
        split_on_nonempty(f, sep);
        let pieces = split_on(f, sep);
        let c = s[s.len() - 1];
        assert(c <= '\u{7f}');
        assert(is_ascii_text(pieces.last().push(c))) by {
            assert(is_ascii_text(pieces[pieces.len() - 1]));
        }
    }
}

/// A text without its first character, or without its last, is ASCII when
/// the text is.
proof fn ascii_shorter(s: Seq<char>)
    requires
        is_ascii_text(s),
        s.len() > 0,
    ensures
        is_ascii_text(s.drop_first()),
        is_ascii_text(s.drop_last()),
{
    let (f, l) = (s.drop_first(), s.drop_last());
    assert forall|i: int| 0 <= i < f.len() implies (#[trigger] f[i]) <= '\u{7f}' by {
        assert(f[i] == s[i + 1]);
    }
    assert forall|i: int| 0 <= i < l.len() implies (#[trigger] l[i]) <= '\u{7f}' by {
        assert(l[i] == s[i]);
    }
}

/// Trimming the front of ASCII text gives ASCII text.
proof fn trim_start_ascii(s: Seq<char>)
    requires
        is_ascii_text(s),
    ensures
        is_ascii_text(trim_start(s)),
    decreases s.len(),
{
    if s.len() > 0 {
        ascii_shorter(s);
        trim_start_ascii(s.drop_first());
    }
}

/// Trimming the end of ASCII text gives ASCII text.
proof fn trim_end_ascii(s: Seq<char>)
    requires
        is_ascii_text(s),
    ensures
        is_ascii_text(trim_end(s)),
    decreases s.len(),
{
    if s.len() > 0 {
        ascii_shorter(s);
        trim_end_ascii(s.drop_last());
    }
}

/// Trimming ASCII text gives ASCII text.
pub proof fn trim_ascii(s: Seq<char>)
    requires
        is_ascii_text(s),
    ensures
        is_ascii_text(trim(s)),
{
    trim_start_ascii(s);
    trim_end_ascii(trim_start(s));
}

/// Characters with the same ASCII upper-case form are both white space or
/// both not, and both `+` or both not.
proof fn white_space_same_upper(a: char, b: char)
    requires
        ascii_upper_char(a) == ascii_upper_char(b),
    ensures
        is_white_space(a) == is_white_space(b),
        (a == '+') == (b == '+'),
{
}

/// Texts with the same ASCII upper-case form agree, character by character,
/// in upper case; so do their ends.
proof fn same_upper_ends(x: Seq<char>, y: Seq<char>)
    requires
        ascii_upper(x) == ascii_upper(y),
    ensures
        x.len() == y.len(),
        forall|i: int| 0 <= i < x.len() ==> ascii_upper_char(#[trigger] x[i]) == ascii_upper_char(y[i]),
        x.len() > 0 ==> ascii_upper(x.drop_first()) == ascii_upper(y.drop_first()),
        x.len() > 0 ==> ascii_upper(x.drop_last()) == ascii_upper(y.drop_last()),
{
    assert(x.len() == ascii_upper(x).len());
    assert(y.len() == ascii_upper(y).len());
    assert forall|i: int| 0 <= i < x.len() implies ascii_upper_char(#[trigger] x[i]) == ascii_upper_char(
        y[i],
    ) by {
        assert(ascii_upper(x)[i] == ascii_upper_char(x[i]));
        assert(ascii_upper(y)[i] == ascii_upper_char(y[i]));
    }
    if x.len() > 0 {
        assert(ascii_upper(x.drop_first()) =~= ascii_upper(y.drop_first())) by {
            assert forall|i: int| 0 <= i < x.len() - 1 implies ascii_upper(x.drop_first())[i]
                == ascii_upper(y.drop_first())[i] by {
                assert(x.drop_first()[i] == x[i + 1]);
                assert(y.drop_first()[i] == y[i + 1]);
            }
        }
        assert(ascii_upper(x.drop_last()) =~= ascii_upper(y.drop_last())) by {
            assert forall|i: int| 0 <= i < x.len() - 1 implies ascii_upper(x.drop_last())[i]
                == ascii_upper(y.drop_last())[i] by {
                assert(x.drop_last()[i] == x[i]);
                assert(y.drop_last()[i] == y[i]);
            }
        }
    }
}

/// Texts with the same ASCII upper-case form trim alike at the front.
proof fn trim_start_same_upper(x: Seq<char>, y: Seq<char>)
    requires
        ascii_upper(x) == ascii_upper(y),
    ensures
        ascii_upper(trim_start(x)) == ascii_upper(trim_start(y)),
    decreases x.len(),
{
    same_upper_ends(x, y);
    if x.len() > 0 {
        white_space_same_upper(x[0], y[0]);
        trim_start_same_upper(x.drop_first(), y.drop_first());
    }
}

/// Texts with the same ASCII upper-case form trim alike at the end.
proof fn trim_end_same_upper(x: Seq<char>, y: Seq<char>)
    requires
        ascii_upper(x) == ascii_upper(y),
    ensures
        ascii_upper(trim_end(x)) == ascii_upper(trim_end(y)),
    decreases x.len(),
{
    same_upper_ends(x, y);
    if x.len() > 0 {
        white_space_same_upper(x[x.len() - 1], y[y.len() - 1]);
        trim_end_same_upper(x.drop_last(), y.drop_last());
    }
}

/// Texts with the same ASCII upper-case form trim alike.
pub proof fn trim_same_upper(x: Seq<char>, y: Seq<char>)
    requires
        ascii_upper(x) == ascii_upper(y),
    ensures
        ascii_upper(trim(x)) == ascii_upper(trim(y)),
{
    trim_start_same_upper(x, y);
    trim_end_same_upper(trim_start(x), trim_start(y));
}

/// Texts with the same ASCII upper-case form split into pieces with the same
/// ASCII upper-case forms, at a separator outside `a`–`z`.
pub proof fn split_same_upper(s: Seq<char>, t: Seq<char>)
    requires
        ascii_upper(s) == ascii_upper(t),
    ensures
        split_on(s, '+').len() == split_on(t, '+').len(),
        forall|i: int|
            0 <= i < split_on(s, '+').len() ==> ascii_upper(#[trigger] split_on(s, '+')[i])
                == ascii_upper(split_on(t, '+')[i]),
    decreases s.len(),
{
    same_upper_ends(s, t);
    if s.len() > 0 {
        let n = s.len() - 1;
        white_space_same_upper(s[n], t[n]);
        split_same_upper(s.drop_last(), t.drop_last());
        split_on_nonempty(s.drop_last(), '+');
        let (fs, ft) = (split_on(s.drop_last(), '+'), split_on(t.drop_last(), '+'));
        let m = fs.len() - 1;
        assert(ascii_upper(fs[m]) == ascii_upper(ft[m]));
        assert(ascii_upper(fs.last().push(s.last())) =~= ascii_upper(fs.last()).push(
            ascii_upper_char(s.last()),
        ));
        assert(ascii_upper(ft.last().push(t.last())) =~= ascii_upper(ft.last()).push(
            ascii_upper_char(t.last()),
        ));
    }
}

} // verus!
