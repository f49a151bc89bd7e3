//! Character-level text handling shared by the probes and the reporter.
//!
//! Every operation here is stated over `Seq<char>` views, mirroring the `str`
//! methods whose behaviour the probes depend on (`trim`, `lines`, `split`,
//! `split_whitespace`, `parse::<u32>`, hex parsing, and integer formatting).

use vstd::prelude::*;

verus! {

// ---------------------------------------------------------------------------------
// Specifications
// ---------------------------------------------------------------------------------

/// Unicode `White_Space`, as tested by `char::is_whitespace`.
pub open spec fn is_ws(c: char) -> bool {
    ||| ('\u{9}' <= c && c <= '\u{d}')
    ||| c == ' '
    ||| c == '\u{85}'
    ||| c == '\u{a0}'
    ||| c == '\u{1680}'
    ||| ('\u{2000}' <= c && c <= '\u{200a}')
    ||| c == '\u{2028}'
    ||| c == '\u{2029}'
    ||| c == '\u{202f}'
    ||| c == '\u{205f}'
    ||| c == '\u{3000}'
}

/// `s` with leading whitespace removed.
pub open spec fn trim_start(s: Seq<char>) -> Seq<char>
    decreases s.len(),
{
    if s.len() > 0 && is_ws(s[0]) {
        trim_start(s.drop_first())
    } else {
        s
    }
}

/// `s` with trailing whitespace removed.
pub open spec fn trim_end(s: Seq<char>) -> Seq<char>
    decreases s.len(),
{
    if s.len() > 0 && is_ws(s.last()) {
        trim_end(s.drop_last())
    } else {
        s
    }
}

/// `str::trim`.
pub open spec fn trim(s: Seq<char>) -> Seq<char> {
    trim_end(trim_start(s))
}

/// `str::split(sep)`: the pieces between occurrences of `sep` (always at least one).
pub open spec fn split_char(s: Seq<char>, sep: char) -> Seq<Seq<char>>
    decreases s.len(),
{
    if s.len() == 0 {
        seq![Seq::<char>::empty()]
    } else {
        let prev = split_char(s.drop_last(), sep);
        if s.last() == sep {
            prev.push(Seq::<char>::empty())
        } else {
            prev.update(prev.len() - 1, prev.last().push(s.last()))
        }
    }
}

/// `str::split_whitespace`: maximal runs of non-whitespace characters.
pub open spec fn words(s: Seq<char>) -> Seq<Seq<char>>
    decreases s.len(),
{
    if s.len() == 0 {
        Seq::<Seq<char>>::empty()
    } else if is_ws(s.last()) {
        words(s.drop_last())
    } else {
        let prev = words(s.drop_last());
        if s.len() >= 2 && !is_ws(s[s.len() - 2]) {
            prev.update(prev.len() - 1, prev.last().push(s.last()))
        } else {
            prev.push(seq![s.last()])
        }
    }
}

/// One line produced by `str::lines` from a piece of `split('\n')`: a piece that was
/// followed by a newline loses one trailing carriage return.
pub open spec fn strip_cr(line: Seq<char>) -> Seq<char> {
    if line.len() > 0 && line.last() == '\r' {
        line.drop_last()
    } else {
        line
    }
}

/// `str::lines`.
pub open spec fn lines(s: Seq<char>) -> Seq<Seq<char>> {
    let parts = split_char(s, '\n');
    let body = parts.drop_last();
    let last = parts.last();
    let stripped = Seq::new(body.len(), |i: int| strip_cr(body[i]));
    if last.len() == 0 {
        stripped
    } else {
        stripped.push(last)
    }
}

/// `str::split("\n\n")`: the pieces between non-overlapping blank-line separators,
/// scanning from the left.
pub open spec fn split_blank(s: Seq<char>) -> Seq<Seq<char>>
    decreases s.len(),
{
    if s.len() < 2 {
        seq![s]
    } else if s[0] == '\n' && s[1] == '\n' {
        seq![Seq::<char>::empty()] + split_blank(s.skip(2))
    } else {
        let r = split_blank(s.skip(1));
        r.update(0, seq![s[0]] + r[0])
    }
}

/// Index of the first occurrence of `c` in `s`, if any.
pub open spec fn find_char(s: Seq<char>, c: char) -> Option<int>
    decreases s.len(),
{
    if s.len() == 0 {
        None
    } else {
        match find_char(s.drop_last(), c) {
            Some(i) => Some(i),
            None => if s.last() == c { Some(s.len() - 1) } else { None },
        }
    }
}

/// `str::split_once(c)`.
pub open spec fn split_once(s: Seq<char>, c: char) -> Option<(Seq<char>, Seq<char>)> {
    match find_char(s, c) {
        Some(i) => Some((s.take(i), s.skip(i + 1))),
        None => None,
    }
}

/// `s` starts with `p`.
pub open spec fn has_prefix(s: Seq<char>, p: Seq<char>) -> bool {
    p.len() <= s.len() && s.take(p.len() as int) == p
}

/// `t` occurs somewhere in `s`.
pub open spec fn occurs_in(t: Seq<char>, s: Seq<char>) -> bool {
    exists|i: int| 0 <= i <= s.len() - t.len() && #[trigger] s.subrange(i, i + t.len()) == t
}

pub open spec fn lower_char(c: char) -> char {
    if 'A' <= c && c <= 'Z' {
        ((c as u32) + 32) as char
    } else {
        c
    }
}

pub open spec fn upper_char(c: char) -> char {
    if 'a' <= c && c <= 'z' {
        ((c as u32) - 32) as char
    } else {
        c
    }
}

/// `str::to_ascii_lowercase`.
pub open spec fn ascii_lower(s: Seq<char>) -> Seq<char> {
    Seq::new(s.len(), |i: int| lower_char(s[i]))
}

/// `str::to_ascii_uppercase`.
pub open spec fn ascii_upper(s: Seq<char>) -> Seq<char> {
    Seq::new(s.len(), |i: int| upper_char(s[i]))
}

pub open spec fn is_dec_digit(c: char) -> bool {
    '0' <= c && c <= '9'
}

pub open spec fn dec_value(c: char) -> nat {
    ((c as u32) - ('0' as u32)) as nat
}

pub open spec fn is_hex_digit(c: char) -> bool {
    is_dec_digit(c) || ('a' <= c && c <= 'f') || ('A' <= c && c <= 'F')
}

pub open spec fn hex_value(c: char) -> nat {
    if is_dec_digit(c) {
        dec_value(c)
    } else if 'a' <= c && c <= 'f' {
        ((c as u32) - ('a' as u32) + 10) as nat
    } else {
        ((c as u32) - ('A' as u32) + 10) as nat
    }
}

/// Value of a run of digits in base `radix`.
pub open spec fn digits_value(s: Seq<char>, radix: nat) -> nat
    decreases s.len(),
{
    if s.len() == 0 {
        0
    } else {
        digits_value(s.drop_last(), radix) * radix + (if radix == 16 {
            hex_value(s.last())
        } else {
            dec_value(s.last())
        })
    }
}

pub open spec fn all_digits(s: Seq<char>, radix: nat) -> bool {
    forall|i: int|
        0 <= i < s.len() ==> (if radix == 16 {
            is_hex_digit(#[trigger] s[i])
        } else {
            is_dec_digit(s[i])
        })
}

/// The digits accepted by `u32::from_str_radix`: an optional leading `+`.
pub open spec fn unsigned_body(s: Seq<char>) -> Seq<char> {
    if s.len() > 1 && s[0] == '+' {
        s.drop_first()
    } else {
        s
    }
}

/// `u32::from_str_radix(s, radix)` for radix 10 or 16.
pub open spec fn parse_u32_radix(s: Seq<char>, radix: nat) -> Option<u32> {
    let b = unsigned_body(s);
    if b.len() > 0 && all_digits(b, radix) && digits_value(b, radix) <= u32::MAX {
        Some(digits_value(b, radix) as u32)
    } else {
        None
    }
}

/// `s.parse::<u32>()`.
pub open spec fn parse_u32(s: Seq<char>) -> Option<u32> {
    parse_u32_radix(s, 10)
}

pub open spec fn digit_char(d: nat) -> char {
    if d < 10 {
        (('0' as u32) + d) as char
    } else {
        (('a' as u32) + d - 10) as char
    }
}

/// Decimal rendering of `n`, as `format!("{}", n)` produces.
pub open spec fn dec(n: nat) -> Seq<char>
    decreases n,
{
    if n < 10 {
        seq![digit_char(n)]
    } else {
        dec(n / 10).push(digit_char(n % 10))
    }
}

/// Lower-case hexadecimal rendering of `n` without prefix, as `format!("{:x}", n)`.
pub open spec fn hex(n: nat) -> Seq<char>
    decreases n,
{
    if n < 16 {
        seq![digit_char(n)]
    } else {
        hex(n / 16).push(digit_char(n % 16))
    }
}

/// `n` spaces.
pub open spec fn spaces(n: nat) -> Seq<char> {
    Seq::new(n, |i: int| ' ')
}

/// `n` zero characters.
pub open spec fn zeros(n: nat) -> Seq<char> {
    Seq::new(n, |i: int| '0')
}

/// `format!("{:<w$}", s)`: left-aligned, padded with spaces to `w` characters.
pub open spec fn pad_right(s: Seq<char>, w: nat) -> Seq<char> {
    if s.len() >= w {
        s
    } else {
        s + spaces((w - s.len()) as nat)
    }
}

/// `format!("{:0w$x}", n)`: lower-case hex, zero-padded on the left to `w` digits.
pub open spec fn hex_zero_padded(n: nat, w: nat) -> Seq<char> {
    let h = hex(n);
    if h.len() >= w {
        h
    } else {
        zeros((w - h.len()) as nat) + h
    }
}

/// `format!("{:#x}", n)`.
pub open spec fn hex_prefixed(n: nat) -> Seq<char> {
    seq!['0', 'x'] + hex(n)
}

/// Concatenation of `parts` with `sep` between consecutive parts (`[..].join(sep)`).
pub open spec fn join(parts: Seq<Seq<char>>, sep: Seq<char>) -> Seq<char>
    decreases parts.len(),
{
    if parts.len() == 0 {
        Seq::<char>::empty()
    } else if parts.len() == 1 {
        parts[0]
    } else {
        join(parts.drop_last(), sep) + sep + parts.last()
    }
}

// ---------------------------------------------------------------------------------
// Lemmas
// ---------------------------------------------------------------------------------

pub proof fn lemma_split_char_nonempty(s: Seq<char>, sep: char)
    ensures
        split_char(s, sep).len() >= 1,
    decreases s.len(),
{
    if s.len() > 0 {
        lemma_split_char_nonempty(s.drop_last(), sep);
    }
}

pub proof fn lemma_dec_nonempty(n: nat)
    ensures
        dec(n).len() >= 1,
    decreases n,
{
    if n >= 10 {
        lemma_dec_nonempty(n / 10);
    }
}

pub proof fn lemma_hex_nonempty(n: nat)
    ensures
        hex(n).len() >= 1,
    decreases n,
{
    if n >= 16 {
        lemma_hex_nonempty(n / 16);
    }
}

proof fn lemma_take_succ(s: Seq<char>, i: int)
    requires
        0 <= i < s.len(),
    ensures
        s.take(i + 1).drop_last() == s.take(i),
        s.take(i + 1).last() == s[i],
        s.take(i + 1).len() == i + 1,
{
    assert(s.take(i + 1).drop_last() =~= s.take(i));
}

// ---------------------------------------------------------------------------------
// Executable operations
// ---------------------------------------------------------------------------------

/// The characters of `s`.
pub fn chars_of(s: &str) -> (r: Vec<char>)
    ensures
        r@ == s@,
{
    let mut v: Vec<char> = Vec::new();
    for c in it: s.chars()
        invariant
            v@ == it.seq().take(it.index() as int),
            it.seq() == s@,
    {
        v.push(c);
    }
    assert(v@ =~= s@);
    v
}

/// Character-wise equality of two character vectors.
pub fn chars_eq(a: &Vec<char>, b: &Vec<char>) -> (r: bool)
    ensures
        r == (a@ == b@),
{
    if a.len() != b.len() {
        return false;
    }
    let mut i: usize = 0;
    while i < a.len()
        invariant
            i <= a.len(),
            a.len() == b.len(),
            forall|j: int| 0 <= j < i ==> a@[j] == b@[j],
        decreases a.len() - i,
    {
        if a[i] != b[i] {
            return false;
        }
        i += 1;
    }
    assert(a@ =~= b@);
    true
}

/// String equality (`a == b` on `str`).
pub fn str_eq(a: &str, b: &str) -> (r: bool)
    ensures
        r == (a@ == b@),
{
    let ac = chars_of(a);
    let bc = chars_of(b);
    chars_eq(&ac, &bc)
}

/// Whether `p` is a prefix of `s` (`str::starts_with`).
pub fn chars_have_prefix(s: &Vec<char>, p: &Vec<char>) -> (r: bool)
    ensures
        r == has_prefix(s@, p@),
{
    if p.len() > s.len() {
        return false;
    }
    let mut i: usize = 0;
    while i < p.len()
        invariant
            i <= p.len() <= s.len(),
            forall|j: int| 0 <= j < i ==> s@[j] == p@[j],
        decreases p.len() - i,
    {
        if s[i] != p[i] {
            assert(s@.take(p.len() as int)[i as int] != p@[i as int]);
            return false;
        }
        i += 1;
    }
    assert(s@.take(p.len() as int) =~= p@);
    true
}

/// `s.starts_with(p)`.
pub fn str_has_prefix(s: &str, p: &str) -> (r: bool)
    ensures
        r == has_prefix(s@, p@),
{
    let sc = chars_of(s);
    let pc = chars_of(p);
    chars_have_prefix(&sc, &pc)
}

/// Whether `t` matches `s` at position `at`.
fn matches_at(s: &Vec<char>, t: &Vec<char>, at: usize) -> (r: bool)
    requires
        at + t.len() <= s.len(),
    ensures
        r == (s@.subrange(at as int, at + t.len()) == t@),
{
    let mut i: usize = 0;
    while i < t.len()
        invariant
            i <= t.len(),
            at + t.len() <= s.len(),
            forall|j: int| 0 <= j < i ==> s@[at + j] == t@[j],
        decreases t.len() - i,
    {
        if s[at + i] != t[i] {
            assert(s@.subrange(at as int, at + t.len())[i as int] != t@[i as int]);
            return false;
        }
        i += 1;
    }
    assert(s@.subrange(at as int, at + t.len()) =~= t@);
    true
}

/// Whether `t` occurs in `s` (`str::contains`).
pub fn chars_contain(s: &Vec<char>, t: &Vec<char>) -> (r: bool)
    ensures
        r == occurs_in(t@, s@),
{
    if t.len() > s.len() {
        return false;
    }
    let last = s.len() - t.len();
    let mut i: usize = 0;
    while i <= last
        invariant
            last == s.len() - t.len(),
            t.len() <= s.len(),
            forall|j: int| 0 <= j < i ==> #[trigger] s@.subrange(j, j + t.len()) != t@,
        decreases last - i,
    {
        if matches_at(s, t, i) {
            return true;
        }
        if i == last {
            return false;
        }
        i += 1;
    }
    false
}

/// `s.contains(t)`.
pub fn str_contains(s: &str, t: &str) -> (r: bool)
    ensures
        r == occurs_in(t@, s@),
{
    let sc = chars_of(s);
    let tc = chars_of(t);
    chars_contain(&sc, &tc)
}

/// Owned copy of the characters `from..to` of `s`.
pub fn owned_range(s: &str, from: usize, to: usize) -> (r: String)
    requires
        from <= to <= s@.len(),
    ensures
        r@ == s@.subrange(from as int, to as int),
{
    String::from_str(s.substring_char(from, to))
}

/// Index bounds of `str::trim` applied to `v`.
pub fn trim_bounds(v: &Vec<char>) -> (r: (usize, usize))
    ensures
        r.0 <= r.1 <= v.len(),
        v@.subrange(r.0 as int, r.1 as int) == trim(v@),
{
    let n = v.len();
    let mut a: usize = 0;
    assert(v@.subrange(0, n as int) =~= v@);
    while a < n && is_ws_exec(v[a])
        invariant
            a <= n == v.len(),
            trim_start(v@) == trim_start(v@.subrange(a as int, n as int)),
        decreases n - a,
    {
        assert(v@.subrange(a as int, n as int).drop_first() =~= v@.subrange(a + 1, n as int));
        a += 1;
    }
    let ghost ts = v@.subrange(a as int, n as int);
    assert(trim_start(ts) == ts);
    let mut b: usize = n;
    while b > a && is_ws_exec(v[b - 1])
        invariant
            a <= b <= n == v.len(),
            ts == v@.subrange(a as int, n as int),
            trim_end(ts) == trim_end(v@.subrange(a as int, b as int)),
        decreases b - a,
    {
        assert(v@.subrange(a as int, b as int).drop_last() =~= v@.subrange(a as int, b - 1));
        b -= 1;
    }
    (a, b)
}

/// `char::is_whitespace`.
pub fn is_ws_exec(c: char) -> (r: bool)
    ensures
        r == is_ws(c),
{
    ('\u{9}' <= c && c <= '\u{d}') || c == ' ' || c == '\u{85}' || c == '\u{a0}' || c
        == '\u{1680}' || ('\u{2000}' <= c && c <= '\u{200a}') || c == '\u{2028}' || c
        == '\u{2029}' || c == '\u{202f}' || c == '\u{205f}' || c == '\u{3000}'
}

/// `s.trim().to_string()`.
pub fn trim_owned(s: &str) -> (r: String)
    ensures
        r@ == trim(s@),
{
    let v = chars_of(s);
    let (a, b) = trim_bounds(&v);
    owned_range(s, a, b)
}

/// ASCII lower-casing of a character vector.
pub fn lower_chars(v: &Vec<char>) -> (r: Vec<char>)
    ensures
        r@ == ascii_lower(v@),
{
    let mut out: Vec<char> = Vec::new();
    let mut i: usize = 0;
    while i < v.len()
        invariant
            i <= v.len(),
            out@.len() == i,
            forall|j: int| 0 <= j < i ==> out@[j] == lower_char(v@[j]),
        decreases v.len() - i,
    {
        let c = v[i];
        let l = if 'A' <= c && c <= 'Z' {
            char_from_code((c as u32) + 32)
        } else {
            c
        };
        out.push(l);
        i += 1;
    }
    assert(out@ =~= ascii_lower(v@));
    out
}

/// ASCII upper-casing of a character vector.
pub fn upper_chars(v: &Vec<char>) -> (r: Vec<char>)
    ensures
        r@ == ascii_upper(v@),
{
    let mut out: Vec<char> = Vec::new();
    let mut i: usize = 0;
    while i < v.len()
        invariant
            i <= v.len(),
            out@.len() == i,
            forall|j: int| 0 <= j < i ==> out@[j] == upper_char(v@[j]),
        decreases v.len() - i,
    {
        let c = v[i];
        let u = if 'a' <= c && c <= 'z' {
            char_from_code((c as u32) - 32)
        } else {
            c
        };
        out.push(u);
        i += 1;
    }
    assert(out@ =~= ascii_upper(v@));
    out
}

/// The ASCII letter with code `code`.
fn char_from_code(code: u32) -> (r: char)
    requires
        ('A' as u32) <= code <= ('Z' as u32) || ('a' as u32) <= code <= ('z' as u32),
    ensures
        r == code as char,
{
    let b: u8 = code as u8;
    b as char
}

/// The digit character for `d` (`0-9a-f`) as a string slice.
pub fn digit_str(d: u64) -> (r: &'static str)
    requires
        d < 16,
    ensures
        r@ == seq![digit_char(d as nat)],
{
    proof {
        reveal_strlit("0");
        reveal_strlit("1");
        reveal_strlit("2");
        reveal_strlit("3");
        reveal_strlit("4");
        reveal_strlit("5");
        reveal_strlit("6");
        reveal_strlit("7");
        reveal_strlit("8");
        reveal_strlit("9");
        reveal_strlit("a");
        reveal_strlit("b");
        reveal_strlit("c");
        reveal_strlit("d");
        reveal_strlit("e");
        reveal_strlit("f");
    }
    let r = match d {
        0 => "0",
        1 => "1",
        2 => "2",
        3 => "3",
        4 => "4",
        5 => "5",
        6 => "6",
        7 => "7",
        8 => "8",
        9 => "9",
        10 => "a",
        11 => "b",
        12 => "c",
        13 => "d",
        14 => "e",
        _ => "f",
    };
    assert(r@ =~= seq![digit_char(d as nat)]);
    r
}

/// Appends the decimal rendering of `n`.
pub fn push_dec(out: &mut String, n: u64)
    ensures
        final(out)@ == old(out)@ + dec(n as nat),
    decreases n,
{
    if n >= 10 {
        push_dec(out, n / 10);
    }
    out.append(digit_str(n % 10));
    proof {
        if n >= 10 {
            assert(old(out)@ + dec((n / 10) as nat) + seq![digit_char((n % 10) as nat)] =~= old(
                out,
            )@ + dec(n as nat));
        } else {
            assert(n % 10 == n);
        }
    }
}

/// Appends the lower-case hex rendering of `n`.
pub fn push_hex(out: &mut String, n: u64)
    ensures
        final(out)@ == old(out)@ + hex(n as nat),
    decreases n,
{
    if n >= 16 {
        push_hex(out, n / 16);
    }
    out.append(digit_str(n % 16));
    proof {
        if n >= 16 {
            assert(old(out)@ + hex((n / 16) as nat) + seq![digit_char((n % 16) as nat)] =~= old(
                out,
            )@ + hex(n as nat));
        } else {
            assert(n % 16 == n);
        }
    }
}

/// Appends `n` spaces.
pub fn push_spaces(out: &mut String, n: usize)
    ensures
        final(out)@ == old(out)@ + spaces(n as nat),
{
    let mut i: usize = 0;
    while i < n
        invariant
            i <= n,
            out@ == old(out)@ + spaces(i as nat),
        decreases n - i,
    {
        proof {
            reveal_strlit(" ");
        }
        out.append(" ");
        i += 1;
        assert(old(out)@ + spaces((i - 1) as nat) + " "@ =~= old(out)@ + spaces(i as nat));
    }
}

/// Appends `s` left-aligned in a field of `w` characters.
pub fn push_padded(out: &mut String, s: &str, w: usize)
    ensures
        final(out)@ == old(out)@ + pad_right(s@, w as nat),
{
    let len = s.unicode_len();
    out.append(s);
    if len < w {
        push_spaces(out, w - len);
        assert(old(out)@ + s@ + spaces((w - len) as nat) =~= old(out)@ + pad_right(s@, w as nat));
    } else {
        assert(old(out)@ + s@ =~= old(out)@ + pad_right(s@, w as nat));
    }
}

/// Appends `n` as lower-case hex zero-padded to `w` digits.
pub fn push_hex_padded(out: &mut String, n: u64, w: usize)
    ensures
        final(out)@ == old(out)@ + hex_zero_padded(n as nat, w as nat),
{
    let mut tmp = String::new();
    push_hex(&mut tmp, n);
    let len = tmp.unicode_len();
    if len < w {
        let mut i: usize = 0;
        let ghost start = out@;
        while i < w - len
            invariant
                i <= w - len,
                out@ == start + zeros(i as nat),
            decreases w - len - i,
        {
            proof {
                reveal_strlit("0");
            }
            out.append("0");
            i += 1;
            assert(start + zeros((i - 1) as nat) + "0"@ =~= start + zeros(i as nat));
        }
    }
    push_hex(out, n);
    proof {
        if len < w {
            assert(old(out)@ + zeros((w - len) as nat) + hex(n as nat) =~= old(out)@
                + hex_zero_padded(n as nat, w as nat));
        } else {
            assert(old(out)@ + hex(n as nat) =~= old(out)@ + hex_zero_padded(n as nat, w as nat));
        }
    }
}

/// Appends `format!("{:#x}", n)`.
pub fn push_hex_prefixed(out: &mut String, n: u64)
    ensures
        final(out)@ == old(out)@ + hex_prefixed(n as nat),
{
    proof {
        reveal_strlit("0x");
    }
    out.append("0x");
    push_hex(out, n);
    assert(old(out)@ + "0x"@ + hex(n as nat) =~= old(out)@ + hex_prefixed(n as nat));
}

/// Parses `s[from..to]` as `u32::from_str_radix(_, radix)`.
pub fn parse_u32_chars(v: &Vec<char>, from: usize, to: usize, radix: u32) -> (r: Option<u32>)
    requires
        from <= to <= v.len(),
        radix == 10 || radix == 16,
    ensures
        r == parse_u32_radix(v@.subrange(from as int, to as int), radix as nat),
{
    let ghost s = v@.subrange(from as int, to as int);
    let mut start = from;
    if to - from > 1 && v[from] == '+' {
        start = from + 1;
        assert(s.drop_first() =~= v@.subrange(start as int, to as int));
    } else {
        assert(s =~= v@.subrange(start as int, to as int));
    }
    let ghost b = v@.subrange(start as int, to as int);
    assert(b == unsigned_body(s));
    if start == to {
        return None;
    }
    let mut acc: u64 = 0;
    let mut i = start;
    while i < to
        invariant
            start <= i <= to <= v.len(),
            radix == 10 || radix == 16,
            b == v@.subrange(start as int, to as int),
            b == unsigned_body(v@.subrange(from as int, to as int)),
            b.len() > 0,
            acc as nat == digits_value(v@.subrange(start as int, i as int), radix as nat),
            acc <= u32::MAX,
            all_digits(v@.subrange(start as int, i as int), radix as nat),
        decreases to - i,
    {
        let c = v[i];
        let ghost pre = v@.subrange(start as int, i as int);
        let ghost post = v@.subrange(start as int, i + 1);
        assert(post.drop_last() =~= pre);
        assert(post.last() == c);
        let d: u64;
        if radix == 16 {
            if '0' <= c && c <= '9' {
                d = (c as u64) - ('0' as u64);
            } else if 'a' <= c && c <= 'f' {
                d = (c as u64) - ('a' as u64) + 10;
            } else if 'A' <= c && c <= 'F' {
                d = (c as u64) - ('A' as u64) + 10;
            } else {
                assert(!all_digits(b, radix as nat)) by {
                    assert(b[i - start] == c);
                }
                return None;
            }
        } else {
            if '0' <= c && c <= '9' {
                d = (c as u64) - ('0' as u64);
            } else {
                assert(!all_digits(b, radix as nat)) by {
                    assert(b[i - start] == c);
                }
                return None;
            }
        }
        assert(acc * (radix as u64) <= 0xffff_ffffu64 * 16) by (nonlinear_arith)
            requires
                acc <= 0xffff_ffffu64,
                radix <= 16,
        ;
        let next = acc * (radix as u64) + d;
        if next > 0xffff_ffff {
            proof {
                if all_digits(b, radix as nat) {
                    lemma_digits_value_monotone(b, (i - start + 1) as int, radix as nat);
                    assert(b.take((i - start + 1) as int) =~= post);
                }
            }
            return None;
        }
        acc = next;
        proof {
            assert forall|j: int| 0 <= j < post.len() implies (if radix == 16 {
                is_hex_digit(#[trigger] post[j])
            } else {
                is_dec_digit(post[j])
            }) by {
                if j < pre.len() {
                    assert(post[j] == pre[j]);
                }
            }
        }
        i += 1;
    }
    Some(acc as u32)
}

/// A prefix of a digit run never has a larger value than the whole run.
proof fn lemma_digits_value_monotone(s: Seq<char>, k: int, radix: nat)
    requires
        0 <= k <= s.len(),
        radix == 10 || radix == 16,
        all_digits(s, radix),
    ensures
        digits_value(s.take(k), radix) <= digits_value(s, radix),
    decreases s.len(),
{
    if k < s.len() {
        let t = s.drop_last();
        assert(t.take(k) =~= s.take(k));
        assert forall|j: int| 0 <= j < t.len() implies (if radix == 16 {
            is_hex_digit(#[trigger] t[j])
        } else {
            is_dec_digit(t[j])
        }) by {
            assert(t[j] == s[j]);
        }
        lemma_digits_value_monotone(t, k, radix);
        assert(digits_value(t, radix) <= digits_value(t, radix) * radix) by (nonlinear_arith)
            requires radix >= 1;
    } else {
        assert(s.take(k) =~= s);
    }
}

// ---------------------------------------------------------------------------------
// Splitting
// ---------------------------------------------------------------------------------

/// The pieces of `v` delimited by `spans`.
pub open spec fn spans_view(v: Seq<char>, spans: Seq<(usize, usize)>) -> Seq<Seq<char>> {
    Seq::new(spans.len(), |k: int| v.subrange(spans[k].0 as int, spans[k].1 as int))
}

pub open spec fn spans_valid(v: Seq<char>, spans: Seq<(usize, usize)>) -> bool {
    forall|k: int| 0 <= k < spans.len() ==> #[trigger] spans[k].0 <= spans[k].1 <= v.len()
}

pub proof fn lemma_spans_push(v: Seq<char>, sp: Seq<(usize, usize)>, p: (usize, usize))
    ensures
        spans_view(v, sp.push(p)) == spans_view(v, sp).push(v.subrange(p.0 as int, p.1 as int)),
{
    assert(spans_view(v, sp.push(p)) =~= spans_view(v, sp).push(v.subrange(p.0 as int, p.1 as int)));
}

/// Spans of `v.split(sep)`.
pub fn split_spans(v: &Vec<char>, sep: char) -> (r: Vec<(usize, usize)>)
    ensures
        spans_valid(v@, r@),
        spans_view(v@, r@) == split_char(v@, sep),
{
    let mut spans: Vec<(usize, usize)> = Vec::new();
    let mut start: usize = 0;
    let mut i: usize = 0;
    assert(v@.take(0) =~= Seq::<char>::empty());
    assert(v@.subrange(0, 0) =~= Seq::<char>::empty());
    assert(spans_view(v@, spans@) + seq![v@.subrange(0, 0)] =~= split_char(v@.take(0), sep));
    while i < v.len()
        invariant
            start <= i <= v.len(),
            spans_valid(v@, spans@),
            forall|k: int| 0 <= k < spans@.len() ==> #[trigger] spans@[k].1 <= start,
            spans_view(v@, spans@) + seq![v@.subrange(start as int, i as int)] == split_char(
                v@.take(i as int),
                sep,
            ),
        decreases v.len() - i,
    {
        let ghost prev = split_char(v@.take(i as int), sep);
        proof {
            lemma_take_succ(v@, i as int);
        }
        if v[i] == sep {
            proof {
                lemma_spans_push(v@, spans@, (start, i));
            }
            spans.push((start, i));
            start = i + 1;
            assert(v@.subrange(start as int, i + 1) =~= Seq::<char>::empty());
            assert(spans_view(v@, spans@) + seq![v@.subrange(start as int, i + 1)] =~= prev.push(
                Seq::<char>::empty(),
            ));
        } else {
            assert(v@.subrange(start as int, i as int).push(v@[i as int]) =~= v@.subrange(
                start as int,
                i + 1,
            ));
            assert(spans_view(v@, spans@) + seq![v@.subrange(start as int, i + 1)] =~= prev.update(
                prev.len() - 1,
                prev.last().push(v@[i as int]),
            ));
        }
        i += 1;
    }
    proof {
        lemma_spans_push(v@, spans@, (start, i));
    }
    spans.push((start, i));
    assert(v@.take(i as int) =~= v@);
    assert(spans_view(v@, spans@) =~= split_char(v@, sep));
    spans
}

/// Spans of `v.split_whitespace()`.
pub fn word_spans(v: &Vec<char>) -> (r: Vec<(usize, usize)>)
    ensures
        spans_valid(v@, r@),
        spans_view(v@, r@) == words(v@),
{
    let mut spans: Vec<(usize, usize)> = Vec::new();
    let mut start: usize = 0;
    let mut i: usize = 0;
    assert(v@.take(0) =~= Seq::<char>::empty());
    while i < v.len()
        invariant
            start <= i <= v.len(),
            spans_valid(v@, spans@),
            (start < i) <==> (i > 0 && !is_ws(v@[i - 1])),
            forall|j: int| start <= j < i ==> !is_ws(#[trigger] v@[j]),
            (if start < i {
                spans_view(v@, spans@).push(v@.subrange(start as int, i as int))
            } else {
                spans_view(v@, spans@)
            }) == words(v@.take(i as int)),
        decreases v.len() - i,
    {
        let ghost prev = words(v@.take(i as int));
        proof {
            lemma_take_succ(v@, i as int);
        }
        if is_ws_exec(v[i]) {
            if start < i {
                proof {
                    lemma_spans_push(v@, spans@, (start, i));
                }
                spans.push((start, i));
                assert(spans_view(v@, spans@) =~= prev);
            }
            start = i + 1;
        } else {
            if start < i {
                assert(v@.take(i + 1)[i - 1] == v@[i - 1]);
                assert(v@.subrange(start as int, i as int).push(v@[i as int]) =~= v@.subrange(
                    start as int,
                    i + 1,
                ));
                assert(spans_view(v@, spans@).push(v@.subrange(start as int, i + 1)) =~= prev.update(
                    prev.len() - 1,
                    prev.last().push(v@[i as int]),
                ));
            } else {
                assert(v@.subrange(start as int, i + 1) =~= seq![v@[i as int]]);
                assert(spans_view(v@, spans@).push(v@.subrange(start as int, i + 1)) =~= prev.push(
                    seq![v@[i as int]],
                ));
            }
        }
        i += 1;
    }
    if start < i {
        proof {
            lemma_spans_push(v@, spans@, (start, i));
        }
        spans.push((start, i));
    }
    assert(v@.take(i as int) =~= v@);
    assert(spans_view(v@, spans@) =~= words(v@));
    spans
}

pub proof fn lemma_split_blank_nonempty(s: Seq<char>)
    ensures
        split_blank(s).len() >= 1,
    decreases s.len(),
{
    if s.len() >= 2 {
        if s[0] == '\n' && s[1] == '\n' {
            lemma_split_blank_nonempty(s.skip(2));
        } else {
            lemma_split_blank_nonempty(s.skip(1));
        }
    }
}

/// `r` with `c` put in front of its first piece.
pub open spec fn glue(c: Seq<char>, r: Seq<Seq<char>>) -> Seq<Seq<char>> {
    r.update(0, c + r[0])
}

/// Spans of `v.split("\n\n")`.
pub fn blank_split_spans(v: &Vec<char>) -> (r: Vec<(usize, usize)>)
    ensures
        spans_valid(v@, r@),
        spans_view(v@, r@) == split_blank(v@),
{
    let n = v.len();
    let mut spans: Vec<(usize, usize)> = Vec::new();
    let mut start: usize = 0;
    let mut i: usize = 0;
    proof {
        lemma_split_blank_nonempty(v@);
        assert(v@.skip(0) =~= v@);
        let r = split_blank(v@);
        assert(v@.subrange(0, 0) + r[0] =~= r[0]);
        assert(glue(v@.subrange(0, 0), r) =~= r);
        assert(spans_view(v@, spans@) + glue(v@.subrange(0, 0), r) =~= r);
    }
    while i < n
        invariant
            start <= i <= n == v.len(),
            spans_valid(v@, spans@),
            split_blank(v@) =~~= spans_view(v@, spans@) + glue(
                v@.subrange(start as int, i as int),
                split_blank(v@.skip(i as int)),
            ),
        decreases n - i,
    {
        let ghost s = v@.skip(i as int);
        let ghost c = v@.subrange(start as int, i as int);
        let ghost before = spans_view(v@, spans@);
        if i + 1 < n && v[i] == '\n' && v[i + 1] == '\n' {
            proof {
                let rr = split_blank(s.skip(2));
                lemma_split_blank_nonempty(s.skip(2));
                assert(s.skip(2) =~= v@.skip(i + 2));
                assert(split_blank(s) == seq![Seq::<char>::empty()] + rr);
                assert(glue(c, split_blank(s)) =~~= seq![c] + rr);
                lemma_spans_push(v@, spans@, (start, i));
                assert(v@.subrange(i + 2, i + 2) + rr[0] =~= rr[0]);
                assert(glue(v@.subrange(i + 2, i + 2), rr) =~~= rr);
                assert(before.push(c) + rr =~~= before + (seq![c] + rr));
            }
            spans.push((start, i));
            i = i + 2;
            start = i;
        } else {
            proof {
                let rr = split_blank(v@.skip(i + 1));
                lemma_split_blank_nonempty(v@.skip(i + 1));
                assert(s.skip(1) =~= v@.skip(i + 1));
                if s.len() < 2 {
                    assert(v@.skip(i + 1) =~= Seq::<char>::empty());
                    assert(rr == seq![Seq::<char>::empty()]);
                    assert(split_blank(s) == seq![s]);
                    assert(s =~= seq![v@[i as int]]);
                } else {
                    assert(split_blank(s) == glue(seq![s[0]], rr));
                }
                assert(split_blank(s) =~~= glue(seq![v@[i as int]], rr));
                assert(c + (seq![v@[i as int]] + rr[0]) =~= v@.subrange(start as int, i + 1)
                    + rr[0]);
                assert(glue(c, glue(seq![v@[i as int]], rr)) =~~= glue(
                    v@.subrange(start as int, i + 1),
                    rr,
                ));
            }
            i = i + 1;
        }
    }
    proof {
        assert(v@.skip(n as int) =~= Seq::<char>::empty());
        let c = v@.subrange(start as int, n as int);
        assert(glue(c, seq![Seq::<char>::empty()]) =~~= seq![c]);
        lemma_spans_push(v@, spans@, (start, n));
    }
    spans.push((start, n));
    spans
}

/// Spans of `v.lines()`.
pub fn line_spans(v: &Vec<char>) -> (r: Vec<(usize, usize)>)
    ensures
        spans_valid(v@, r@),
        spans_view(v@, r@) == lines(v@),
{
    let parts = split_spans(v, '\n');
    proof {
        lemma_split_char_nonempty(v@, '\n');
    }
    let ghost pv = split_char(v@, '\n');
    let mut out: Vec<(usize, usize)> = Vec::new();
    let n = parts.len();
    let mut k: usize = 0;
    while k + 1 < n
        invariant
            n == parts@.len() >= 1,
            k < n,
            spans_valid(v@, parts@),
            spans_view(v@, parts@) == pv,
            spans_valid(v@, out@),
            out@.len() == k,
            forall|j: int|
                0 <= j < k ==> v@.subrange(#[trigger] out@[j].0 as int, out@[j].1 as int)
                    == strip_cr(pv[j]),
        decreases n - k,
    {
        let (a, b) = parts[k];
        assert(pv[k as int] == v@.subrange(a as int, b as int));
        if a < b && v[b - 1] == '\r' {
            out.push((a, b - 1));
            assert(v@.subrange(a as int, b - 1) =~= strip_cr(pv[k as int]));
        } else {
            out.push((a, b));
        }
        k += 1;
    }
    let (a, b) = parts[n - 1];
    assert(pv.last() == v@.subrange(a as int, b as int));
    if a < b {
        out.push((a, b));
    }
    assert(spans_view(v@, out@) =~= lines(v@));
    out
}

/// Index of the first occurrence of `c` in `v[from..to]`, relative to `from`.
pub fn find_char_in(v: &Vec<char>, from: usize, to: usize, c: char) -> (r: Option<usize>)
    requires
        from <= to <= v.len(),
    ensures
        match r {
            Some(i) => find_char(v@.subrange(from as int, to as int), c) == Some(i as int) && i
                < to - from,
            None => find_char(v@.subrange(from as int, to as int), c) is None,
        },
{
    let mut i = from;
    assert(v@.subrange(from as int, from as int) =~= Seq::<char>::empty());
    while i < to
        invariant
            from <= i <= to <= v.len(),
            find_char(v@.subrange(from as int, i as int), c) is None,
        decreases to - i,
    {
        let ghost pre = v@.subrange(from as int, i as int);
        assert(v@.subrange(from as int, i + 1).drop_last() =~= pre);
        if v[i] == c {
            proof {
                lemma_find_char_prefix(v@.subrange(from as int, to as int), (i + 1 - from) as int, c);
                assert(v@.subrange(from as int, to as int).take((i + 1 - from) as int) =~= v@.subrange(
                    from as int,
                    i + 1,
                ));
            }
            return Some(i - from);
        }
        i += 1;
    }
    None
}

/// A first occurrence inside a prefix is the first occurrence of the whole.
pub proof fn lemma_find_char_prefix(s: Seq<char>, n: int, c: char)
    requires
        0 <= n <= s.len(),
        find_char(s.take(n), c) is Some,
    ensures
        find_char(s, c) == find_char(s.take(n), c),
    decreases s.len(),
{
    if n < s.len() {
        assert(s.drop_last().take(n) =~= s.take(n));
        lemma_find_char_prefix(s.drop_last(), n, c);
    } else {
        assert(s.take(n) =~= s);
    }
}

/// `find_char` reports an index holding `c`, with no earlier `c`.
pub proof fn lemma_find_char(s: Seq<char>, c: char)
    ensures
        match find_char(s, c) {
            Some(i) => 0 <= i < s.len() && s[i] == c && forall|j: int| 0 <= j < i ==> s[j] != c,
            None => forall|j: int| 0 <= j < s.len() ==> s[j] != c,
        },
    decreases s.len(),
{
    if s.len() > 0 {
        lemma_find_char(s.drop_last(), c);
        assert forall|j: int| 0 <= j < s.len() - 1 implies s.drop_last()[j] == s[j] by {}
    }
}

// ---------------------------------------------------------------------------------
// Joining and quoting
// ---------------------------------------------------------------------------------

/// The character views of a sequence of strings.
pub open spec fn views(v: Seq<String>) -> Seq<Seq<char>> {
    v.map_values(|s: String| s@)
}

/// `parts` joined with `sep` between consecutive parts.
pub fn join_strings(parts: &Vec<String>, sep: &str) -> (r: String)
    ensures
        r@ == join(views(parts@), sep@),
{
    let mut out = String::new();
    let mut i: usize = 0;
    assert(views(parts@).take(0) =~= Seq::<Seq<char>>::empty());
    while i < parts.len()
        invariant
            i <= parts.len(),
            out@ == join(views(parts@).take(i as int), sep@),
        decreases parts.len() - i,
    {
        let ghost t = views(parts@).take(i + 1);
        assert(t.drop_last() =~= views(parts@).take(i as int));
        if i > 0 {
            out.append(sep);
        } else {
            assert(views(parts@).take(0) =~= Seq::<Seq<char>>::empty());
        }
        out.append(parts[i].as_str());
        i += 1;
    }
    assert(views(parts@).take(i as int) =~= views(parts@));
    out
}

/// The text that `format!("{:?}", s)` produces for a string slice `s`: `s` between double
/// quotes, with the characters that `str::escape_debug` escapes written as escapes.
pub uninterp spec fn debug_str(s: Seq<char>) -> Seq<char>;

/// The `Debug` text of a string slice, `format!("{:?}", s)`. Its contract only names the
/// result (`debug_str`); which characters std escapes, and how, is left unstated.
#[verifier::external_body]
pub fn debug_quoted(s: &str) -> (r: String)
    ensures
        r@ == debug_str(s@),
{
    format!("{:?}", s)
}

/// `s.parse::<u32>()`.
pub fn parse_u32_str(s: &str) -> (r: Option<u32>)
    ensures
        r == parse_u32(s@),
{
    let c = chars_of(s);
    assert(c@.subrange(0, c@.len() as int) =~= c@);
    parse_u32_chars(&c, 0, c.len(), 10)
}

/// `std::str::from_utf8(bytes)`, as an owned string: `Some` exactly when `bytes` is
/// valid UTF-8, and then the characters it encodes.
#[verifier::external_body]
pub fn utf8_string(bytes: &Vec<u8>) -> (r: Option<String>)
    ensures
        r is Some <==> vstd::utf8::valid_utf8(bytes@),
        r matches Some(s) ==> s@ == vstd::utf8::decode_utf8(bytes@),
{
    match std::str::from_utf8(bytes.as_slice()) {
        Ok(s) => Some(s.to_string()),
        Err(_) => None,
    }
}

/// `s.split_once(c)`, as owned strings.
pub fn split_once_owned(s: &str, c: char) -> (r: Option<(String, String)>)
    ensures
        match r {
            Some((a, b)) => split_once(s@, c) == Some((a@, b@)),
            None => split_once(s@, c) is None,
        },
{
    let sc = chars_of(s);
    match find_char_in(&sc, 0, sc.len(), c) {
        Some(i) => {
            assert(sc@.subrange(0, sc.len() as int) =~= sc@);
            let a = owned_range(s, 0, i);
            let b = owned_range(s, i + 1, sc.len());
            assert(a@ =~= s@.take(i as int));
            assert(b@ =~= s@.skip(i + 1));
            Some((a, b))
        },
        None => {
            assert(sc@.subrange(0, sc.len() as int) =~= sc@);
            None
        },
    }
}

} // verus!
