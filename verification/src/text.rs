//! Character-level string helpers.

use vstd::prelude::*;

verus! {

/// `s.push(c)`.
#[verifier::external_body]
pub(crate) fn push_char(s: &mut String, c: char)
    ensures
        final(s)@ == old(s)@.push(c),
{
    s.push(c);
}

/// What `str::escape_debug` makes of a string.
pub uninterp spec fn spec_escape_debug(s: Seq<char>) -> Seq<char>;

/// `s.escape_debug().to_string()`: the string with quotes, backslashes and
/// non-printable characters escaped as Rust's `Debug` does. The contract names
/// the result; which characters are escaped, and how, is left unsaid.
#[verifier::external_body]
pub(crate) fn escape_debug(s: &str) -> (r: String)
    ensures
        r@ == spec_escape_debug(s@),
{
    s.escape_debug().to_string()
}

/// `s` with every `from` replaced by `to`.
pub open spec fn spec_replace_char(s: Seq<char>, from: char, to: char) -> Seq<char> {
    s.map_values(|c: char| if c == from { to } else { c })
}

/// `s.replace(from, to)` for single characters.
pub fn replace_char(s: &str, from: char, to: char) -> (r: String)
    ensures
        r@ == spec_replace_char(s@, from, to),
{
    let n = s.unicode_len();
    let mut out = String::new();
    let mut i: usize = 0;
    while i < n
        invariant
            i <= n,
            n == s@.len(),
            out@ == spec_replace_char(s@.subrange(0, i as int), from, to),
        decreases n - i,
    {
        let c = s.get_char(i);
        push_char(&mut out, if c == from { to } else { c });
        i = i + 1;
        assert(out@ =~= spec_replace_char(s@.subrange(0, i as int), from, to));
    }
    assert(s@.subrange(0, n as int) =~= s@);
    out
}

/// `s` with `c` around it.
pub open spec fn spec_quoted(s: Seq<char>) -> Seq<char> {
    seq!['"'] + s + seq!['"']
}

/// `format!("\"{s}\"")`.
pub fn quoted(s: &str) -> (r: String)
    ensures
        r@ == spec_quoted(s@),
{
    let mut out = String::new();
    push_char(&mut out, '"');
    out.append(s);
    push_char(&mut out, '"');
    assert(out@ =~= spec_quoted(s@));
    out
}

/// Number of leading `c` in `s`.
pub open spec fn spec_lead_count(s: Seq<char>, c: char) -> nat
    decreases s.len(),
{
    if s.len() > 0 && s[0] == c {
        1 + spec_lead_count(s.drop_first(), c)
    } else {
        0
    }
}

/// Number of trailing `c` in `s`.
pub open spec fn spec_trail_count(s: Seq<char>, c: char) -> nat
    decreases s.len(),
{
    if s.len() > 0 && s.last() == c {
        1 + spec_trail_count(s.drop_last(), c)
    } else {
        0
    }
}

/// `s.trim_start_matches(c)`: `s` without all of its leading `c`.
pub open spec fn spec_trim_start(s: Seq<char>, c: char) -> Seq<char> {
    s.subrange(spec_lead_count(s, c) as int, s.len() as int)
}

/// `s.trim_end_matches(c)`: `s` without all of its trailing `c`.
pub open spec fn spec_trim_end(s: Seq<char>, c: char) -> Seq<char> {
    s.subrange(0, s.len() - spec_trail_count(s, c))
}

proof fn lemma_lead_count(s: Seq<char>, c: char, i: int)
    requires
        0 <= i <= s.len(),
        forall|j: int| 0 <= j < i ==> s[j] == c,
    ensures
        spec_lead_count(s, c) >= i,
        spec_lead_count(s, c) <= s.len(),
        i < s.len() && s[i] != c ==> spec_lead_count(s, c) == i,
    decreases i,
{
    reveal_with_fuel(spec_lead_count, 2);
    if i > 0 {
        lemma_lead_count(s.drop_first(), c, i - 1);
    } else {
        lemma_lead_count_bound(s, c);
    }
}

proof fn lemma_lead_count_bound(s: Seq<char>, c: char)
    ensures
        spec_lead_count(s, c) <= s.len(),
    decreases s.len(),
{
    if s.len() > 0 && s[0] == c {
        lemma_lead_count_bound(s.drop_first(), c);
    }
}

proof fn lemma_trail_count(s: Seq<char>, c: char, i: int)
    requires
        0 <= i <= s.len(),
        forall|j: int| s.len() - i <= j < s.len() ==> s[j] == c,
    ensures
        spec_trail_count(s, c) >= i,
        spec_trail_count(s, c) <= s.len(),
        i < s.len() && s[s.len() - 1 - i] != c ==> spec_trail_count(s, c) == i,
    decreases i,
{
    if i > 0 {
        let t = s.drop_last();
        assert forall|j: int| t.len() - (i - 1) <= j < t.len() implies t[j] == c by {
            assert(t[j] == s[j]);
        }
        lemma_trail_count(t, c, i - 1);
    } else {
        lemma_trail_count_bound(s, c);
    }
}

proof fn lemma_trail_count_bound(s: Seq<char>, c: char)
    ensures
        spec_trail_count(s, c) <= s.len(),
    decreases s.len(),
{
    if s.len() > 0 && s.last() == c {
        lemma_trail_count_bound(s.drop_last(), c);
    }
}

/// Characters `lo..hi` of `s` as a new string.
fn substring(s: &str, lo: usize, hi: usize) -> (r: String)
    requires
        lo <= hi <= s@.len(),
    ensures
        r@ == s@.subrange(lo as int, hi as int),
{
    let mut out = String::new();
    let mut i = lo;
    while i < hi
        invariant
            lo <= i <= hi,
            hi <= s@.len(),
            out@ == s@.subrange(lo as int, i as int),
        decreases hi - i,
    {
        push_char(&mut out, s.get_char(i));
        i = i + 1;
        assert(out@ =~= s@.subrange(lo as int, i as int));
    }
    out
}

/// `s.trim_start_matches(c).trim_end_matches(d)` as a new string.
pub fn trim_both(s: &str, c: char, d: char) -> (r: String)
    ensures
        r@ == spec_trim_end(spec_trim_start(s@, c), d),
{
    let n = s.unicode_len();
    let mut lo: usize = 0;
    while lo < n && s.get_char(lo) == c
        invariant
            lo <= n,
            n == s@.len(),
            forall|j: int| 0 <= j < lo ==> s@[j] == c,
        decreases n - lo,
    {
        lo = lo + 1;
    }
    proof {
        lemma_lead_count(s@, c, lo as int);
    }
    let ghost t = spec_trim_start(s@, c);
    assert(t =~= s@.subrange(lo as int, n as int));
    let mut hi: usize = n;
    while hi > lo && s.get_char(hi - 1) == d
        invariant
            lo <= hi <= n,
            n == s@.len(),
            t == s@.subrange(lo as int, n as int),
            forall|j: int| t.len() - (n - hi) <= j < t.len() ==> t[j] == d,
        decreases hi,
    {
        assert(t[(hi - 1 - lo) as int] == s@[hi - 1]);
        hi = hi - 1;
    }
    proof {
        if hi > lo {
            assert(t[t.len() - 1 - (n - hi)] == s@[hi - 1]);
        }
        lemma_trail_count(t, d, (n - hi) as int);
        assert(spec_trim_end(t, d) =~= s@.subrange(lo as int, hi as int));
    }
    substring(s, lo, hi)
}

/// The decimal digit of `d`, which is below ten.
pub open spec fn digit_char(d: nat) -> char {
    (48 + d) as char
}

/// The decimal digits of `n`, most significant first, with no leading zero.
pub open spec fn spec_digits(n: nat) -> Seq<char>
    decreases n,
{
    if n < 10 {
        seq![digit_char(n)]
    } else {
        spec_digits(n / 10) + seq![digit_char(n % 10)]
    }
}

/// `v` in decimal, with a leading `-` when negative: what `{}` prints of an integer.
pub open spec fn spec_decimal(v: int) -> Seq<char> {
    if v < 0 {
        seq!['-'] + spec_digits((-v) as nat)
    } else {
        spec_digits(v as nat)
    }
}

/// Appends the decimal digits of `n`.
pub fn push_digits(out: &mut String, n: u64)
    ensures
        final(out)@ == old(out)@ + spec_digits(n as nat),
    decreases n,
{
    if n >= 10 {
        push_digits(out, n / 10);
    }
    let d: u8 = (n % 10) as u8;
    push_char(out, (48u8 + d) as char);
    assert(final(out)@ =~= old(out)@ + spec_digits(n as nat));
}

/// Appends `v` in decimal, as `{}` prints it.
pub fn push_decimal(out: &mut String, v: i64)
    ensures
        final(out)@ == old(out)@ + spec_decimal(v as int),
{
    if v < 0 {
        push_char(out, '-');
        let m: u64 = (-(v as i128)) as u64;
        push_digits(out, m);
        assert(final(out)@ =~= old(out)@ + spec_decimal(v as int));
    } else {
        push_digits(out, v as u64);
    }
}

/// `v` in decimal, as `v.to_string()` gives it.
pub fn decimal(v: i64) -> (r: String)
    ensures
        r@ == spec_decimal(v as int),
{
    let mut out = String::new();
    push_decimal(&mut out, v);
    assert(out@ =~= spec_decimal(v as int));
    out
}

/// `s` right-aligned in a field of `width` characters: spaces first where it is shorter,
/// as `{:>width}` prints it.
pub open spec fn spec_pad_left(s: Seq<char>, width: nat) -> Seq<char> {
    if s.len() < width {
        Seq::new((width - s.len()) as nat, |i: int| ' ') + s
    } else {
        s
    }
}

/// `s` left-aligned in a field of `width` characters: spaces after where it is shorter,
/// as `{:<width}` prints it.
pub open spec fn spec_pad_right(s: Seq<char>, width: nat) -> Seq<char> {
    if s.len() < width {
        s + Seq::new((width - s.len()) as nat, |i: int| ' ')
    } else {
        s
    }
}

/// Appends `n` spaces.
pub fn push_spaces(out: &mut String, n: usize)
    ensures
        final(out)@ == old(out)@ + Seq::new(n as nat, |i: int| ' '),
{
    let mut i: usize = 0;
    while i < n
        invariant
            i <= n,
            out@ == old(out)@ + Seq::new(i as nat, |k: int| ' '),
        decreases n - i,
    {
        push_char(out, ' ');
        i = i + 1;
        assert(out@ =~= old(out)@ + Seq::new(i as nat, |k: int| ' '));
    }
}

/// Appends `s` right-aligned in a field of `width` characters.
pub fn push_padded_left(out: &mut String, s: &str, width: usize)
    ensures
        final(out)@ == old(out)@ + spec_pad_left(s@, width as nat),
{
    let n = s.unicode_len();
    if n < width {
        push_spaces(out, width - n);
    }
    out.append(s);
    assert(final(out)@ =~= old(out)@ + spec_pad_left(s@, width as nat));
}

/// Appends `s` left-aligned in a field of `width` characters.
pub fn push_padded_right(out: &mut String, s: &str, width: usize)
    ensures
        final(out)@ == old(out)@ + spec_pad_right(s@, width as nat),
{
    let n = s.unicode_len();
    out.append(s);
    if n < width {
        push_spaces(out, width - n);
    }
    assert(final(out)@ =~= old(out)@ + spec_pad_right(s@, width as nat));
}

/// The hexadecimal digit of `d`, which is below sixteen, in lower or upper case.
pub open spec fn hex_char(d: nat, upper: bool) -> char {
    if d < 10 {
        (48 + d) as char
    } else if upper {
        (55 + d) as char
    } else {
        (87 + d) as char
    }
}

/// `v` in four hexadecimal digits, as `{:04x}` (or, with `upper`, `{:04X}`) prints a
/// `u16`.
pub open spec fn spec_hex4(v: u16, upper: bool) -> Seq<char> {
    seq![
        hex_char(((v / 4096) % 16) as nat, upper),
        hex_char(((v / 256) % 16) as nat, upper),
        hex_char(((v / 16) % 16) as nat, upper),
        hex_char((v % 16) as nat, upper),
    ]
}

/// Appends the hexadecimal digit of `d`.
fn push_hex_digit(out: &mut String, d: u16, upper: bool)
    requires
        d < 16,
    ensures
        final(out)@ == old(out)@.push(hex_char(d as nat, upper)),
{
    let b: u8 = d as u8;
    if b < 10 {
        push_char(out, (48u8 + b) as char);
    } else if upper {
        push_char(out, (55u8 + b) as char);
    } else {
        push_char(out, (87u8 + b) as char);
    }
}

/// Appends `v` in four hexadecimal digits.
pub fn push_hex4(out: &mut String, v: u16, upper: bool)
    ensures
        final(out)@ == old(out)@ + spec_hex4(v, upper),
{
    push_hex_digit(out, (v / 4096) % 16, upper);
    push_hex_digit(out, (v / 256) % 16, upper);
    push_hex_digit(out, (v / 16) % 16, upper);
    push_hex_digit(out, v % 16, upper);
    assert(final(out)@ =~= old(out)@ + spec_hex4(v, upper));
}

} // verus!
