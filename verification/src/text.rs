//! Character-level text utilities: decimal rendering, whitespace trimming,
//! separator splitting and the unsigned-integer parsing that the front end
//! applies to what the user types.

use vstd::prelude::*;

verus! {

// ---------------------------------------------------------------------------
// Specifications
// ---------------------------------------------------------------------------

/// The ASCII digit character for `d < 10`.
pub open spec fn digit_char(d: nat) -> char {
    if d == 0 { '0' }
    else if d == 1 { '1' }
    else if d == 2 { '2' }
    else if d == 3 { '3' }
    else if d == 4 { '4' }
    else if d == 5 { '5' }
    else if d == 6 { '6' }
    else if d == 7 { '7' }
    else if d == 8 { '8' }
    else { '9' }
}

/// Decimal rendering of a natural number, without sign or leading zeros.
pub open spec fn decimal(n: nat) -> Seq<char>
    decreases n,
{
    if n < 10 {
        seq![digit_char(n)]
    } else {
        decimal(n / 10).push(digit_char(n % 10))
    }
}

/// A character with the Unicode `White_Space` property (what `char::is_whitespace` tests).
pub open spec fn is_white_space(c: char) -> bool {
    ||| ('\u{9}' <= c && c <= '\u{d}')
    ||| c == ' '
    ||| c == '\u{85}'
    ||| c == '\u{a0}'
    ||| c == '\u{1680}'
    ||| ('\u{2000}' <= c && c <= '\u{200a}')
    ||| c == '\u{2028}'
    ||| c == '\u{2029}'
    ||| c == '\u{202f}'
    ||| c == '\u{205f}'
    ||| c == '\u{3000}'
}

/// `s` with every leading character removed for which `strip(c)` holds.
pub open spec fn strip_start(s: Seq<char>, strip: spec_fn(char) -> bool) -> Seq<char>
    decreases s.len(),
{
    if s.len() > 0 && strip(s[0]) {
        strip_start(s.drop_first(), strip)
    } else {
        s
    }
}

/// `s` with every trailing character removed for which `strip(c)` holds.
pub open spec fn strip_end(s: Seq<char>, strip: spec_fn(char) -> bool) -> Seq<char>
    decreases s.len(),
{
    if s.len() > 0 && strip(s.last()) {
        strip_end(s.drop_last(), strip)
    } else {
        s
    }
}

/// Both ends of `s` stripped of the characters selected by `strip`.
pub open spec fn strip_both(s: Seq<char>, strip: spec_fn(char) -> bool) -> Seq<char> {
    strip_end(strip_start(s, strip), strip)
}

/// The characters that trimming removes: double quotes when `quotes` holds,
/// white space otherwise.
pub open spec fn strip_pred(quotes: bool) -> spec_fn(char) -> bool {
    |c: char| if quotes { c == '"' } else { is_white_space(c) }
}

/// What `str::trim` gives back: `s` without leading and trailing white space.
pub open spec fn trimmed(s: Seq<char>) -> Seq<char> {
    strip_both(s, strip_pred(false))
}

/// What `str::trim_matches('"')` gives back.
pub open spec fn unquoted(s: Seq<char>) -> Seq<char> {
    strip_both(s, strip_pred(true))
}

/// `s` with every backslash-space pair, read from the left, replaced by a space.
pub open spec fn unescape_spaces(s: Seq<char>) -> Seq<char>
    decreases s.len(),
{
    if s.len() == 0 {
        s
    } else if s.len() >= 2 && s[0] == '\\' && s[1] == ' ' {
        seq![' '] + unescape_spaces(s.skip(2))
    } else {
        seq![s[0]] + unescape_spaces(s.drop_first())
    }
}

/// The text before the first `sep` in `s`, and the text after it if `sep` occurs.
pub open spec fn split_once(s: Seq<char>, sep: char) -> (Seq<char>, Option<Seq<char>>)
    decreases s.len(),
{
    if s.len() == 0 {
        (s, None)
    } else if s[0] == sep {
        (Seq::empty(), Some(s.drop_first()))
    } else {
        let rest = split_once(s.drop_first(), sep);
        (seq![s[0]] + rest.0, rest.1)
    }
}

/// The ASCII lower-case form of a character; other characters are unchanged.
pub open spec fn ascii_lower_char(c: char) -> char {
    if 'A' <= c && c <= 'Z' {
        ((c as u32) + 32) as char
    } else {
        c
    }
}

/// `s` with its ASCII upper-case letters made lower case.
pub open spec fn ascii_lower(s: Seq<char>) -> Seq<char> {
    Seq::new(s.len(), |i: int| ascii_lower_char(s[i]))
}

pub open spec fn is_ascii_digit(c: char) -> bool {
    '0' <= c && c <= '9'
}

/// The value of a sequence of ASCII digits read in base ten.
pub open spec fn digits_value(s: Seq<char>) -> nat
    decreases s.len(),
{
    if s.len() == 0 {
        0
    } else {
        digits_value(s.drop_last()) * 10 + ((s.last() as u32) - ('0' as u32)) as nat
    }
}

/// The digits that `u32::from_str` reads: `s` without an optional leading `+`.
pub open spec fn unsigned_digits(s: Seq<char>) -> Seq<char> {
    if s.len() > 0 && s[0] == '+' { s.drop_first() } else { s }
}

/// What `u32::from_str` accepts and yields: an optional `+`, then one or more
/// ASCII digits whose value fits in a `u32`.
pub open spec fn parse_u32_spec(s: Seq<char>) -> Option<u32> {
    let d = unsigned_digits(s);
    if d.len() > 0 && (forall|i: int| 0 <= i < d.len() ==> is_ascii_digit(#[trigger] d[i]))
        && digits_value(d) <= u32::MAX {
        Some(digits_value(d) as u32)
    } else {
        None
    }
}

// ---------------------------------------------------------------------------
// Properties
// ---------------------------------------------------------------------------

/// The digit character of `d` stands for `d`.
pub proof fn lemma_digit_char_value(d: nat)
    requires
        d < 10,
    ensures
        is_ascii_digit(digit_char(d)),
        (digit_char(d) as u32) - ('0' as u32) == d,
{
}

/// Every character of a decimal rendering is an ASCII digit.
pub proof fn lemma_decimal_digits(n: nat)
    ensures
        decimal(n).len() >= 1,
        forall|i: int| 0 <= i < decimal(n).len() ==> is_ascii_digit(#[trigger] decimal(n)[i]),
        digits_value(decimal(n)) == n,
    decreases n,
{
    lemma_digit_char_value(n % 10);
    if n < 10 {
        assert(decimal(n).drop_last() =~= Seq::<char>::empty());
        assert(decimal(n).last() == digit_char(n));
        assert(digits_value(decimal(n)) == digits_value(Seq::<char>::empty()) * 10 + ((digit_char(n) as u32) - ('0' as u32)) as nat);
    } else {
        lemma_decimal_digits(n / 10);
        let d = decimal(n / 10);
        assert(decimal(n).drop_last() =~= d);
        assert(decimal(n).last() == digit_char(n % 10));
        assert(digits_value(decimal(n)) == digits_value(d) * 10 + (n % 10));
        assert(forall|i: int| 0 <= i < d.len() ==> decimal(n)[i] == #[trigger] d[i]);
    }
}

/// Reading back a rendered number gives the number: parsing the decimal
/// rendering of a `u32` yields that `u32`.
pub proof fn law_parse_decimal_round_trip(n: u32)
    ensures
        parse_u32_spec(decimal(n as nat)) == Some(n),
{
    lemma_decimal_digits(n as nat);
    let d = decimal(n as nat);
    assert(d[0] != '+');
    assert(unsigned_digits(d) == d);
}

/// A sequence whose ends are not stripped is left as it is.
pub proof fn lemma_strip_both_unchanged(s: Seq<char>, strip: spec_fn(char) -> bool)
    requires
        s.len() > 0,
        !strip(s[0]),
        !strip(s.last()),
    ensures
        strip_both(s, strip) == s,
{
}

/// Splitting at the first separator of `a + [sep] + b`, where `a` holds no
/// separator, gives `a` and `b`.
pub proof fn lemma_split_once_at(a: Seq<char>, b: Seq<char>, sep: char)
    requires
        forall|i: int| 0 <= i < a.len() ==> #[trigger] a[i] != sep,
    ensures
        split_once(a + seq![sep] + b, sep) == (a, Some(b)),
    decreases a.len(),
{
    let s = a + seq![sep] + b;
    if a.len() == 0 {
        assert(s.drop_first() =~= b);
    } else {
        let a1 = a.drop_first();
        assert(s.drop_first() =~= a1 + seq![sep] + b);
        lemma_split_once_at(a1, b, sep);
        assert(seq![a[0]] + a1 =~= a);
    }
}

/// A sequence without the separator is not split.
pub proof fn lemma_split_once_none(s: Seq<char>, sep: char)
    requires
        forall|i: int| 0 <= i < s.len() ==> #[trigger] s[i] != sep,
    ensures
        split_once(s, sep) == (s, None::<Seq<char>>),
    decreases s.len(),
{
    if s.len() > 0 {
        lemma_split_once_none(s.drop_first(), sep);
        assert(seq![s[0]] + s.drop_first() =~= s);
    }
}

// ---------------------------------------------------------------------------
// Trusted bridge to `String`
// ---------------------------------------------------------------------------

/// `String::push`: appends one character to the string.
#[verifier::external_body]
pub(crate) fn push_char(s: &mut String, c: char)
    ensures
        final(s)@ == old(s)@.push(c),
{
    s.push(c);
}

/// `String::pop`: removes the last character, if any.
#[verifier::external_body]
pub(crate) fn pop_char(s: &mut String)
    ensures
        old(s)@.len() > 0 ==> final(s)@ == old(s)@.drop_last(),
        old(s)@.len() == 0 ==> final(s)@ == old(s)@,
{
    s.pop();
}

// ---------------------------------------------------------------------------
// Executable functions
// ---------------------------------------------------------------------------

/// The characters of `s`, in order.
pub fn chars_of(s: &str) -> (v: Vec<char>)
    ensures
        v@ == s@,
{
    let n = s.unicode_len();
    let mut v: Vec<char> = Vec::new();
    let mut i: usize = 0;
    while i < n
        invariant
            n == s@.len(),
            i <= n,
            v@ == s@.take(i as int),
        decreases n - i,
    {
        v.push(s.get_char(i));
        i = i + 1;
    }
    assert(s@.take(n as int) =~= s@);
    v
}

/// The characters of `v[from..to]` as a new string.
pub fn string_of(v: &Vec<char>, from: usize, to: usize) -> (s: String)
    requires
        from <= to <= v@.len(),
    ensures
        s@ == v@.subrange(from as int, to as int),
{
    let mut s = String::new();
    let mut i = from;
    while i < to
        invariant
            from <= i <= to <= v@.len(),
            s@ == v@.subrange(from as int, i as int),
        decreases to - i,
    {
        push_char(&mut s, v[i]);
        assert(v@.subrange(from as int, i + 1) =~= v@.subrange(from as int, i as int).push(v@[i as int]));
        i = i + 1;
    }
    s
}

/// The decimal digit character for `d`.
fn digit(d: u64) -> (c: char)
    requires
        d < 10,
    ensures
        c == digit_char(d as nat),
{
    if d == 0 { '0' }
    else if d == 1 { '1' }
    else if d == 2 { '2' }
    else if d == 3 { '3' }
    else if d == 4 { '4' }
    else if d == 5 { '5' }
    else if d == 6 { '6' }
    else if d == 7 { '7' }
    else if d == 8 { '8' }
    else { '9' }
}

/// Appends the decimal rendering of `n` to `s`.
pub fn push_decimal(s: &mut String, n: u64)
    ensures
        final(s)@ == old(s)@ + decimal(n as nat),
    decreases n,
{
    if n >= 10 {
        push_decimal(s, n / 10);
    }
    push_char(s, digit(n % 10));
    assert(old(s)@ + decimal(n as nat) =~= final(s)@) by {
        if n >= 10 {
            assert(decimal(n as nat) == decimal((n / 10) as nat).push(digit_char((n % 10) as nat)));
        }
    }
}

/// The decimal rendering of `n`, as `n.to_string()` writes it.
pub fn decimal_string(n: u64) -> (s: String)
    ensures
        s@ == decimal(n as nat),
{
    let mut s = String::new();
    push_decimal(&mut s, n);
    assert(Seq::<char>::empty() + decimal(n as nat) =~= decimal(n as nat));
    s
}

/// Whether `c` has the Unicode `White_Space` property.
pub fn is_whitespace_char(c: char) -> (b: bool)
    ensures
        b == is_white_space(c),
{
    ('\u{9}' <= c && c <= '\u{d}') || c == ' ' || c == '\u{85}' || c == '\u{a0}'
        || c == '\u{1680}' || ('\u{2000}' <= c && c <= '\u{200a}') || c == '\u{2028}'
        || c == '\u{2029}' || c == '\u{202f}' || c == '\u{205f}' || c == '\u{3000}'
}

fn stripped_by(c: char, quotes: bool) -> (b: bool)
    ensures
        b == (strip_pred(quotes))(c),
{
    if quotes {
        c == '"'
    } else {
        is_whitespace_char(c)
    }
}

/// The bounds `(lo, hi)` of what remains of `v` once both ends are stripped.
pub fn strip_range(v: &Vec<char>, quotes: bool) -> (r: (usize, usize))
    ensures
        r.0 <= r.1 <= v@.len(),
        v@.subrange(r.0 as int, r.1 as int) == strip_both(v@, strip_pred(quotes)),
{
    let n = v.len();
    let ghost p = strip_pred(quotes);
    let mut lo: usize = 0;
    assert(v@.skip(0) =~= v@);
    while lo < n && stripped_by(v[lo], quotes)
        invariant
            n == v@.len(),
            lo <= n,
            p == strip_pred(quotes),
            strip_start(v@, p) == strip_start(v@.skip(lo as int), p),
        decreases n - lo,
    {
        assert(v@.skip(lo as int).drop_first() =~= v@.skip(lo + 1));
        lo = lo + 1;
    }
    let ghost w = v@.skip(lo as int);
    assert(strip_start(v@, p) == w) by {
        if lo == n {
            assert(w.len() == 0);
        }
    }
    let mut hi: usize = n;
    while hi > lo && stripped_by(v[hi - 1], quotes)
        invariant
            n == v@.len(),
            lo <= hi <= n,
            p == strip_pred(quotes),
            w == v@.skip(lo as int),
            strip_end(w, p) == strip_end(v@.subrange(lo as int, hi as int), p),
        decreases hi - lo,
    {
        assert(v@.subrange(lo as int, hi as int).drop_last() =~= v@.subrange(lo as int, hi - 1));
        hi = hi - 1;
    }
    assert(w =~= v@.subrange(lo as int, n as int));
    (lo, hi)
}

/// `s` without leading and trailing white space, as `str::trim` gives it.
pub fn trim_text(s: &str) -> (r: String)
    ensures
        r@ == trimmed(s@),
{
    let v = chars_of(s);
    let (lo, hi) = strip_range(&v, false);
    string_of(&v, lo, hi)
}

/// `s` without leading and trailing double quotes, as `str::trim_matches('"')` gives it.
pub fn unquote_text(s: &str) -> (r: String)
    ensures
        r@ == unquoted(s@),
{
    let v = chars_of(s);
    let (lo, hi) = strip_range(&v, true);
    string_of(&v, lo, hi)
}

/// `s` with each backslash-space pair turned into a space, as `replace("\\ ", " ")` does.
pub fn unescape_text(s: &str) -> (r: String)
    ensures
        r@ == unescape_spaces(s@),
{
    let v = chars_of(s);
    let n = v.len();
    let mut r = String::new();
    let mut i: usize = 0;
    assert(v@.skip(0) =~= v@);
    assert(r@ + unescape_spaces(v@) =~= unescape_spaces(v@));
    while i < n
        invariant
            n == v@.len(),
            i <= n,
            unescape_spaces(v@) == r@ + unescape_spaces(v@.skip(i as int)),
        decreases n - i,
    {
        let ghost rest = v@.skip(i as int);
        if i + 1 < n && v[i] == '\\' && v[i + 1] == ' ' {
            push_char(&mut r, ' ');
            assert(rest.skip(2) =~= v@.skip(i + 2));
            i = i + 2;
        } else {
            push_char(&mut r, v[i]);
            assert(rest.drop_first() =~= v@.skip(i + 1));
            i = i + 1;
        }
    }
    assert(v@.skip(n as int) =~= Seq::<char>::empty());
    assert(r@ + Seq::<char>::empty() =~= r@);
    r
}

/// The text before the first `sep` in `s`, and the text after it if `sep` occurs.
pub fn split_once_text(s: &str, sep: char) -> (r: (String, Option<String>))
    ensures
        r.0@ == split_once(s@, sep).0,
        match r.1 {
            Some(t) => split_once(s@, sep).1 == Some(t@),
            None => split_once(s@, sep).1 is None,
        },
{
    let v = chars_of(s);
    let n = v.len();
    let mut i: usize = 0;
    assert(v@.skip(0) =~= v@);
    assert(v@.take(0) + split_once(v@, sep).0 =~= split_once(v@, sep).0);
    while i < n && v[i] != sep
        invariant
            n == v@.len(),
            i <= n,
            split_once(v@, sep).0 == v@.take(i as int) + split_once(v@.skip(i as int), sep).0,
            split_once(v@, sep).1 == split_once(v@.skip(i as int), sep).1,
        decreases n - i,
    {
        let ghost rest = v@.skip(i as int);
        assert(rest.drop_first() =~= v@.skip(i + 1));
        assert(v@.take(i + 1) =~= v@.take(i as int) + seq![rest[0]]);
        i = i + 1;
    }
    let head = string_of(&v, 0, i);
    assert(v@.subrange(0, i as int) =~= v@.take(i as int));
    if i < n {
        let tail = string_of(&v, i + 1, n);
        assert(v@.skip(i as int).drop_first() =~= v@.subrange(i + 1, n as int));
        assert(v@.take(i as int) + Seq::<char>::empty() =~= v@.take(i as int));
        (head, Some(tail))
    } else {
        assert(v@.skip(i as int) =~= Seq::<char>::empty());
        assert(v@.take(i as int) + Seq::<char>::empty() =~= v@.take(i as int));
        (head, None)
    }
}

fn lower_char(c: char) -> (d: char)
    ensures
        d == ascii_lower_char(c),
{
    if 'A' <= c && c <= 'Z' {
        let code: u32 = c as u32;
        assert(65 <= code <= 90);
        let lowered: u8 = (code + 32) as u8;
        lowered as char
    } else {
        c
    }
}

/// `s` with ASCII letters made lower case.
pub fn ascii_lower_text(s: &str) -> (r: String)
    ensures
        r@ == ascii_lower(s@),
{
    let v = chars_of(s);
    let n = v.len();
    let mut r = String::new();
    let mut i: usize = 0;
    while i < n
        invariant
            n == v@.len(),
            i <= n,
            r@ == ascii_lower(v@).take(i as int),
        decreases n - i,
    {
        push_char(&mut r, lower_char(v[i]));
        assert(ascii_lower(v@).take(i + 1) =~= ascii_lower(v@).take(i as int).push(ascii_lower_char(v@[i as int])));
        i = i + 1;
    }
    assert(ascii_lower(v@).take(n as int) =~= ascii_lower(v@));
    r
}

proof fn lemma_digits_value_prefix_grows(d: Seq<char>, j: int, k: int)
    requires
        0 <= j <= k <= d.len(),
        forall|i: int| 0 <= i < d.len() ==> is_ascii_digit(#[trigger] d[i]),
    ensures
        digits_value(d.take(j)) <= digits_value(d.take(k)),
    decreases k - j,
{
    if j < k {
        lemma_digits_value_prefix_grows(d, j, k - 1);
        assert(d.take(k).drop_last() =~= d.take(k - 1));
        assert(is_ascii_digit(d[k - 1]));
    }
}

/// Parses an unsigned decimal number exactly as `u32::from_str` does.
pub fn parse_u32_text(s: &str) -> (r: Option<u32>)
    ensures
        r == parse_u32_spec(s@),
{
    let v = chars_of(s);
    let n = v.len();
    let start: usize = if n > 0 && v[0] == '+' { 1 } else { 0 };
    let ghost d = unsigned_digits(v@);
    assert(d =~= v@.skip(start as int));
    if start >= n {
        return None;
    }
    let mut acc: u32 = 0;
    let mut i: usize = start;
    while i < n
        invariant
            n == v@.len(),
            start <= i <= n,
            start < n,
            d == v@.skip(start as int),
            d == unsigned_digits(v@),
            v@ == s@,
            forall|k: int| 0 <= k < i - start ==> is_ascii_digit(#[trigger] d[k]),
            acc as nat == digits_value(d.take(i - start)),
        decreases n - i,
    {
        let c = v[i];
        assert(d[i - start] == c);
        if !('0' <= c && c <= '9') {
            assert(!is_ascii_digit(d[i - start]));
            assert(d.len() == n - start);
            assert(!(forall|k: int| 0 <= k < d.len() ==> is_ascii_digit(#[trigger] d[k])));
            assert(parse_u32_spec(v@) is None);
            return None;
        }
        let dig: u32 = (c as u32) - ('0' as u32);
        assert(d.take(i + 1 - start).drop_last() =~= d.take(i - start));
        if acc > (u32::MAX - dig) / 10 {
            proof {
                assert(d.take(i + 1 - start).last() == c);
                assert(digits_value(d.take(i + 1 - start)) == acc * 10 + dig);
                assert(acc * 10 + dig > u32::MAX) by (nonlinear_arith)
                    requires acc > (u32::MAX - dig) / 10, dig <= 9;
                if forall|k: int| 0 <= k < d.len() ==> is_ascii_digit(#[trigger] d[k]) {
                    lemma_digits_value_prefix_grows(d, i + 1 - start, d.len() as int);
                    assert(d.take(d.len() as int) =~= d);
                }
                assert(parse_u32_spec(v@) is None);
            }
            return None;
        }
        assert(acc * 10 + dig <= u32::MAX) by (nonlinear_arith)
            requires acc <= (u32::MAX - dig) / 10, dig <= 9;
        assert(d.take(i + 1 - start).last() == c);
        acc = acc * 10 + dig;
        i = i + 1;
    }
    assert(d.take(n - start) =~= d);
    Some(acc)
}

/// Whether `a` and `b` hold the same characters.
pub fn str_eq(a: &str, b: &str) -> (r: bool)
    ensures
        r == (a@ == b@),
{
    let n = a.unicode_len();
    if n != b.unicode_len() {
        return false;
    }
    let mut i: usize = 0;
    while i < n
        invariant
            n == a@.len(),
            n == b@.len(),
            i <= n,
            forall|k: int| 0 <= k < i ==> a@[k] == b@[k],
        decreases n - i,
    {
        if a.get_char(i) != b.get_char(i) {
            return false;
        }
        i = i + 1;
    }
    assert(a@ =~= b@);
    true
}

} // verus!
