//! Character-level text utilities shared by the configuration parsers.
//!
//! Text is handled as sequences of `char`; every helper states its result
//! over the mathematical view (`Seq<char>`) of its input.
use vstd::prelude::*;

verus! {

/// Appends one character to a string (std `String::push`).
#[verifier::external_body]
pub(crate) fn push_char(s: &mut String, c: char)
    ensures
        final(s)@ == old(s)@.push(c),
{
    s.push(c);
}

/// A name for what std `str::to_lowercase` returns (Unicode lowercase mapping).
pub uninterp spec fn unicode_lower(s: Seq<char>) -> Seq<char>;

/// A name for what std `str::to_uppercase` returns (Unicode uppercase mapping).
pub uninterp spec fn unicode_upper(s: Seq<char>) -> Seq<char>;

/// std `str::to_lowercase`: the result is the Unicode lowercase form of `s`,
/// a function of `s` alone.
#[verifier::external_body]
pub(crate) fn to_lowercase(s: &str) -> (r: String)
    ensures
        r@ == unicode_lower(s@),
{
    s.to_lowercase()
}

/// std `str::to_uppercase`: the result is the Unicode uppercase form of `s`,
/// a function of `s` alone.
#[verifier::external_body]
pub(crate) fn to_uppercase(s: &str) -> (r: String)
    ensures
        r@ == unicode_upper(s@),
{
    s.to_uppercase()
}

/// Unicode `White_Space` characters (what `char::is_whitespace` accepts).
pub open spec fn is_ws(c: char) -> bool {
    ||| c == '\t'
    ||| c == '\n'
    ||| c == '\u{0B}'
    ||| c == '\u{0C}'
    ||| c == '\r'
    ||| c == ' '
    ||| c == '\u{85}'
    ||| c == '\u{A0}'
    ||| c == '\u{1680}'
    ||| ('\u{2000}' <= c && c <= '\u{200A}')
    ||| c == '\u{2028}'
    ||| c == '\u{2029}'
    ||| c == '\u{202F}'
    ||| c == '\u{205F}'
    ||| c == '\u{3000}'
}

/// `s` without its leading whitespace.
pub open spec fn trim_start(s: Seq<char>) -> Seq<char>
    decreases s.len(),
{
    if s.len() > 0 && is_ws(s[0]) {
        trim_start(s.drop_first())
    } else {
        s
    }
}

/// `s` without its trailing whitespace.
pub open spec fn trim_end(s: Seq<char>) -> Seq<char>
    decreases s.len(),
{
    if s.len() > 0 && is_ws(s.last()) {
        trim_end(s.drop_last())
    } else {
        s
    }
}

/// `s` without leading and trailing whitespace (`str::trim`).
pub open spec fn trim(s: Seq<char>) -> Seq<char> {
    trim_end(trim_start(s))
}

/// Index of the first occurrence of `c` in `s`, or -1 when there is none.
pub open spec fn index_of(s: Seq<char>, c: char) -> int
    decreases s.len(),
{
    if s.len() == 0 {
        -1
    } else if s[0] == c {
        0
    } else {
        let r = index_of(s.drop_first(), c);
        if r < 0 {
            -1
        } else {
            r + 1
        }
    }
}

/// What `index_of` means.
pub proof fn lemma_index_of(s: Seq<char>, c: char)
    ensures
        -1 <= index_of(s, c) < s.len(),
        index_of(s, c) >= 0 ==> s[index_of(s, c)] == c,
        forall|j: int| 0 <= j < s.len() && (index_of(s, c) < 0 || j < index_of(s, c)) ==> s[j] != c,
    decreases s.len(),
{
    if s.len() > 0 && s[0] != c {
        lemma_index_of(s.drop_first(), c);
        assert forall|j: int| 0 <= j < s.len() && (index_of(s, c) < 0 || j < index_of(s, c)) implies s[j] != c by {
            if j > 0 {
                assert(s[j] == s.drop_first()[j - 1]);
            }
        }
    }
}

/// The converse: a position that holds `c` after a stretch without `c` is the
/// first occurrence.
pub proof fn lemma_index_of_at(s: Seq<char>, c: char, i: int)
    requires
        0 <= i < s.len(),
        s[i] == c,
        forall|j: int| 0 <= j < i ==> s[j] != c,
    ensures
        index_of(s, c) == i,
    decreases s.len(),
{
    if i > 0 {
        assert forall|j: int| 0 <= j < i - 1 implies s.drop_first()[j] != c by {
            assert(s.drop_first()[j] == s[j + 1]);
        }
        lemma_index_of_at(s.drop_first(), c, i - 1);
    }
}

/// No occurrence at all.
pub proof fn lemma_index_of_none(s: Seq<char>, c: char)
    requires
        forall|j: int| 0 <= j < s.len() ==> s[j] != c,
    ensures
        index_of(s, c) == -1,
    decreases s.len(),
{
    if s.len() > 0 {
        assert forall|j: int| 0 <= j < s.len() - 1 implies s.drop_first()[j] != c by {
            assert(s.drop_first()[j] == s[j + 1]);
        }
        lemma_index_of_none(s.drop_first(), c);
    }
}

/// The lines of a text, as `str::lines` yields them: split at `\n`, with a
/// `\r` directly before the `\n` removed, and no empty last line after a final
/// line ending.
pub open spec fn lines_of(s: Seq<char>) -> Seq<Seq<char>>
    decreases s.len(),
{
    if s.len() == 0 {
        seq![]
    } else {
        let i = index_of(s, '\n');
        proof {
            lemma_index_of(s, '\n');
        }
        if i < 0 {
            seq![s]
        } else {
            let line = s.take(i);
            let line = if line.len() > 0 && line.last() == '\r' {
                line.drop_last()
            } else {
                line
            };
            seq![line] + lines_of(s.skip(i + 1))
        }
    }
}

/// ASCII lowercase of one character (`char::to_ascii_lowercase`).
pub open spec fn ascii_lower_char(c: char) -> char {
    if 'A' <= c && c <= 'Z' {
        ((c as u32) + 32) as char
    } else {
        c
    }
}

/// ASCII lowercase of a text (`str::to_ascii_lowercase`).
pub open spec fn ascii_lower(s: Seq<char>) -> Seq<char> {
    Seq::new(s.len(), |i: int| ascii_lower_char(s[i]))
}

/// The value of `c` as a digit in `radix` (10 or 16), when it is one.
pub open spec fn digit_value(c: char, radix: nat) -> int {
    if '0' <= c && c <= '9' && (c as int) - ('0' as int) < radix {
        (c as int) - ('0' as int)
    } else if radix == 16 && 'a' <= c && c <= 'f' {
        (c as int) - ('a' as int) + 10
    } else if radix == 16 && 'A' <= c && c <= 'F' {
        (c as int) - ('A' as int) + 10
    } else {
        -1
    }
}

/// Every character of `s` is a digit in `radix`.
pub open spec fn all_digits(s: Seq<char>, radix: nat) -> bool {
    forall|i: int| 0 <= i < s.len() ==> digit_value(#[trigger] s[i], radix) >= 0
}

/// The number that the digits `s` denote in `radix`.
pub open spec fn digits_value(s: Seq<char>, radix: nat) -> nat
    decreases s.len(),
{
    if s.len() == 0 {
        0
    } else {
        digits_value(s.drop_last(), radix) * radix + digit_value(s.last(), radix) as nat
    }
}

/// What Rust's unsigned `from_str` / `from_str_radix` accept: an optional `+`
/// followed by at least one digit, with a value at most `max`.
pub open spec fn parse_unsigned(s: Seq<char>, radix: nat, max: nat) -> Option<nat> {
    let d = if s.len() > 0 && s[0] == '+' {
        s.drop_first()
    } else {
        s
    };
    if d.len() > 0 && all_digits(d, radix) && digits_value(d, radix) <= max {
        Some(digits_value(d, radix))
    } else {
        None
    }
}

/// What Rust's signed `from_str` accepts: an optional sign followed by at
/// least one decimal digit, with a value in `[min, max]`.
pub open spec fn parse_signed(s: Seq<char>, min: int, max: int) -> Option<int> {
    if s.len() > 0 && s[0] == '-' {
        let d = s.drop_first();
        if d.len() > 0 && all_digits(d, 10) && -(digits_value(d, 10) as int) >= min {
            Some(-(digits_value(d, 10) as int))
        } else {
            None
        }
    } else {
        match parse_unsigned(s, 10, if max < 0 { 0 } else { max as nat }) {
            Some(v) => if max >= 0 { Some(v as int) } else { None },
            None => None,
        }
    }
}

proof fn lemma_digits_value_mono(s: Seq<char>, radix: nat, c: char)
    requires
        radix > 0,
        digit_value(c, radix) >= 0,
    ensures
        digits_value(s.push(c), radix) >= digits_value(s, radix),
        digits_value(s.push(c), radix) == digits_value(s, radix) * radix + digit_value(c, radix),
{
    assert(s.push(c).drop_last() =~= s);
    assert(digits_value(s, radix) * radix >= digits_value(s, radix)) by (nonlinear_arith)
        requires
            radix > 0,
    ;
}

proof fn lemma_digits_value_grow(s: Seq<char>, t: Seq<char>, radix: nat)
    requires
        radix > 0,
        all_digits(t, radix),
    ensures
        digits_value(s + t, radix) >= digits_value(s, radix),
    decreases t.len(),
{
    if t.len() > 0 {
        let t2 = t.drop_last();
        assert((s + t).drop_last() =~= s + t2);
        assert(all_digits(t2, radix)) by {
            assert forall|i: int| 0 <= i < t2.len() implies digit_value(#[trigger] t2[i], radix) >= 0 by {
                assert(t2[i] == t[i]);
            }
        }
        lemma_digits_value_grow(s, t2, radix);
        assert((s + t).last() == t.last());
        assert(digit_value(t[t.len() - 1], radix) >= 0);
        assert(digits_value(s + t2, radix) * radix >= digits_value(s + t2, radix)) by (nonlinear_arith)
            requires
                radix > 0,
        ;
    }
}

/// Characters of a string slice, in order.
pub fn to_chars(s: &str) -> (v: Vec<char>)
    ensures
        v@ == s@,
{
    let n = s.unicode_len();
    let mut v: Vec<char> = Vec::new();
    let mut i: usize = 0;
    while i < n
        invariant
            n == s@.len(),
            i <= n,
            v@ == s@.subrange(0, i as int),
        decreases n - i,
    {
        let c = s.get_char(i);
        v.push(c);
        i = i + 1;
    }
    v
}

/// A string made of `v[lo..hi]`.
pub fn string_of(v: &Vec<char>, lo: usize, hi: usize) -> (r: String)
    requires
        lo <= hi <= v@.len(),
    ensures
        r@ == v@.subrange(lo as int, hi as int),
{
    let mut r = String::new();
    let mut i = lo;
    while i < hi
        invariant
            lo <= i <= hi <= v@.len(),
            r@ == v@.subrange(lo as int, i as int),
        decreases hi - i,
    {
        push_char(&mut r, v[i]);
        assert(v@.subrange(lo as int, i + 1) =~= v@.subrange(lo as int, i as int).push(v@[i as int]));
        i = i + 1;
    }
    r
}

/// Whether `c` is Unicode whitespace.
pub fn is_whitespace(c: char) -> (r: bool)
    ensures
        r == is_ws(c),
{
    c == '\t' || c == '\n' || c == '\u{0B}' || c == '\u{0C}' || c == '\r' || c == ' ' || c
        == '\u{85}' || c == '\u{A0}' || c == '\u{1680}' || ('\u{2000}' <= c && c <= '\u{200A}')
        || c == '\u{2028}' || c == '\u{2029}' || c == '\u{202F}' || c == '\u{205F}' || c
        == '\u{3000}'
}

/// The bounds of `v[lo..hi]` with surrounding whitespace removed.
pub fn trim_range(v: &Vec<char>, lo: usize, hi: usize) -> (r: (usize, usize))
    requires
        lo <= hi <= v@.len(),
    ensures
        lo <= r.0 <= r.1 <= hi,
        v@.subrange(r.0 as int, r.1 as int) == trim(v@.subrange(lo as int, hi as int)),
{
    let mut a = lo;
    while a < hi && is_whitespace(v[a])
        invariant
            lo <= a <= hi <= v@.len(),
            trim_start(v@.subrange(lo as int, hi as int)) == trim_start(
                v@.subrange(a as int, hi as int),
            ),
        decreases hi - a,
    {
        assert(v@.subrange(a as int, hi as int).drop_first() =~= v@.subrange(a + 1, hi as int));
        a = a + 1;
    }
    let mut b = hi;
    while b > a && is_whitespace(v[b - 1])
        invariant
            lo <= a <= b <= hi <= v@.len(),
            trim_end(v@.subrange(a as int, hi as int)) == trim_end(v@.subrange(a as int, b as int)),
        decreases b - a,
    {
        assert(v@.subrange(a as int, b as int).drop_last() =~= v@.subrange(a as int, b - 1));
        b = b - 1;
    }
    proof {
        let t = v@.subrange(a as int, hi as int);
        if a < hi {
            assert(!is_ws(t[0]));
        }
        assert(trim_start(v@.subrange(a as int, hi as int)) == t);
        let u = v@.subrange(a as int, b as int);
        if b > a {
            assert(!is_ws(u.last()));
        }
        assert(trim_end(u) == u);
    }
    (a, b)
}

/// First position `i` in `[lo, hi)` with `v[i] == c`.
pub fn find_char(v: &Vec<char>, lo: usize, hi: usize, c: char) -> (r: Option<usize>)
    requires
        lo <= hi <= v@.len(),
    ensures
        r is None ==> index_of(v@.subrange(lo as int, hi as int), c) == -1,
        r matches Some(i) ==> lo <= i < hi && index_of(v@.subrange(lo as int, hi as int), c)
            == i - lo,
{
    let mut i = lo;
    while i < hi
        invariant
            lo <= i <= hi <= v@.len(),
            forall|j: int| lo <= j < i ==> v@[j] != c,
        decreases hi - i,
    {
        if v[i] == c {
            proof {
                lemma_index_of_at(v@.subrange(lo as int, hi as int), c, i - lo);
            }
            return Some(i);
        }
        i = i + 1;
    }
    proof {
        lemma_index_of_none(v@.subrange(lo as int, hi as int), c);
    }
    None
}

/// Whether `v[lo..hi]` spells `lit`.
pub fn range_eq(v: &Vec<char>, lo: usize, hi: usize, lit: &str) -> (r: bool)
    requires
        lo <= hi <= v@.len(),
    ensures
        r == (v@.subrange(lo as int, hi as int) == lit@),
{
    let n = lit.unicode_len();
    if n != hi - lo {
        return false;
    }
    let mut i: usize = 0;
    while i < n
        invariant
            n == lit@.len(),
            n == hi - lo,
            lo <= hi <= v@.len(),
            i <= n,
            forall|j: int| 0 <= j < i ==> v@[lo + j] == lit@[j],
        decreases n - i,
    {
        if v[lo + i] != lit.get_char(i) {
            assert(v@.subrange(lo as int, hi as int)[i as int] != lit@[i as int]);
            return false;
        }
        i = i + 1;
    }
    assert(v@.subrange(lo as int, hi as int) =~= lit@);
    true
}

/// Whether the text `v` spells `lit`.
pub fn chars_eq(v: &Vec<char>, lit: &str) -> (r: bool)
    ensures
        r == (v@ == lit@),
{
    let r = range_eq(v, 0, v.len(), lit);
    assert(v@.subrange(0, v@.len() as int) =~= v@);
    r
}

/// Whether `v[lo..hi]` begins with `lit`.
pub fn range_starts_with(v: &Vec<char>, lo: usize, hi: usize, lit: &str) -> (r: bool)
    requires
        lo <= hi <= v@.len(),
    ensures
        r == (lit@.len() <= hi - lo && v@.subrange(lo as int, lo + lit@.len()) == lit@),
{
    let n = lit.unicode_len();
    if n > hi - lo {
        return false;
    }
    range_eq(v, lo, lo + n, lit)
}

/// ASCII lowercase of `v[lo..hi]`.
pub fn ascii_lower_range(v: &Vec<char>, lo: usize, hi: usize) -> (r: Vec<char>)
    requires
        lo <= hi <= v@.len(),
    ensures
        r@ == ascii_lower(v@.subrange(lo as int, hi as int)),
{
    let mut r: Vec<char> = Vec::new();
    let mut i = lo;
    while i < hi
        invariant
            lo <= i <= hi <= v@.len(),
            r@ == ascii_lower(v@.subrange(lo as int, i as int)),
        decreases hi - i,
    {
        let c = v[i];
        let d = if 'A' <= c && c <= 'Z' {
            ((c as u8) + 32) as char
        } else {
            c
        };
        r.push(d);
        assert(r@ =~= ascii_lower(v@.subrange(lo as int, i + 1)));
        i = i + 1;
    }
    r
}

/// The value of one digit in `radix`, or -1.
pub fn digit_of(c: char, radix: u32) -> (r: i32)
    requires
        radix == 10 || radix == 16,
    ensures
        r == digit_value(c, radix as nat),
{
    if '0' <= c && c <= '9' {
        ((c as u32) - ('0' as u32)) as i32
    } else if radix == 16 && 'a' <= c && c <= 'f' {
        ((c as u32) - ('a' as u32) + 10) as i32
    } else if radix == 16 && 'A' <= c && c <= 'F' {
        ((c as u32) - ('A' as u32) + 10) as i32
    } else {
        -1
    }
}

/// Parse `v[lo..hi]` as Rust's unsigned integer parsing does, with values
/// above `max` rejected.
pub fn parse_unsigned_range(v: &Vec<char>, lo: usize, hi: usize, radix: u32, max: u64) -> (r:
    Option<u64>)
    requires
        lo <= hi <= v@.len(),
        radix == 10 || radix == 16,
    ensures
        match parse_unsigned(v@.subrange(lo as int, hi as int), radix as nat, max as nat) {
            Some(x) => r == Some(x as u64),
            None => r is None,
        },
{
    let ghost s = v@.subrange(lo as int, hi as int);
    let mut a = lo;
    if a < hi && v[a] == '+' {
        a = a + 1;
    }
    let ghost d = v@.subrange(a as int, hi as int);
    proof {
        if lo < hi && v@[lo as int] == '+' {
            assert(d =~= s.drop_first());
        } else {
            assert(d =~= s);
        }
    }
    if a == hi {
        return None;
    }
    let mut acc: u64 = 0;
    let mut i = a;
    while i < hi
        invariant
            lo <= a < hi <= v@.len(),
            a <= i <= hi,
            d == v@.subrange(a as int, hi as int),
            s == v@.subrange(lo as int, hi as int),
            d == (if s.len() > 0 && s[0] == '+' {
                s.drop_first()
            } else {
                s
            }),
            radix == 10 || radix == 16,
            all_digits(v@.subrange(a as int, i as int), radix as nat),
            acc == digits_value(v@.subrange(a as int, i as int), radix as nat),
            acc <= max,
        decreases hi - i,
    {
        let dv = digit_of(v[i], radix);
        let ghost pre = v@.subrange(a as int, i as int);
        assert(v@.subrange(a as int, i + 1) =~= pre.push(v@[i as int]));
        if dv < 0 {
            proof {
                assert(d[i - a] == v@[i as int]);
                assert(digit_value(d[i - a], radix as nat) < 0);
                assert(!all_digits(d, radix as nat));
            }
            return None;
        }
        proof {
            lemma_digits_value_mono(pre, radix as nat, v@[i as int]);
            assert forall|k: int| 0 <= k < i + 1 - a implies digit_value(
                #[trigger] v@.subrange(a as int, i + 1)[k],
                radix as nat,
            ) >= 0 by {
                if k < i - a {
                    assert(v@.subrange(a as int, i + 1)[k] == pre[k]);
                }
            }
        }
        let nv: u128 = (acc as u128) * (radix as u128) + (dv as u128);
        if nv > max as u128 {
            proof {
                assert(nv == digits_value(v@.subrange(a as int, i + 1), radix as nat));
                // The value only grows with further digits.
                if d.len() > 0 && all_digits(d, radix as nat) {
                    let rest = v@.subrange(i + 1, hi as int);
                    assert(d =~= v@.subrange(a as int, i + 1) + rest);
                    assert(all_digits(rest, radix as nat)) by {
                        assert forall|k: int| 0 <= k < rest.len() implies digit_value(
                            #[trigger] rest[k],
                            radix as nat,
                        ) >= 0 by {
                            assert(rest[k] == d[k + i + 1 - a]);
                        }
                    }
                    lemma_digits_value_grow(v@.subrange(a as int, i + 1), rest, radix as nat);
                }
            }
            return None;
        }
        acc = nv as u64;
        i = i + 1;
    }
    assert(d =~= v@.subrange(a as int, i as int));
    Some(acc)
}

/// Parse `v[lo..hi]` as Rust's signed integer parsing does, with values
/// outside `[min, max]` rejected.
pub fn parse_signed_range(v: &Vec<char>, lo: usize, hi: usize, min: i64, max: i64) -> (r: Option<
    i64,
>)
    requires
        lo <= hi <= v@.len(),
        min <= 0 <= max,
    ensures
        match parse_signed(v@.subrange(lo as int, hi as int), min as int, max as int) {
            Some(x) => r == Some(x as i64),
            None => r is None,
        },
{
    let ghost s = v@.subrange(lo as int, hi as int);
    if lo < hi && v[lo] == '-' {
        let m = parse_unsigned_range(v, lo + 1, hi, 10, (0 - (min as i128)) as u64);
        proof {
            let d = s.drop_first();
            assert(d =~= v@.subrange(lo + 1, hi as int));
            if d.len() > 0 && d[0] == '+' {
                // "-+5" is not a number: the digits may not start with a sign.
                assert(digit_value(d[0], 10) < 0);
            }
        }
        match m {
            Some(x) => {
                if lo + 1 < hi && v[lo + 1] == '+' {
                    proof {
                        let d = s.drop_first();
                        assert(d[0] == '+');
                        assert(!all_digits(d, 10)) by {
                            assert(digit_value(d[0], 10) < 0);
                        }
                    }
                    None
                } else {
                    proof {
                        assert(s.drop_first() =~= v@.subrange(lo + 1, hi as int));
                    }
                    Some((0 - (x as i128)) as i64)
                }
            },
            None => {
                proof {
                    let d = s.drop_first();
                    assert(d =~= v@.subrange(lo + 1, hi as int));
                    if d.len() > 0 && d[0] == '+' {
                        assert(!all_digits(d, 10)) by {
                            assert(digit_value(d[0], 10) < 0);
                        }
                    }
                }
                None
            },
        }
    } else {
        let m = parse_unsigned_range(v, lo, hi, 10, max as u64);
        match m {
            Some(x) => Some(x as i64),
            None => None,
        }
    }
}

/// Split a text into its lines (`str::lines`).
pub fn lines(s: &str) -> (r: Vec<Vec<char>>)
    ensures
        r@.len() == lines_of(s@).len(),
        forall|i: int| 0 <= i < r@.len() ==> #[trigger] r@[i]@ == lines_of(s@)[i],
{
    let v = to_chars(s);
    let n = v.len();
    let mut out: Vec<Vec<char>> = Vec::new();
    let mut start: usize = 0;
    let ghost mut acc: Seq<Seq<char>> = seq![];
    assert(v@.subrange(0, n as int) =~= v@);
    assert(seq![] + lines_of(v@) =~= lines_of(v@));
    while start < n
        invariant
            n == v@.len(),
            v@ == s@,
            start <= n,
            out@.len() == acc.len(),
            forall|i: int| 0 <= i < out@.len() ==> #[trigger] out@[i]@ == acc[i],
            lines_of(s@) == acc + lines_of(v@.subrange(start as int, n as int)),
        decreases n - start,
    {
        let ghost rest = v@.subrange(start as int, n as int);
        let f = find_char(&v, start, n, '\n');
        match f {
            None => {
                let line = v_range(&v, start, n);
                proof {
                    assert(lines_of(rest) == seq![rest]);
                    acc = acc.push(rest);
                    assert(v@.subrange(n as int, n as int).len() == 0);
                }
                out.push(line);
                start = n;
                proof {
                    assert(lines_of(v@.subrange(start as int, n as int)) =~= seq![]);
                    assert(acc + seq![] =~= acc);
                }
            },
            Some(i) => {
                let mut e = i;
                if e > start && v[e - 1] == '\r' {
                    e = e - 1;
                }
                let line = v_range(&v, start, e);
                proof {
                    let k = index_of(rest, '\n');
                    assert(k == i - start);
                    let l0 = rest.take(k);
                    assert(l0 =~= v@.subrange(start as int, i as int));
                    if i > start && v@[i - 1] == '\r' {
                        assert(l0.drop_last() =~= v@.subrange(start as int, e as int));
                    }
                    assert(rest.skip(k + 1) =~= v@.subrange(i + 1, n as int));
                    let ln = if l0.len() > 0 && l0.last() == '\r' {
                        l0.drop_last()
                    } else {
                        l0
                    };
                    assert(lines_of(rest) == seq![ln] + lines_of(v@.subrange(i + 1, n as int)));
                    assert(ln == v@.subrange(start as int, e as int));
                    assert(acc + lines_of(rest) =~= acc.push(ln) + lines_of(
                        v@.subrange(i + 1, n as int),
                    ));
                    acc = acc.push(ln);
                }
                out.push(line);
                start = i + 1;
            },
        }
    }
    proof {
        assert(lines_of(v@.subrange(start as int, n as int)) =~= seq![]);
        assert(acc + seq![] =~= acc);
    }
    out
}

/// A copy of `v[lo..hi]`.
pub fn v_range(v: &Vec<char>, lo: usize, hi: usize) -> (r: Vec<char>)
    requires
        lo <= hi <= v@.len(),
    ensures
        r@ == v@.subrange(lo as int, hi as int),
{
    let mut r: Vec<char> = Vec::new();
    let mut i = lo;
    while i < hi
        invariant
            lo <= i <= hi <= v@.len(),
            r@ == v@.subrange(lo as int, i as int),
        decreases hi - i,
    {
        r.push(v[i]);
        assert(r@ =~= v@.subrange(lo as int, i + 1));
        i = i + 1;
    }
    r
}


/// The pieces of `s` between occurrences of `c` (`str::split` with a char);
/// always at least one piece.
pub open spec fn split_of(s: Seq<char>, c: char) -> Seq<Seq<char>>
    decreases s.len(),
{
    let i = index_of(s, c);
    proof {
        lemma_index_of(s, c);
    }
    if i < 0 {
        seq![s]
    } else {
        seq![s.take(i)] + split_of(s.skip(i + 1), c)
    }
}

/// `s` with every leading `c` removed (`trim_start_matches` with a char).
pub open spec fn strip_leading(s: Seq<char>, c: char) -> Seq<char>
    decreases s.len(),
{
    if s.len() > 0 && s[0] == c {
        strip_leading(s.drop_first(), c)
    } else {
        s
    }
}

/// Every character is ASCII.
pub open spec fn all_ascii(s: Seq<char>) -> bool {
    forall|i: int| 0 <= i < s.len() ==> (#[trigger] s[i] as u32) < 128
}

/// Start of `v[lo..hi]` after removing every leading `c`.
pub fn skip_leading(v: &Vec<char>, lo: usize, hi: usize, c: char) -> (r: usize)
    requires
        lo <= hi <= v@.len(),
    ensures
        lo <= r <= hi,
        v@.subrange(r as int, hi as int) == strip_leading(v@.subrange(lo as int, hi as int), c),
{
    let mut a = lo;
    while a < hi && v[a] == c
        invariant
            lo <= a <= hi <= v@.len(),
            strip_leading(v@.subrange(lo as int, hi as int), c) == strip_leading(
                v@.subrange(a as int, hi as int),
                c,
            ),
        decreases hi - a,
    {
        assert(v@.subrange(a as int, hi as int).drop_first() =~= v@.subrange(a + 1, hi as int));
        a = a + 1;
    }
    a
}

/// Whether `v[lo..hi]` is all ASCII.
pub fn range_is_ascii(v: &Vec<char>, lo: usize, hi: usize) -> (r: bool)
    requires
        lo <= hi <= v@.len(),
    ensures
        r == all_ascii(v@.subrange(lo as int, hi as int)),
{
    let mut i = lo;
    while i < hi
        invariant
            lo <= i <= hi <= v@.len(),
            forall|j: int| lo <= j < i ==> (v@[j] as u32) < 128,
        decreases hi - i,
    {
        if (v[i] as u32) >= 128 {
            assert((v@.subrange(lo as int, hi as int)[i - lo] as u32) >= 128);
            return false;
        }
        i = i + 1;
    }
    assert forall|j: int| 0 <= j < hi - lo implies (#[trigger] v@.subrange(lo as int, hi as int)[j] as u32) < 128 by {
        assert(v@.subrange(lo as int, hi as int)[j] == v@[lo + j]);
    }
    true
}

/// The pieces of `v[lo..hi]` between occurrences of `c`, as index ranges.
pub fn split_ranges(v: &Vec<char>, lo: usize, hi: usize, c: char) -> (r: Vec<(usize, usize)>)
    requires
        lo <= hi <= v@.len(),
    ensures
        r@.len() == split_of(v@.subrange(lo as int, hi as int), c).len(),
        forall|i: int|
            0 <= i < r@.len() ==> lo <= (#[trigger] r@[i]).0 <= r@[i].1 <= hi && v@.subrange(
                r@[i].0 as int,
                r@[i].1 as int,
            ) == split_of(v@.subrange(lo as int, hi as int), c)[i],
{
    let mut out: Vec<(usize, usize)> = Vec::new();
    let mut start = lo;
    let ghost mut acc: Seq<Seq<char>> = seq![];
    assert(seq![] + split_of(v@.subrange(lo as int, hi as int), c) =~= split_of(
        v@.subrange(lo as int, hi as int),
        c,
    ));
    loop
        invariant
            lo <= start <= hi <= v@.len(),
            out@.len() == acc.len(),
            forall|i: int|
                0 <= i < out@.len() ==> lo <= (#[trigger] out@[i]).0 <= out@[i].1 <= hi
                    && v@.subrange(out@[i].0 as int, out@[i].1 as int) == acc[i],
            split_of(v@.subrange(lo as int, hi as int), c) == acc + split_of(
                v@.subrange(start as int, hi as int),
                c,
            ),
        decreases hi - start,
    {
        let ghost rest = v@.subrange(start as int, hi as int);
        match find_char(v, start, hi, c) {
            None => {
                out.push((start, hi));
                proof {
                    assert(split_of(rest, c) == seq![rest]);
                    acc = acc.push(rest);
                    assert(acc =~= acc.subrange(0, acc.len() - 1).push(rest));
                }
                assert(split_of(v@.subrange(lo as int, hi as int), c) =~= acc);
                return out;
            },
            Some(i) => {
                out.push((start, i));
                proof {
                    let k = index_of(rest, c);
                    assert(k == i - start);
                    assert(rest.take(k) =~= v@.subrange(start as int, i as int));
                    assert(rest.skip(k + 1) =~= v@.subrange(i + 1, hi as int));
                    assert(acc + split_of(rest, c) =~= acc.push(rest.take(k)) + split_of(
                        v@.subrange(i + 1, hi as int),
                        c,
                    ));
                    acc = acc.push(rest.take(k));
                }
                start = i + 1;
            },
        }
    }
}


/// Index of the first whitespace character of `s`, or -1.
pub open spec fn ws_index(s: Seq<char>) -> int
    decreases s.len(),
{
    if s.len() == 0 {
        -1
    } else if is_ws(s[0]) {
        0
    } else {
        let r = ws_index(s.drop_first());
        if r < 0 {
            -1
        } else {
            r + 1
        }
    }
}

pub proof fn lemma_ws_index(s: Seq<char>)
    ensures
        -1 <= ws_index(s) < s.len(),
    decreases s.len(),
{
    if s.len() > 0 && !is_ws(s[0]) {
        lemma_ws_index(s.drop_first());
    }
}

pub proof fn lemma_ws_index_at(s: Seq<char>, i: int)
    requires
        0 <= i <= s.len(),
        i < s.len() ==> is_ws(s[i]),
        forall|j: int| 0 <= j < i ==> !is_ws(s[j]),
    ensures
        ws_index(s) == (if i < s.len() {
            i
        } else {
            -1
        }),
    decreases s.len(),
{
    if i > 0 {
        assert forall|j: int| 0 <= j < i - 1 implies !is_ws(s.drop_first()[j]) by {
            assert(s.drop_first()[j] == s[j + 1]);
        }
        lemma_ws_index_at(s.drop_first(), i - 1);
    }
}

pub proof fn lemma_trim_start_len(s: Seq<char>)
    ensures
        trim_start(s).len() <= s.len(),
        trim_start(s) == s.skip(s.len() - trim_start(s).len()),
        trim_start(s).len() > 0 ==> !is_ws(trim_start(s)[0]),
    decreases s.len(),
{
    if s.len() > 0 && is_ws(s[0]) {
        lemma_trim_start_len(s.drop_first());
        assert(s.drop_first().skip(s.drop_first().len() - trim_start(s.drop_first()).len())
            =~= s.skip(s.len() - trim_start(s).len()));
    } else {
        assert(s.skip(0) =~= s);
    }
}

/// The whitespace-separated words of `s` (`str::split_whitespace`).
pub open spec fn words_of(s: Seq<char>) -> Seq<Seq<char>>
    decreases s.len(),
{
    let t = trim_start(s);
    proof {
        lemma_trim_start_len(s);
        lemma_ws_index(t);
    }
    if t.len() == 0 {
        seq![]
    } else {
        let j = ws_index(t);
        if j < 0 {
            seq![t]
        } else {
            seq![t.take(j)] + words_of(t.skip(j))
        }
    }
}

/// The words of `v[lo..hi]`, as index ranges.
pub fn word_ranges(v: &Vec<char>, lo: usize, hi: usize) -> (r: Vec<(usize, usize)>)
    requires
        lo <= hi <= v@.len(),
    ensures
        r@.len() == words_of(v@.subrange(lo as int, hi as int)).len(),
        forall|i: int|
            0 <= i < r@.len() ==> lo <= (#[trigger] r@[i]).0 <= r@[i].1 <= hi && v@.subrange(
                r@[i].0 as int,
                r@[i].1 as int,
            ) == words_of(v@.subrange(lo as int, hi as int))[i],
{
    let mut out: Vec<(usize, usize)> = Vec::new();
    let mut p = lo;
    let ghost mut acc: Seq<Seq<char>> = seq![];
    assert(seq![] + words_of(v@.subrange(lo as int, hi as int)) =~= words_of(
        v@.subrange(lo as int, hi as int),
    ));
    loop
        invariant
            lo <= p <= hi <= v@.len(),
            out@.len() == acc.len(),
            forall|i: int|
                0 <= i < out@.len() ==> lo <= (#[trigger] out@[i]).0 <= out@[i].1 <= hi
                    && v@.subrange(out@[i].0 as int, out@[i].1 as int) == acc[i],
            words_of(v@.subrange(lo as int, hi as int)) == acc + words_of(
                v@.subrange(p as int, hi as int),
            ),
        decreases hi - p,
    {
        let ghost rest = v@.subrange(p as int, hi as int);
        let mut a = p;
        while a < hi && is_whitespace(v[a])
            invariant
                p <= a <= hi <= v@.len(),
                rest == v@.subrange(p as int, hi as int),
                trim_start(rest) == trim_start(v@.subrange(a as int, hi as int)),
            decreases hi - a,
        {
            assert(v@.subrange(a as int, hi as int).drop_first() =~= v@.subrange(a + 1, hi as int));
            a = a + 1;
        }
        let ghost t = v@.subrange(a as int, hi as int);
        assert(trim_start(rest) == t) by {
            if a < hi {
                assert(!is_ws(t[0]));
            }
        }
        if a == hi {
            assert(words_of(rest) =~= seq![]);
            assert(acc + seq![] =~= acc);
            return out;
        }
        let mut b = a;
        while b < hi && !is_whitespace(v[b])
            invariant
                a <= b <= hi <= v@.len(),
                forall|j: int| a <= j < b ==> !is_ws(v@[j]),
            decreases hi - b,
        {
            b = b + 1;
        }
        proof {
            lemma_ws_index_at(t, b - a);
        }
        out.push((a, b));
        proof {
            assert(t.take(b - a) =~= v@.subrange(a as int, b as int));
            if b < hi {
                assert(t.skip(b - a) =~= v@.subrange(b as int, hi as int));
                assert(words_of(rest) == seq![t.take(b - a)] + words_of(t.skip(b - a)));
                assert(acc + words_of(rest) =~= acc.push(t.take(b - a)) + words_of(
                    v@.subrange(b as int, hi as int),
                ));
            } else {
                assert(words_of(rest) == seq![t]);
                assert(t =~= v@.subrange(a as int, b as int));
                assert(words_of(v@.subrange(b as int, hi as int)) =~= seq![]) by {
                    assert(v@.subrange(b as int, hi as int).len() == 0);
                }
                assert(acc + words_of(rest) =~= acc.push(t) + words_of(
                    v@.subrange(b as int, hi as int),
                ));
            }
            acc = acc.push(t.take(b - a));
        }
        p = b;
    }
}

/// `s` with every trailing `c` removed (`trim_end_matches` with a char).
pub open spec fn strip_trailing(s: Seq<char>, c: char) -> Seq<char>
    decreases s.len(),
{
    if s.len() > 0 && s.last() == c {
        strip_trailing(s.drop_last(), c)
    } else {
        s
    }
}

/// End of `v[lo..hi]` after removing every trailing `c`.
pub fn skip_trailing(v: &Vec<char>, lo: usize, hi: usize, c: char) -> (r: usize)
    requires
        lo <= hi <= v@.len(),
    ensures
        lo <= r <= hi,
        v@.subrange(lo as int, r as int) == strip_trailing(v@.subrange(lo as int, hi as int), c),
{
    let mut b = hi;
    while b > lo && v[b - 1] == c
        invariant
            lo <= b <= hi <= v@.len(),
            strip_trailing(v@.subrange(lo as int, hi as int), c) == strip_trailing(
                v@.subrange(lo as int, b as int),
                c,
            ),
        decreases b - lo,
    {
        assert(v@.subrange(lo as int, b as int).drop_last() =~= v@.subrange(lo as int, b - 1));
        b = b - 1;
    }
    b
}

/// Whether two texts are equal.
pub fn str_eq(a: &str, b: &str) -> (r: bool)
    ensures
        r == (a@ == b@),
{
    let n = a.unicode_len();
    if n != b.unicode_len() {
        return false;
    }
    let mut i: usize = 0;
    while i < n
        invariant
            n == a@.len(),
            n == b@.len(),
            i <= n,
            forall|j: int| 0 <= j < i ==> a@[j] == b@[j],
        decreases n - i,
    {
        if a.get_char(i) != b.get_char(i) {
            return false;
        }
        i = i + 1;
    }
    assert(a@ =~= b@);
    true
}


/// `pat` occurs in `s` starting at position `i`.
pub open spec fn occurs_at(s: Seq<char>, pat: Seq<char>, i: int) -> bool {
    0 <= i && i + pat.len() <= s.len() && s.subrange(i, i + pat.len()) == pat
}

/// First position at or after `i` where `pat` occurs in `s`, or -1.
pub open spec fn find_sub_from(s: Seq<char>, pat: Seq<char>, i: int) -> int
    decreases s.len() + 1 - i,
{
    if i < 0 || i + pat.len() > s.len() {
        -1
    } else if occurs_at(s, pat, i) {
        i
    } else {
        find_sub_from(s, pat, i + 1)
    }
}

/// First position where `pat` occurs in `s`, or -1 (`str::find` with a
/// string pattern, counted in characters).
pub open spec fn find_sub(s: Seq<char>, pat: Seq<char>) -> int {
    find_sub_from(s, pat, 0)
}

/// Skipping positions where `pat` does not occur leaves the search result
/// unchanged.
pub proof fn lemma_find_sub_skip(s: Seq<char>, pat: Seq<char>, i: int, j: int)
    requires
        0 <= i <= j,
        forall|k: int| i <= k < j ==> !occurs_at(s, pat, k),
    ensures
        find_sub_from(s, pat, i) == find_sub_from(s, pat, j),
    decreases j - i,
{
    if i < j && i + pat.len() <= s.len() {
        lemma_find_sub_skip(s, pat, i + 1, j);
    } else if i < j {
        assert(find_sub_from(s, pat, j) == -1);
    }
}

/// What `find_sub` means.
pub proof fn lemma_find_sub(s: Seq<char>, pat: Seq<char>, i: int)
    requires
        0 <= i,
    ensures
        find_sub_from(s, pat, i) == -1 || (i <= find_sub_from(s, pat, i) && occurs_at(
            s,
            pat,
            find_sub_from(s, pat, i),
        )),
    decreases s.len() + 1 - i,
{
    if i + pat.len() <= s.len() && !occurs_at(s, pat, i) {
        lemma_find_sub(s, pat, i + 1);
    }
}

/// First position where `lit` occurs in `v`.
pub fn find_str(v: &Vec<char>, lit: &str) -> (r: Option<usize>)
    ensures
        r is None ==> find_sub(v@, lit@) == -1,
        r matches Some(i) ==> find_sub(v@, lit@) == i && i + lit@.len() <= v@.len(),
{
    let n = lit.unicode_len();
    if n == 0 {
        proof {
            assert(v@.subrange(0, 0) =~= lit@);
        }
        return Some(0);
    }
    if n > v.len() {
        proof {
            assert(find_sub_from(v@, lit@, 0) == -1);
        }
        return None;
    }
    let mut i: usize = 0;
    while i <= v.len() - n
        invariant
            n == lit@.len(),
            0 < n <= v@.len(),
            i <= v@.len() - n + 1,
            forall|k: int| 0 <= k < i ==> !occurs_at(v@, lit@, k),
        decreases v@.len() - n + 1 - i,
    {
        if range_eq(v, i, i + n, lit) {
            proof {
                lemma_find_sub_skip(v@, lit@, 0, i as int);
            }
            return Some(i);
        }
        i = i + 1;
    }
    proof {
        lemma_find_sub_skip(v@, lit@, 0, i as int);
    }
    None
}

/// Start of `v[lo..hi]` with its leading whitespace removed.
pub fn trim_start_range(v: &Vec<char>, lo: usize, hi: usize) -> (r: usize)
    requires
        lo <= hi <= v@.len(),
    ensures
        lo <= r <= hi,
        v@.subrange(r as int, hi as int) == trim_start(v@.subrange(lo as int, hi as int)),
{
    let mut a = lo;
    while a < hi && is_whitespace(v[a])
        invariant
            lo <= a <= hi <= v@.len(),
            trim_start(v@.subrange(lo as int, hi as int)) == trim_start(
                v@.subrange(a as int, hi as int),
            ),
        decreases hi - a,
    {
        assert(v@.subrange(a as int, hi as int).drop_first() =~= v@.subrange(a + 1, hi as int));
        a = a + 1;
    }
    proof {
        let t = v@.subrange(a as int, hi as int);
        if a < hi {
            assert(!is_ws(t[0]));
        }
        assert(trim_start(t) == t);
    }
    a
}

/// Index of the first character of `s` that is not an ASCII digit, or -1.
pub open spec fn first_non_digit(s: Seq<char>) -> int
    decreases s.len(),
{
    if s.len() == 0 {
        -1
    } else if !('0' <= s[0] && s[0] <= '9') {
        0
    } else {
        let r = first_non_digit(s.drop_first());
        if r < 0 {
            -1
        } else {
            r + 1
        }
    }
}

/// What `first_non_digit` means.
pub proof fn lemma_first_non_digit(s: Seq<char>)
    ensures
        -1 <= first_non_digit(s) < s.len(),
        first_non_digit(s) >= 0 ==> !('0' <= s[first_non_digit(s)] && s[first_non_digit(s)] <= '9'),
        forall|j: int|
            0 <= j < s.len() && (first_non_digit(s) < 0 || j < first_non_digit(s)) ==> '0' <= s[j]
                && s[j] <= '9',
    decreases s.len(),
{
    if s.len() > 0 && '0' <= s[0] && s[0] <= '9' {
        lemma_first_non_digit(s.drop_first());
        assert forall|j: int|
            0 <= j < s.len() && (first_non_digit(s) < 0 || j < first_non_digit(s)) implies '0'
                <= s[j] && s[j] <= '9' by {
            if j > 0 {
                assert(s[j] == s.drop_first()[j - 1]);
            }
        }
    }
}

/// Position of the first non-digit in `v[lo..hi]`.
pub fn find_non_digit(v: &Vec<char>, lo: usize, hi: usize) -> (r: Option<usize>)
    requires
        lo <= hi <= v@.len(),
    ensures
        r is None ==> first_non_digit(v@.subrange(lo as int, hi as int)) == -1,
        r matches Some(i) ==> lo <= i < hi && first_non_digit(v@.subrange(lo as int, hi as int))
            == i - lo,
    decreases hi - lo,
{
    if lo == hi {
        return None;
    }
    let ghost s = v@.subrange(lo as int, hi as int);
    assert(s.drop_first() =~= v@.subrange(lo + 1, hi as int));
    if !('0' <= v[lo] && v[lo] <= '9') {
        return Some(lo);
    }
    match find_non_digit(v, lo + 1, hi) {
        None => None,
        Some(i) => Some(i),
    }
}

} // verus!
