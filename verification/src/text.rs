//! Texts as sequences of characters: comparing and joining them, reading
//! and writing unsigned decimal numbers, and the lowercase and trimmed
//! forms that the standard library computes.

use vstd::prelude::*;
use vstd::string::*;

verus! {

/// True for the ASCII digits `0` to `9`.
pub open spec fn is_digit(c: char) -> bool {
    '0' <= c && c <= '9'
}

/// The number a digit stands for.
pub open spec fn digit_value(c: char) -> nat
    recommends
        is_digit(c),
{
    (c as int - '0' as int) as nat
}

/// True if every character of `s` is an ASCII digit.
pub open spec fn all_digits(s: Seq<char>) -> bool {
    forall|i: int| 0 <= i < s.len() ==> is_digit(#[trigger] s[i])
}

/// The number that a sequence of digits denotes in base ten; 0 for the empty
/// sequence.
pub open spec fn decimal_value(s: Seq<char>) -> nat
    decreases s.len(),
{
    if s.len() == 0 {
        0
    } else {
        decimal_value(s.drop_last()) * 10 + digit_value(s.last())
    }
}

/// The digits of an unsigned decimal literal: `s` without one leading `+`.
pub open spec fn unsigned_digits(s: Seq<char>) -> Seq<char> {
    if s.len() > 0 && s[0] == '+' {
        s.skip(1)
    } else {
        s
    }
}

/// The value of `s` read as an unsigned decimal number of any size: an
/// optional `+` followed by one or more ASCII digits and nothing else.
/// `None` for any other text.
pub open spec fn parse_number(s: Seq<char>) -> Option<nat> {
    let digits = unsigned_digits(s);
    if digits.len() > 0 && all_digits(digits) {
        Some(decimal_value(digits))
    } else {
        None
    }
}

/// The value of `s` read as an unsigned decimal number no greater than
/// `max`. `None` for a text that is no number and for a value above `max`.
pub open spec fn parse_unsigned(s: Seq<char>, max: nat) -> Option<nat> {
    match parse_number(s) {
        Some(n) => if n <= max {
            Some(n)
        } else {
            None
        },
        None => None,
    }
}

/// A digit sequence denotes at least as much as each of its prefixes.
proof fn lemma_decimal_value_prefix(s: Seq<char>, k: int)
    requires
        0 <= k <= s.len(),
    ensures
        decimal_value(s.take(k)) <= decimal_value(s),
    decreases s.len(),
{
    if k < s.len() {
        lemma_decimal_value_prefix(s.drop_last(), k);
        assert(s.drop_last().take(k) =~= s.take(k));
    } else {
        assert(s.take(k) =~= s);
    }
}

/// The characters of `s`, in order.
pub fn chars_of(s: &str) -> (chars: Vec<char>)
    ensures
        chars@ == s@,
{
    let mut chars: Vec<char> = Vec::new();
    for c in it: s.chars()
        invariant
            it.seq() == s@,
            chars@ == s@.take(it.index() as int),
    {
        chars.push(c);
    }
    chars
}

/// Reads `chars[from..to]` as an unsigned decimal number no greater than
/// `max`.
pub(crate) fn parse_decimal(chars: &Vec<char>, from: usize, to: usize, max: u64) -> (value:
    Option<u64>)
    requires
        from <= to <= chars.len(),
    ensures
        match value {
            Some(v) => parse_unsigned(chars@.subrange(from as int, to as int), max as nat)
                == Some(v as nat),
            None => parse_unsigned(chars@.subrange(from as int, to as int), max as nat) is None,
        },
{
    let ghost text = chars@.subrange(from as int, to as int);
    let start: usize = if from < to && chars[from] == '+' {
        from + 1
    } else {
        from
    };
    let ghost digits = chars@.subrange(start as int, to as int);
    assert(digits =~= unsigned_digits(text));
    if start == to {
        return None;
    }
    let mut acc: u64 = 0;
    let mut i: usize = start;
    while i < to
        invariant
            start <= i <= to <= chars.len(),
            digits == chars@.subrange(start as int, to as int),
            digits == unsigned_digits(chars@.subrange(from as int, to as int)),
            all_digits(digits.take(i - start)),
            acc == decimal_value(digits.take(i - start)),
            acc <= max,
        decreases to - i,
    {
        let c = chars[i];
        assert(c == digits[i - start]);
        if !(c >= '0' && c <= '9') {
            assert(!is_digit(digits[i - start]));
            return None;
        }
        let d: u64 = (c as u32 - '0' as u32) as u64;
        let ghost next = digits.take(i - start + 1);
        assert(next.drop_last() =~= digits.take(i - start));
        assert(next.last() == c);
        assert(decimal_value(next) == acc * 10 + d);
        if d > max || acc > (max - d) / 10 {
            proof {
                lemma_decimal_value_prefix(digits, i - start + 1);
                assert(decimal_value(next) > max);
            }
            return None;
        }
        acc = acc * 10 + d;
        i = i + 1;
    }
    assert(digits.take(i - start) =~= digits);
    Some(acc)
}

/// How one number stands to another.
#[derive(Debug, Clone, Copy, PartialEq, Eq, Structural)]
pub enum Rank {
    Below,
    Same,
    Above,
}

/// How `x` stands to `y`.
pub open spec fn rank_of(x: nat, y: nat) -> Rank {
    if x < y {
        Rank::Below
    } else if x == y {
        Rank::Same
    } else {
        Rank::Above
    }
}

/// `s` with zeros in front of it, `n` characters in all.
pub open spec fn zero_padded(s: Seq<char>, n: int) -> Seq<char>
    recommends
        s.len() <= n,
{
    Seq::new((n - s.len()) as nat, |i: int| '0') + s
}

/// Zeros in front of a digit sequence leave its value as it is.
proof fn lemma_zero_padded(s: Seq<char>, n: int)
    requires
        s.len() <= n,
        all_digits(s),
    ensures
        all_digits(zero_padded(s, n)),
        decimal_value(zero_padded(s, n)) == decimal_value(s),
        zero_padded(s, n).len() == n,
    decreases n,
{
    let padded = zero_padded(s, n);
    if n > 0 {
        if s.len() > 0 {
            lemma_zero_padded(s.drop_last(), n - 1);
            assert(padded.drop_last() =~= zero_padded(s.drop_last(), n - 1));
            assert(padded.last() == s.last());
        } else {
            lemma_zero_padded(s, n - 1);
            assert(padded.drop_last() =~= zero_padded(s, n - 1));
            assert(padded.last() == '0');
            assert(decimal_value(s) == 0);
        }
    } else {
        assert(padded =~= s);
    }
}

/// Of two digit sequences of one length, the one with the smaller prefix
/// denotes the smaller number.
proof fn lemma_prefix_decides(a: Seq<char>, b: Seq<char>, k: int)
    requires
        all_digits(a),
        all_digits(b),
        a.len() == b.len(),
        0 <= k <= a.len(),
        decimal_value(a.take(k)) < decimal_value(b.take(k)),
    ensures
        decimal_value(a) < decimal_value(b),
    decreases a.len(),
{
    if k < a.len() {
        assert(a.drop_last().take(k) =~= a.take(k));
        assert(b.drop_last().take(k) =~= b.take(k));
        lemma_prefix_decides(a.drop_last(), b.drop_last(), k);
        assert(is_digit(a.last()) && is_digit(b.last()));
    } else {
        assert(a.take(k) =~= a);
        assert(b.take(k) =~= b);
    }
}

/// The digit at position `p` of `chars[from..to]` with zeros in front of
/// it, `n` characters in all.
fn padded_digit(chars: &Vec<char>, from: usize, to: usize, n: usize, p: usize) -> (c: char)
    requires
        from <= to <= chars.len(),
        to - from <= n,
        p < n,
    ensures
        c == zero_padded(chars@.subrange(from as int, to as int), n as int)[p as int],
{
    let zeros = n - (to - from);
    if p < zeros {
        '0'
    } else {
        chars[from + (p - zeros)]
    }
}

/// Compares the numbers that the digits `a[a_from..a_to]` and
/// `b[b_from..b_to]` denote, whatever their size.
pub(crate) fn rank_digits(
    a: &Vec<char>,
    a_from: usize,
    a_to: usize,
    b: &Vec<char>,
    b_from: usize,
    b_to: usize,
) -> (rank: Rank)
    requires
        a_from <= a_to <= a.len(),
        b_from <= b_to <= b.len(),
        all_digits(a@.subrange(a_from as int, a_to as int)),
        all_digits(b@.subrange(b_from as int, b_to as int)),
    ensures
        rank == rank_of(
            decimal_value(a@.subrange(a_from as int, a_to as int)),
            decimal_value(b@.subrange(b_from as int, b_to as int)),
        ),
{
    let n: usize = if a_to - a_from > b_to - b_from {
        a_to - a_from
    } else {
        b_to - b_from
    };
    let ghost x = zero_padded(a@.subrange(a_from as int, a_to as int), n as int);
    let ghost y = zero_padded(b@.subrange(b_from as int, b_to as int), n as int);
    proof {
        lemma_zero_padded(a@.subrange(a_from as int, a_to as int), n as int);
        lemma_zero_padded(b@.subrange(b_from as int, b_to as int), n as int);
    }
    let mut p: usize = 0;
    while p < n
        invariant
            a_from <= a_to <= a.len(),
            b_from <= b_to <= b.len(),
            a_to - a_from <= n,
            b_to - b_from <= n,
            0 <= p <= n,
            x == zero_padded(a@.subrange(a_from as int, a_to as int), n as int),
            y == zero_padded(b@.subrange(b_from as int, b_to as int), n as int),
            x.len() == n,
            y.len() == n,
            all_digits(x),
            all_digits(y),
            decimal_value(x) == decimal_value(a@.subrange(a_from as int, a_to as int)),
            decimal_value(y) == decimal_value(b@.subrange(b_from as int, b_to as int)),
            x.take(p as int) == y.take(p as int),
        decreases n - p,
    {
        let c = padded_digit(a, a_from, a_to, n, p);
        let d = padded_digit(b, b_from, b_to, n, p);
        proof {
            assert(x.take(p + 1).drop_last() =~= x.take(p as int));
            assert(y.take(p + 1).drop_last() =~= y.take(p as int));
            assert(x.take(p + 1).last() == c);
            assert(y.take(p + 1).last() == d);
            assert(is_digit(x[p as int]) && is_digit(y[p as int]));
        }
        if c < d {
            proof {
                lemma_prefix_decides(x, y, p + 1);
            }
            return Rank::Below;
        }
        if c > d {
            proof {
                lemma_prefix_decides(y, x, p + 1);
            }
            return Rank::Above;
        }
        assert(x.take(p + 1) =~= y.take(p + 1));
        p = p + 1;
    }
    assert(x.take(n as int) =~= x);
    assert(y.take(n as int) =~= y);
    Rank::Same
}

/// The digits of the number that `chars[from..to]` holds, as a range of
/// `chars`: the text without one leading `+`, if that is one or more
/// digits and nothing else.
pub(crate) fn digit_range(chars: &Vec<char>, from: usize, to: usize) -> (digits: Option<
    (usize, usize),
>)
    requires
        from <= to <= chars.len(),
    ensures
        match digits {
            Some((start, end)) => {
                &&& from <= start <= end == to
                &&& all_digits(chars@.subrange(start as int, end as int))
                &&& parse_number(chars@.subrange(from as int, to as int)) == Some(
                    decimal_value(chars@.subrange(start as int, end as int)),
                )
            },
            None => parse_number(chars@.subrange(from as int, to as int)) is None,
        },
{
    let start: usize = if from < to && chars[from] == '+' {
        from + 1
    } else {
        from
    };
    let ghost digits = chars@.subrange(start as int, to as int);
    assert(digits =~= unsigned_digits(chars@.subrange(from as int, to as int)));
    if start == to {
        return None;
    }
    let mut i: usize = start;
    while i < to
        invariant
            start <= i <= to <= chars.len(),
            digits == chars@.subrange(start as int, to as int),
            digits == unsigned_digits(chars@.subrange(from as int, to as int)),
            forall|j: int| 0 <= j < i - start ==> is_digit(#[trigger] digits[j]),
        decreases to - i,
    {
        let c = chars[i];
        assert(c == digits[i - start]);
        if !(c >= '0' && c <= '9') {
            assert(!is_digit(digits[i - start]));
            return None;
        }
        i = i + 1;
    }
    Some((start, to))
}

/// True if `a[from..]` and `b` hold the same characters.
pub(crate) fn same_chars_from(a: &Vec<char>, from: usize, b: &Vec<char>) -> (same: bool)
    requires
        from <= a.len(),
    ensures
        same == (a@.skip(from as int) == b@),
{
    if a.len() - from != b.len() {
        return false;
    }
    let mut i: usize = 0;
    while i < b.len()
        invariant
            from <= a.len(),
            a.len() - from == b.len(),
            0 <= i <= b.len(),
            forall|j: int| 0 <= j < i ==> a@[from + j] == b@[j],
        decreases b.len() - i,
    {
        if a[from + i] != b[i] {
            assert(a@.skip(from as int)[i as int] != b@[i as int]);
            return false;
        }
        i = i + 1;
    }
    assert(a@.skip(from as int) =~= b@);
    true
}

/// True if `a` and `b` hold the same characters.
pub fn same_text(a: &str, b: &str) -> (same: bool)
    ensures
        same == (a@ == b@),
{
    let a_chars = chars_of(a);
    let b_chars = chars_of(b);
    assert(a_chars@.skip(0) =~= a@);
    same_chars_from(&a_chars, 0, &b_chars)
}

/// `a` followed by `b`.
pub fn concat(a: &str, b: &str) -> (joined: String)
    ensures
        joined@ == a@ + b@,
{
    let mut joined = String::from_str(a);
    joined.append(b);
    joined
}

/// The character that stands for the digit `d`.
pub open spec fn digit_char(d: nat) -> char
    recommends
        d < 10,
{
    ('0' as int + d) as char
}

/// The decimal digits of `n`, without leading zeros.
pub open spec fn decimal_digits(n: nat) -> Seq<char>
    decreases n,
{
    if n < 10 {
        seq![digit_char(n)]
    } else {
        decimal_digits(n / 10).push(digit_char(n % 10))
    }
}

/// The decimal digits of a number are digits, and denote the number.
pub proof fn lemma_decimal_digits_value(n: nat)
    ensures
        decimal_digits(n).len() > 0,
        all_digits(decimal_digits(n)),
        decimal_value(decimal_digits(n)) == n,
        decimal_digits(n)[0] != '+',
    decreases n,
{
    if n < 10 {
        let s = seq![digit_char(n)];
        assert(s.drop_last() =~= Seq::<char>::empty());
        assert(decimal_value(s.drop_last()) == 0);
    } else {
        lemma_decimal_digits_value(n / 10);
        let s = decimal_digits(n);
        assert(s.drop_last() =~= decimal_digits(n / 10));
    }
}

/// Reading the decimal digits of a number gives the number back.
pub proof fn lemma_parse_decimal_digits(n: nat, max: nat)
    requires
        n <= max,
    ensures
        parse_unsigned(decimal_digits(n), max) == Some(n),
{
    lemma_decimal_digits_value(n);
}

/// The text of one digit.
fn digit_text(d: u64) -> (text: &'static str)
    requires
        d < 10,
    ensures
        text@ == seq![digit_char(d as nat)],
{
    proof {
        reveal_strlit("0");
        reveal_strlit("1");
        reveal_strlit("2");
        reveal_strlit("3");
        reveal_strlit("4");
        reveal_strlit("5");
        reveal_strlit("6");
        reveal_strlit("7");
        reveal_strlit("8");
        reveal_strlit("9");
    }
    let text = if d == 0 {
        "0"
    } else if d == 1 {
        "1"
    } else if d == 2 {
        "2"
    } else if d == 3 {
        "3"
    } else if d == 4 {
        "4"
    } else if d == 5 {
        "5"
    } else if d == 6 {
        "6"
    } else if d == 7 {
        "7"
    } else if d == 8 {
        "8"
    } else {
        "9"
    };
    assert(text@ =~= seq![digit_char(d as nat)]);
    text
}

/// Appends the decimal digits of `n` to `out`.
fn append_decimal(out: &mut String, n: u64)
    ensures
        final(out)@ == old(out)@ + decimal_digits(n as nat),
    decreases n,
{
    if n >= 10 {
        append_decimal(out, n / 10);
    }
    out.append(digit_text(n % 10));
    assert(out@ =~= old(out)@ + decimal_digits(n as nat));
}

/// `n` in decimal digits, without leading zeros.
pub fn decimal_text(n: u64) -> (text: String)
    ensures
        text@ == decimal_digits(n as nat),
{
    let mut text = String::new();
    append_decimal(&mut text, n);
    assert(text@ =~= decimal_digits(n as nat));
    text
}

/// The lowercase form of a text, by the Unicode rules that
/// `str::to_lowercase` follows.
pub uninterp spec fn lowercase(s: Seq<char>) -> Seq<char>;

/// The lowercase form of `s`.
///
/// Calls `str::to_lowercase`. Trusted: the result is the lowercase form of
/// the argument and depends on nothing else.
#[verifier::external_body]
pub(crate) fn to_lowercase(s: &str) -> (lower: String)
    ensures
        lower@ == lowercase(s@),
{
    s.to_lowercase()
}

/// True for the characters with the Unicode property White_Space: the
/// controls U+0009 to U+000D and U+0085, and the spaces U+0020, U+00A0,
/// U+1680, U+2000 to U+200A, U+2028, U+2029, U+202F, U+205F and U+3000.
pub open spec fn is_white_space(c: char) -> bool {
    let n = c as int;
    ||| 0x09 <= n <= 0x0D
    ||| n == 0x20
    ||| n == 0x85
    ||| n == 0xA0
    ||| n == 0x1680
    ||| 0x2000 <= n <= 0x200A
    ||| n == 0x2028
    ||| n == 0x2029
    ||| n == 0x202F
    ||| n == 0x205F
    ||| n == 0x3000
}

/// `s` without the white space at its start.
pub open spec fn trimmed_start(s: Seq<char>) -> Seq<char>
    decreases s.len(),
{
    if s.len() > 0 && is_white_space(s[0]) {
        trimmed_start(s.skip(1))
    } else {
        s
    }
}

/// `s` without the white space at its end.
pub open spec fn trimmed_end(s: Seq<char>) -> Seq<char>
    decreases s.len(),
{
    if s.len() > 0 && is_white_space(s.last()) {
        trimmed_end(s.drop_last())
    } else {
        s
    }
}

/// `s` without the white space at its two ends.
pub open spec fn trimmed(s: Seq<char>) -> Seq<char> {
    trimmed_end(trimmed_start(s))
}

/// A text that neither starts nor ends with white space is its own
/// trimmed form. So is the text of a number in decimal digits.
pub proof fn lemma_trimmed_digits(n: nat)
    ensures
        trimmed(decimal_digits(n)) == decimal_digits(n),
{
    lemma_decimal_digits_value(n);
    let s = decimal_digits(n);
    assert(is_digit(s[0]) && is_digit(s.last()));
}

/// `s` without leading and trailing white space.
///
/// Calls `str::trim`. Trusted: the result is the argument without the
/// characters of the Unicode property White_Space at its start and at its
/// end, as the documentation of `str::trim` and `char::is_whitespace` has
/// it.
#[verifier::external_body]
pub(crate) fn trim(s: &str) -> (inner: &str)
    ensures
        inner@ == trimmed(s@),
{
    s.trim()
}

} // verus!
