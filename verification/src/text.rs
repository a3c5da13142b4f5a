//! Text helpers shared by the rest of the crate: conversion between strings
//! and character vectors, prefix handling and decimal numbers.

use vstd::prelude::*;
use vstd::std_specs::iter::IteratorSpec;
use vstd::string::*;

verus! {

/// Appends one character to `s`.
///
/// Trusted: `String::push` of the standard library, which is documented to
/// append the given character to the end of the string.
#[verifier::external_body]
pub(crate) fn push_char(s: &mut String, c: char)
    ensures
        final(s)@ == old(s)@.push(c),
{
    s.push(c)
}

/// The characters of `s`, in order.
pub fn chars_of(s: &str) -> (out: Vec<char>)
    ensures
        out@ == s@,
{
    let mut out: Vec<char> = Vec::new();
    for c in it: s.chars()
        invariant
            it.seq() == s@,
            out@ == it.seq().take(it.index()),
    {
        out.push(c);
    }
    out
}

/// The string made of the characters `v[from..to]`.
fn string_of_range(v: &Vec<char>, from: usize, to: usize) -> (out: String)
    requires
        from <= to <= v.len(),
    ensures
        out@ == v@.subrange(from as int, to as int),
{
    let mut out = String::new();
    let mut i: usize = from;
    while i < to
        invariant
            from <= i <= to <= v.len(),
            out@ == v@.subrange(from as int, i as int),
        decreases to - i,
    {
        push_char(&mut out, v[i]);
        i += 1;
    }
    out
}

/// The string made of the characters of `v`.
pub fn string_of(v: &Vec<char>) -> (out: String)
    ensures
        out@ == v@,
{
    string_of_range(v, 0, v.len())
}

/// Whether two strings hold the same characters.
pub fn same_text(a: &str, b: &str) -> (r: bool)
    ensures
        r == (a@ == b@),
{
    a.to_owned() == b.to_owned()
}

/// `a` followed by `b`.
pub fn join2(a: &str, b: &str) -> (out: String)
    ensures
        out@ == a@ + b@,
{
    let mut out = a.to_owned();
    out.append(b);
    out
}

/// The character of the decimal digit `d`, for `d` from 0 to 9.
pub open spec fn digit_char(d: int) -> char {
    (('0' as u8) + d) as u8 as char
}

/// The decimal digits of `n`, most significant first, without leading zeros.
pub open spec fn decimal_nat(n: nat) -> Seq<char>
    decreases n,
{
    if n < 10 {
        seq![digit_char(n as int)]
    } else {
        decimal_nat(n / 10).push(digit_char((n % 10) as int))
    }
}

/// The decimal text of `v`: a minus sign for a negative number, then its digits.
pub open spec fn decimal_int(v: int) -> Seq<char> {
    if v < 0 {
        seq!['-'] + decimal_nat((-v) as nat)
    } else {
        decimal_nat(v as nat)
    }
}

fn digit_of(d: u64) -> (c: char)
    requires
        d < 10,
    ensures
        c == digit_char(d as int),
{
    let b: u8 = 48 + (d as u8);
    b as char
}

/// The decimal digits of `n` as characters.
pub fn digits_of(n: u64) -> (out: Vec<char>)
    ensures
        out@ == decimal_nat(n as nat),
{
    let mut out: Vec<char> = Vec::new();
    out.push(digit_of(n % 10));
    let mut rest: u64 = n / 10;
    while rest > 0
        invariant
            decimal_nat(n as nat) == (if rest > 0 {
                decimal_nat(rest as nat)
            } else {
                Seq::<char>::empty()
            }) + out@,
        decreases rest,
    {
        let ghost before = out@;
        out.insert(0, digit_of(rest % 10));
        assert(out@ == seq![digit_char((rest % 10) as int)] + before);
        let ghost head = if rest / 10 > 0 {
            decimal_nat((rest / 10) as nat)
        } else {
            Seq::<char>::empty()
        };
        assert(decimal_nat(rest as nat) == head + seq![digit_char((rest % 10) as int)]);
        assert(decimal_nat(n as nat) == head + out@);
        rest = rest / 10;
    }
    out
}

/// The decimal text of `n`, as `{}` prints an integer.
pub fn format_u64(n: u64) -> (out: String)
    ensures
        out@ == decimal_int(n as int),
{
    let digits = digits_of(n);
    string_of(&digits)
}

/// The decimal text of `v`, as `{}` prints an integer.
pub fn format_i64(v: i64) -> (out: String)
    ensures
        out@ == decimal_int(v as int),
{
    if v < 0 {
        let magnitude: u64 = ((-(v + 1)) as u64) + 1;
        let digits = digits_of(magnitude);
        let mut out = String::from_str("-");
        let tail = string_of(&digits);
        out.append(tail.as_str());
        proof {
            reveal_strlit("-");
            assert("-"@ == seq!['-']);
        }
        out
    } else {
        let digits = digits_of(v as u64);
        string_of(&digits)
    }
}

/// What is left of `s` after `prefix`, if `s` starts with it.
pub open spec fn stripped(s: Seq<char>, prefix: Seq<char>) -> Option<Seq<char>> {
    if prefix.is_prefix_of(s) {
        Some(s.skip(prefix.len() as int))
    } else {
        None
    }
}

/// Removes `prefix` from the front of `s`; `None` where `s` does not start
/// with it.
pub fn strip_prefix(s: &str, prefix: &str) -> (r: Option<String>)
    ensures
        match r {
            Some(rest) => stripped(s@, prefix@) == Some(rest@),
            None => stripped(s@, prefix@) is None,
        },
{
    let text = chars_of(s);
    let head = chars_of(prefix);
    if head.len() > text.len() {
        return None;
    }
    let mut i: usize = 0;
    while i < head.len()
        invariant
            i <= head.len() <= text.len(),
            text@ == s@,
            head@ == prefix@,
            forall|k: int| 0 <= k < i ==> text@[k] == head@[k],
        decreases head.len() - i,
    {
        if text[i] != head[i] {
            assert(s@.subrange(0, prefix@.len() as int)[i as int] != prefix@[i as int]);
            return None;
        }
        i += 1;
    }
    assert(prefix@ =~= s@.subrange(0, prefix@.len() as int));
    Some(string_of_range(&text, head.len(), text.len()))
}

/// Whether `s` starts with `prefix`.
pub fn starts_with(s: &str, prefix: &str) -> (r: bool)
    ensures
        r == prefix@.is_prefix_of(s@),
{
    strip_prefix(s, prefix).is_some()
}

/// Whether `c` is one of the ten ASCII digits.
pub open spec fn is_digit(c: char) -> bool {
    '0' <= c <= '9'
}

/// The number that the decimal digits `s` write; leading zeros count for nothing.
pub open spec fn digits_value(s: Seq<char>) -> nat
    decreases s.len(),
{
    if s.len() == 0 {
        0
    } else {
        (digits_value(s.drop_last()) * 10 + (s.last() as u8 - '0' as u8)) as nat
    }
}

/// Whether `s` is one or more decimal digits.
pub open spec fn all_digits(s: Seq<char>) -> bool {
    s.len() > 0 && forall|i: int| 0 <= i < s.len() ==> is_digit(#[trigger] s[i])
}

/// The integer that `s` writes in decimal, as the standard library reads one
/// from a string: an optional sign (`-` only where `lowest` is negative),
/// then one or more digits and nothing else, the value within
/// `lowest..=highest`.
pub open spec fn parsed_decimal(s: Seq<char>, lowest: int, highest: int) -> Option<int> {
    let negative = s.len() > 0 && s[0] == '-' && lowest < 0;
    let signed = s.len() > 0 && (s[0] == '+' || negative);
    let digits = if signed {
        s.skip(1)
    } else {
        s
    };
    let value = if negative {
        -(digits_value(digits) as int)
    } else {
        digits_value(digits) as int
    };
    if all_digits(digits) && lowest <= value <= highest {
        Some(value)
    } else {
        None
    }
}

proof fn lemma_digits_value_grows(s: Seq<char>, n: int)
    requires
        0 <= n < s.len(),
        is_digit(s[n]),
    ensures
        s.take(n + 1).drop_last() == s.take(n),
        digits_value(s.take(n + 1)) == digits_value(s.take(n)) * 10 + (s[n] as u8 - '0' as u8),
        digits_value(s.take(n + 1)) >= digits_value(s.take(n)),
{
    assert(s.take(n + 1).drop_last() =~= s.take(n));
    assert(s.take(n + 1).last() == s[n]);
}

/// Reads the digits `v[from..]` as a number no greater than `limit`.
fn parse_digits(v: &Vec<char>, from: usize, limit: u64) -> (r: Option<u64>)
    requires
        from <= v.len(),
    ensures
        match r {
            Some(n) => all_digits(v@.skip(from as int)) && n == digits_value(v@.skip(from as int))
                && n <= limit,
            None => !all_digits(v@.skip(from as int)) || digits_value(v@.skip(from as int))
                > limit,
        },
{
    let ghost body = v@.skip(from as int);
    if from == v.len() {
        return None;
    }
    let mut acc: u64 = 0;
    let mut over = false;
    let mut i: usize = from;
    assert(body.take(0) =~= Seq::<char>::empty());
    while i < v.len()
        invariant
            from <= i <= v.len(),
            body == v@.skip(from as int),
            forall|k: int| 0 <= k < i - from ==> is_digit(#[trigger] body[k]),
            !over ==> acc == digits_value(body.take(i - from)) && acc <= limit,
            over ==> digits_value(body.take(i - from)) > limit,
        decreases v.len() - i,
    {
        let c = v[i];
        if c < '0' || c > '9' {
            assert(!is_digit(body[i - from]));
            return None;
        }
        proof {
            lemma_digits_value_grows(body, i - from);
        }
        if !over {
            let d: u128 = ((c as u8) - 48) as u128;
            let next: u128 = (acc as u128) * 10 + d;
            if next > limit as u128 {
                over = true;
            } else {
                acc = next as u64;
            }
        }
        i += 1;
    }
    assert(body.take(body.len() as int) =~= body);
    if over {
        None
    } else {
        Some(acc)
    }
}

/// Reads a decimal integer within `lowest..=highest` from `s`.
fn parse_decimal(s: &str, lowest: i64, highest: i64) -> (r: Option<i64>)
    requires
        lowest <= 0 <= highest,
    ensures
        match r {
            Some(n) => parsed_decimal(s@, lowest as int, highest as int) == Some(n as int),
            None => parsed_decimal(s@, lowest as int, highest as int) is None,
        },
{
    let v = chars_of(s);
    let negative = v.len() > 0 && v[0] == '-' && lowest < 0;
    let signed = v.len() > 0 && (v[0] == '+' || negative);
    let from: usize = if signed {
        1
    } else {
        0
    };
    assert(v@.skip(0) =~= v@);
    if negative {
        let limit: u64 = ((-(lowest + 1)) as u64) + 1;
        match parse_digits(&v, from, limit) {
            Some(n) => {
                if n == 0 {
                    Some(0)
                } else {
                    Some(-((n - 1) as i64) - 1)
                }
            },
            None => None,
        }
    } else {
        match parse_digits(&v, from, highest as u64) {
            Some(n) => Some(n as i64),
            None => None,
        }
    }
}

/// The port number, or any other 16-bit unsigned integer, that `s` writes
/// in decimal.
pub fn parse_u16(s: &str) -> (r: Option<u16>)
    ensures
        match r {
            Some(n) => parsed_decimal(s@, 0, 65535) == Some(n as int),
            None => parsed_decimal(s@, 0, 65535) is None,
        },
{
    match parse_decimal(s, 0, 65535) {
        Some(n) => Some(n as u16),
        None => None,
    }
}

/// The 64-bit signed integer that `s` writes in decimal.
pub fn parse_i64(s: &str) -> (r: Option<i64>)
    ensures
        match r {
            Some(n) => parsed_decimal(s@, i64::MIN as int, i64::MAX as int) == Some(n as int),
            None => parsed_decimal(s@, i64::MIN as int, i64::MAX as int) is None,
        },
{
    parse_decimal(s, i64::MIN, i64::MAX)
}

/// Whether `c` is white space, as Unicode defines it (the property
/// `White_Space`, which `char::is_whitespace` tests).
pub open spec fn is_space(c: char) -> bool {
    let n = c as u32;
    ||| 0x09 <= n <= 0x0d
    ||| n == 0x20
    ||| n == 0x85
    ||| n == 0xa0
    ||| n == 0x1680
    ||| 0x2000 <= n <= 0x200a
    ||| n == 0x2028
    ||| n == 0x2029
    ||| n == 0x202f
    ||| n == 0x205f
    ||| n == 0x3000
}

/// Whether `c` is white space.
pub fn char_is_space(c: char) -> (r: bool)
    ensures
        r == is_space(c),
{
    let n: u32 = c as u32;
    (0x09 <= n && n <= 0x0d) || n == 0x20 || n == 0x85 || n == 0xa0 || n == 0x1680 || (0x2000 <= n
        && n <= 0x200a) || n == 0x2028 || n == 0x2029 || n == 0x202f || n == 0x205f || n == 0x3000
}

/// `s` without the white space at its start.
pub open spec fn trimmed_start(s: Seq<char>) -> Seq<char>
    decreases s.len(),
{
    if s.len() > 0 && is_space(s[0]) {
        trimmed_start(s.skip(1))
    } else {
        s
    }
}

/// `s` without the white space at its end.
pub open spec fn trimmed_end(s: Seq<char>) -> Seq<char>
    decreases s.len(),
{
    if s.len() > 0 && is_space(s.last()) {
        trimmed_end(s.drop_last())
    } else {
        s
    }
}

/// `s` without the white space at its start and at its end.
pub open spec fn trimmed(s: Seq<char>) -> Seq<char> {
    trimmed_end(trimmed_start(s))
}

/// The characters `v[from..to]` without the white space at both ends.
fn trim_range(v: &Vec<char>, from: usize, to: usize) -> (out: String)
    requires
        from <= to <= v.len(),
    ensures
        out@ == trimmed(v@.subrange(from as int, to as int)),
{
    let ghost whole = v@.subrange(from as int, to as int);
    let mut a: usize = from;
    assert(whole.skip(0) =~= whole);
    while a < to && char_is_space(v[a])
        invariant
            from <= a <= to <= v.len(),
            whole == v@.subrange(from as int, to as int),
            trimmed_start(whole) == trimmed_start(whole.skip(a - from)),
        decreases to - a,
    {
        assert(whole.skip(a - from).skip(1) =~= whole.skip(a + 1 - from));
        a += 1;
    }
    let ghost front = whole.skip(a - from);
    assert(trimmed_start(whole) == front);
    let mut b: usize = to;
    assert(front.take(front.len() as int) =~= front);
    while b > a && char_is_space(v[b - 1])
        invariant
            from <= a <= b <= to <= v.len(),
            whole == v@.subrange(from as int, to as int),
            front == whole.skip(a - from),
            trimmed_end(front) == trimmed_end(front.take(b - a)),
        decreases b - a,
    {
        assert(front.take(b - a).drop_last() =~= front.take(b - 1 - a));
        b -= 1;
    }
    assert(trimmed_end(front) == front.take(b - a));
    assert(front.take(b - a) =~= v@.subrange(a as int, b as int));
    string_of_range(v, a, b)
}

/// `s` without the white space at its start and at its end.
pub fn trim(s: &str) -> (out: String)
    ensures
        out@ == trimmed(s@),
{
    let v = chars_of(s);
    assert(v@.subrange(0, v@.len() as int) =~= v@);
    trim_range(&v, 0, v.len())
}

/// The pieces of `s` between its commas, in order: one more than it has
/// commas.
pub open spec fn comma_pieces(s: Seq<char>) -> Seq<Seq<char>>
    decreases s.len(),
{
    if s.len() == 0 {
        seq![Seq::<char>::empty()]
    } else {
        let earlier = comma_pieces(s.drop_last());
        if s.last() == ',' {
            earlier.push(Seq::<char>::empty())
        } else {
            earlier.drop_last().push(earlier.last().push(s.last()))
        }
    }
}

/// Of `pieces`, each trimmed, those that are not empty.
pub open spec fn trimmed_non_empty(pieces: Seq<Seq<char>>) -> Seq<Seq<char>>
    decreases pieces.len(),
{
    if pieces.len() == 0 {
        Seq::<Seq<char>>::empty()
    } else {
        let earlier = trimmed_non_empty(pieces.drop_last());
        let piece = trimmed(pieces.last());
        if piece.len() > 0 {
            earlier.push(piece)
        } else {
            earlier
        }
    }
}

/// The entries of a comma-separated list: the pieces between the commas,
/// each without white space around it, but for the empty ones.
pub open spec fn list_entries(s: Seq<char>) -> Seq<Seq<char>> {
    trimmed_non_empty(comma_pieces(s))
}

proof fn lemma_comma_pieces_last(s: Seq<char>, n: int, start: int)
    requires
        0 <= start <= n <= s.len(),
        comma_pieces(s.take(n)).len() > 0,
        comma_pieces(s.take(n)).last() == s.subrange(start, n),
    ensures
        n < s.len() && s[n] != ',' ==> comma_pieces(s.take(n + 1)) == comma_pieces(
            s.take(n),
        ).drop_last().push(s.subrange(start, n + 1)),
        n < s.len() && s[n] == ',' ==> comma_pieces(s.take(n + 1)) == comma_pieces(s.take(n)).push(
            Seq::<char>::empty(),
        ),
{
    if n < s.len() {
        assert(s.take(n + 1).drop_last() =~= s.take(n));
        assert(s.take(n + 1).last() == s[n]);
        assert(s.subrange(start, n).push(s[n]) =~= s.subrange(start, n + 1));
    }
}

/// The texts of a sequence of strings.
pub open spec fn string_views(v: Seq<String>) -> Seq<Seq<char>> {
    v.map_values(|x: String| x@)
}

/// The entries of the comma-separated list `s`.
pub fn split_list(s: &str) -> (out: Vec<String>)
    ensures
        string_views(out@) == list_entries(s@),
{
    let v = chars_of(s);
    let mut out: Vec<String> = Vec::new();
    let mut start: usize = 0;
    let mut i: usize = 0;
    proof {
        assert(v@.take(0) =~= Seq::<char>::empty());
        assert(v@.subrange(0, 0) =~= Seq::<char>::empty());
        assert(comma_pieces(v@.take(0)) =~= seq![Seq::<char>::empty()]);
        assert(comma_pieces(v@.take(0)).drop_last() =~= Seq::<Seq<char>>::empty());
        assert(string_views(out@) =~= Seq::<Seq<char>>::empty());
    }
    while i < v.len()
        invariant
            start <= i <= v.len(),
            v@ == s@,
            comma_pieces(v@.take(i as int)).len() > 0,
            comma_pieces(v@.take(i as int)).last() == v@.subrange(start as int, i as int),
            string_views(out@) == trimmed_non_empty(comma_pieces(v@.take(i as int)).drop_last()),
        decreases v.len() - i,
    {
        proof {
            lemma_comma_pieces_last(v@, i as int, start as int);
        }
        let ghost before = comma_pieces(v@.take(i as int));
        if v[i] == ',' {
            let piece = trim_range(&v, start, i);
            let ghost earlier = out@;
            let ghost text = piece@;
            if !piece.as_str().is_empty() {
                out.push(piece);
                assert(string_views(out@) =~= string_views(earlier).push(text));
            }
            proof {
                let after = comma_pieces(v@.take(i + 1));
                assert(after.drop_last() =~= before);
                assert(before.drop_last().push(before.last()) =~= before);
                assert(v@.subrange(i + 1, i + 1) =~= Seq::<char>::empty());
            }
            start = i + 1;
        } else {
            proof {
                let after = comma_pieces(v@.take(i + 1));
                assert(after.drop_last() =~= before.drop_last());
            }
        }
        i += 1;
    }
    proof {
        assert(v@.take(v@.len() as int) =~= v@);
    }
    let piece = trim_range(&v, start, v.len());
    let ghost earlier = out@;
    let ghost all = comma_pieces(v@);
    let ghost text = piece@;
    if !piece.as_str().is_empty() {
        out.push(piece);
        assert(string_views(out@) =~= string_views(earlier).push(text));
    }
    assert(all.drop_last().push(all.last()) =~= all);
    out
}

} // verus!
