//! Character-level building blocks: conversion between strings and character
//! vectors, searching, blank skipping, and decimal numbers.

use vstd::prelude::*;
use vstd::string::StringExecFns;

verus! {

/// `String::push` appends one character to the end of the string.
pub assume_specification[ String::push ](s: &mut String, c: char)
    ensures
        final(s)@ == old(s)@.push(c),
;

/// `str`'s `==` holds exactly when both slices hold the same characters.
pub assume_specification[ <str as PartialEq>::eq ](a: &str, b: &str) -> (r: bool)
    ensures
        r == (a@ == b@),
;

/// The characters of a string slice, in order.
pub fn chars_of(s: &str) -> (r: Vec<char>)
    ensures
        r@ == s@,
{
    let mut out: Vec<char> = Vec::new();
    for c in it: s.chars()
        invariant
            out@ == it.seq().take(it.index()),
            it.seq() == s@,
    {
        out.push(c);
    }
    out
}

/// The string made of the characters `cs[from..to]`.
pub(crate) fn text_between(cs: &Vec<char>, from: usize, to: usize) -> (r: String)
    requires
        from <= to <= cs.len(),
    ensures
        r@ == cs@.subrange(from as int, to as int),
{
    let mut out = String::new();
    let mut i: usize = from;
    while i < to
        invariant
            from <= i <= to <= cs.len(),
            out@ == cs@.subrange(from as int, i as int),
        decreases to - i,
    {
        out.push(cs[i]);
        i += 1;
    }
    out
}

/// Whether two string slices hold the same characters.
pub fn same_text(a: &str, b: &str) -> (r: bool)
    ensures
        r == (a@ == b@),
{
    a.eq(b)
}

/// A fresh copy of a string slice.
pub fn owned(s: &str) -> (r: String)
    ensures
        r@ == s@,
{
    String::from_str(s)
}

/// Whether `pat` stands in `s` at index `i`.
pub open spec fn occurs_at(s: Seq<char>, pat: Seq<char>, i: int) -> bool {
    &&& 0 <= i
    &&& i + pat.len() <= s.len()
    &&& s.subrange(i, i + pat.len()) == pat
}

/// The least index at or after `from` where `pat` stands in `s`.
pub open spec fn find_from(s: Seq<char>, pat: Seq<char>, from: int) -> Option<int>
    decreases s.len() + 1 - from,
{
    if from < 0 || from + pat.len() > s.len() {
        None
    } else if occurs_at(s, pat, from) {
        Some(from)
    } else {
        find_from(s, pat, from + 1)
    }
}

/// `find_from` returns a place where the pattern stands, and the first such place.
pub proof fn lemma_find_from(s: Seq<char>, pat: Seq<char>, from: int)
    requires
        0 <= from,
    ensures
        match find_from(s, pat, from) {
            Some(k) => from <= k && occurs_at(s, pat, k) && forall|j: int|
                from <= j < k ==> !occurs_at(s, pat, j),
            None => forall|j: int| from <= j ==> !occurs_at(s, pat, j),
        },
    decreases s.len() + 1 - from,
{
    if from + pat.len() > s.len() {
    } else if occurs_at(s, pat, from) {
    } else {
        lemma_find_from(s, pat, from + 1);
    }
}

/// Whether `pat` stands in `text` at index `at`.
pub fn matches_at(text: &Vec<char>, pat: &Vec<char>, at: usize) -> (r: bool)
    ensures
        r == occurs_at(text@, pat@, at as int),
{
    if pat.len() > text.len() || at > text.len() - pat.len() {
        return false;
    }
    let mut k: usize = 0;
    while k < pat.len()
        invariant
            k <= pat.len(),
            at + pat.len() <= text.len(),
            text@.subrange(at as int, at + k) == pat@.subrange(0, k as int),
        decreases pat.len() - k,
    {
        if text[at + k] != pat[k] {
            proof {
                let whole = text@.subrange(at as int, at + pat.len());
                assert(whole[k as int] == text@[at + k]);
            }
            return false;
        }
        proof {
            assert(text@.subrange(at as int, at + k + 1) == text@.subrange(
                at as int,
                at + k,
            ).push(text@[at + k]));
            assert(pat@.subrange(0, k + 1) == pat@.subrange(0, k as int).push(pat@[k as int]));
        }
        k += 1;
    }
    proof {
        assert(pat@.subrange(0, pat@.len() as int) == pat@);
    }
    true
}

/// The first index at or after `from` where `pat` stands in `text`.
pub fn find(text: &Vec<char>, pat: &Vec<char>, from: usize) -> (r: Option<usize>)
    ensures
        match r {
            Some(k) => find_from(text@, pat@, from as int) == Some(k as int),
            None => find_from(text@, pat@, from as int) is None,
        },
{
    if pat.len() > text.len() {
        return None;
    }
    let last: usize = text.len() - pat.len();
    let mut i: usize = from;
    while i <= last
        invariant
            from <= i,
            last == text.len() - pat.len(),
            find_from(text@, pat@, from as int) == find_from(text@, pat@, i as int),
        decreases last - i,
    {
        if matches_at(text, pat, i) {
            return Some(i);
        }
        if i == last {
            assert(find_from(text@, pat@, i + 1) is None);
            return None;
        }
        i += 1;
    }
    None
}

/// Whether `s` begins with `pat`.
pub fn begins_with(s: &Vec<char>, pat: &Vec<char>) -> (r: bool)
    ensures
        r == pat@.is_prefix_of(s@),
{
    matches_at(s, pat, 0)
}

/// White space, as Unicode's `White_Space` property lists it.
pub open spec fn is_blank(c: char) -> bool {
    ||| c == ' '
    ||| ('\u{9}' <= c && c <= '\u{d}')
    ||| c == '\u{85}'
    ||| c == '\u{a0}'
    ||| c == '\u{1680}'
    ||| ('\u{2000}' <= c && c <= '\u{200a}')
    ||| c == '\u{2028}'
    ||| c == '\u{2029}'
    ||| c == '\u{202f}'
    ||| c == '\u{205f}'
    ||| c == '\u{3000}'
}

/// Whether `c` is white space.
pub fn blank(c: char) -> (r: bool)
    ensures
        r == is_blank(c),
{
    c == ' ' || ('\u{9}' <= c && c <= '\u{d}') || c == '\u{85}' || c == '\u{a0}' || c
        == '\u{1680}' || ('\u{2000}' <= c && c <= '\u{200a}') || c == '\u{2028}' || c
        == '\u{2029}' || c == '\u{202f}' || c == '\u{205f}' || c == '\u{3000}'
}

/// The first index at or after `i` that holds no white space, or the length.
pub open spec fn skip_blanks(s: Seq<char>, i: int) -> int
    decreases s.len() - i,
{
    if 0 <= i < s.len() && is_blank(s[i]) {
        skip_blanks(s, i + 1)
    } else {
        i
    }
}

/// `skip_blanks` moves forward over white space only and stops at the first
/// other character.
pub proof fn lemma_skip_blanks(s: Seq<char>, i: int)
    requires
        0 <= i <= s.len(),
    ensures
        i <= skip_blanks(s, i) <= s.len(),
        forall|j: int| i <= j < skip_blanks(s, i) ==> is_blank(s[j]),
        skip_blanks(s, i) < s.len() ==> !is_blank(s[skip_blanks(s, i)]),
    decreases s.len() - i,
{
    if i < s.len() && is_blank(s[i]) {
        lemma_skip_blanks(s, i + 1);
    }
}

/// Moves an index forward over white space.
pub(crate) fn skip_blank_chars(text: &Vec<char>, from: usize) -> (r: usize)
    requires
        from <= text.len(),
    ensures
        r == skip_blanks(text@, from as int),
        from <= r <= text.len(),
{
    let mut i: usize = from;
    while i < text.len() && blank(text[i])
        invariant
            from <= i <= text.len(),
            skip_blanks(text@, from as int) == skip_blanks(text@, i as int),
        decreases text.len() - i,
    {
        i += 1;
    }
    i
}

/// Whether `c` is one of the ten decimal digits.
pub open spec fn is_digit(c: char) -> bool {
    '0' <= c && c <= '9'
}

/// The number that a decimal digit stands for.
pub open spec fn digit_value(c: char) -> nat {
    (c as u32 - '0' as u32) as nat
}

/// The digit that stands for a number below ten.
pub open spec fn digit_char(d: nat) -> char {
    (d + '0' as u32) as char
}

/// The number that a string of decimal digits stands for.
pub open spec fn digits_value(s: Seq<char>) -> nat
    decreases s.len(),
{
    if s.len() == 0 {
        0
    } else {
        digits_value(s.drop_last()) * 10 + digit_value(s.last())
    }
}

/// Whether every character of `s` is a decimal digit.
pub open spec fn all_digits(s: Seq<char>) -> bool {
    forall|i: int| 0 <= i < s.len() ==> is_digit(#[trigger] s[i])
}

/// The line index that a text stands for: an optional `+`, then one or more
/// decimal digits whose value fits in 32 bits. Anything else is no index.
pub open spec fn index_of_text(s: Seq<char>) -> Option<nat> {
    let digits = if s.len() > 0 && s[0] == '+' {
        s.skip(1)
    } else {
        s
    };
    if digits.len() > 0 && all_digits(digits) && digits_value(digits) <= u32::MAX {
        Some(digits_value(digits))
    } else {
        None
    }
}

/// A longer string of digits stands for a number that is no smaller.
pub proof fn lemma_digits_value_grows(s: Seq<char>, n: int)
    requires
        0 <= n <= s.len(),
    ensures
        digits_value(s.take(n)) <= digits_value(s),
    decreases s.len(),
{
    if n == s.len() {
        assert(s.take(n) == s);
    } else {
        lemma_digits_value_grows(s.drop_last(), n);
        assert(s.drop_last().take(n) == s.take(n));
    }
}

/// Reads a line index from `cs[from..to]`.
pub(crate) fn read_index(cs: &Vec<char>, from: usize, to: usize) -> (r: Option<u32>)
    requires
        from <= to <= cs.len(),
    ensures
        match r {
            Some(n) => index_of_text(cs@.subrange(from as int, to as int)) == Some(n as nat),
            None => index_of_text(cs@.subrange(from as int, to as int)) is None,
        },
{
    let ghost s = cs@.subrange(from as int, to as int);
    let start: usize = if from < to && cs[from] == '+' {
        from + 1
    } else {
        from
    };
    let ghost digits = cs@.subrange(start as int, to as int);
    proof {
        if from < to && cs[from as int] == '+' {
            assert(s[0] == '+');
            assert(s.skip(1) == digits);
        } else {
            if from < to {
                assert(s[0] == cs[from as int]);
            }
            assert(s == digits);
        }
    }
    if start == to {
        return None;
    }
    let mut value: u64 = 0;
    let mut i: usize = start;
    while i < to
        invariant
            start <= i <= to <= cs.len(),
            s == cs@.subrange(from as int, to as int),
            digits == cs@.subrange(start as int, to as int),
            digits == if s.len() > 0 && s[0] == '+' {
                s.skip(1)
            } else {
                s
            },
            all_digits(digits.take(i - start)),
            value == digits_value(digits.take(i - start)),
            value <= u32::MAX,
        decreases to - i,
    {
        let c = cs[i];
        let ghost next = digits.take(i - start + 1);
        proof {
            assert(next.drop_last() == digits.take(i - start));
            assert(next.last() == c);
        }
        if !('0' <= c && c <= '9') {
            proof {
                assert(digits[i - start] == c);
            }
            return None;
        }
        let d: u64 = (c as u32 - '0' as u32) as u64;
        value = value * 10 + d;
        if value > u32::MAX as u64 {
            proof {
                lemma_digits_value_grows(digits, i - start + 1);
            }
            return None;
        }
        proof {
            assert forall|j: int| 0 <= j < next.len() implies is_digit(#[trigger] next[j]) by {
                if j < next.len() - 1 {
                    assert(next[j] == digits.take(i - start)[j]);
                }
            }
        }
        i += 1;
    }
    proof {
        assert(digits.take(to - start) == digits);
    }
    Some(value as u32)
}

/// The decimal digits of a number, most significant first.
pub open spec fn decimal(n: nat) -> Seq<char>
    decreases n,
{
    if n < 10 {
        seq![digit_char(n)]
    } else {
        decimal(n / 10).push(digit_char(n % 10))
    }
}

/// Writes a number in decimal.
pub fn decimal_text(n: usize) -> (r: String)
    ensures
        r@ == decimal(n as nat),
{
    let mut low: Vec<char> = Vec::new();
    let mut m: usize = n;
    while m >= 10
        invariant
            decimal(n as nat) == decimal(m as nat) + low@.reverse(),
        decreases m,
    {
        let d: u8 = (m % 10) as u8;
        let c: char = (d + 48u8) as char;
        proof {
            assert(c == digit_char((m % 10) as nat));
            let before = low@;
            let after = low@.push(c);
            assert(after.reverse() == seq![c] + before.reverse());
            assert(decimal(m as nat) == decimal((m / 10) as nat).push(c));
            assert(decimal((m / 10) as nat).push(c) + before.reverse() == decimal(
                (m / 10) as nat,
            ) + (seq![c] + before.reverse()));
        }
        low.push(c);
        m = m / 10;
    }
    let first: char = (m as u8 + 48u8) as char;
    let mut out = String::new();
    out.push(first);
    let mut k: usize = low.len();
    while k > 0
        invariant
            k <= low.len(),
            out@ == seq![first] + low@.reverse().take(low.len() - k),
        decreases k,
    {
        k -= 1;
        proof {
            let rev = low@.reverse();
            assert(rev.take(low.len() - k) == rev.take(low.len() - k - 1).push(low@[k as int]));
        }
        out.push(low[k]);
    }
    proof {
        assert(low@.reverse().take(low.len() as int) == low@.reverse());
        assert(first == digit_char(m as nat));
    }
    out
}

/// The length of `s[..n]` once the white space at its end is left out.
pub open spec fn blank_end(s: Seq<char>, n: int) -> int
    decreases n,
{
    if 0 < n <= s.len() && is_blank(s[n - 1]) {
        blank_end(s, n - 1)
    } else {
        n
    }
}

/// `s` without the white space at its two ends.
pub open spec fn trimmed(s: Seq<char>) -> Seq<char> {
    let from = skip_blanks(s, 0);
    let to = blank_end(s, s.len() as int);
    if from < to {
        s.subrange(from, to)
    } else {
        Seq::empty()
    }
}

/// Removes the white space at the two ends of a text.
pub fn trim(s: &str) -> (r: String)
    ensures
        r@ == trimmed(s@),
{
    let cs = chars_of(s);
    let from = skip_blank_chars(&cs, 0);
    let mut to: usize = cs.len();
    while to > 0 && blank(cs[to - 1])
        invariant
            to <= cs.len(),
            blank_end(cs@, cs.len() as int) == blank_end(cs@, to as int),
        decreases to,
    {
        to -= 1;
    }
    if from < to {
        text_between(&cs, from, to)
    } else {
        String::new()
    }
}

/// `a` followed by `b`.
pub fn joined(a: &str, b: &str) -> (r: String)
    ensures
        r@ == a@ + b@,
{
    let mut out = owned(a);
    out.append(b);
    out
}

} // verus!
