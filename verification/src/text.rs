//! Text helpers: the characters of a string, search, splitting, and decimal
//! numbers read and written.

use vstd::prelude::*;
use vstd::string::*;

verus! {

/// `needle` stands in `hay` at position `at`.
pub open spec fn occurs_at(needle: Seq<char>, hay: Seq<char>, at: int) -> bool {
    &&& 0 <= at
    &&& at + needle.len() <= hay.len()
    &&& hay.subrange(at, at + needle.len()) == needle
}

/// `needle` stands somewhere in `hay`.
pub open spec fn occurs_in(needle: Seq<char>, hay: Seq<char>) -> bool {
    exists|at: int| occurs_at(needle, hay, at)
}

/// Position of the first `mark` in `text`, or the length of `text` where it
/// holds none.
pub open spec fn first_index_of(text: Seq<char>, mark: char) -> int
    decreases text.len(),
{
    if text.len() == 0 {
        0
    } else if text[0] == mark {
        0
    } else {
        1 + first_index_of(text.subrange(1, text.len() as int), mark)
    }
}

/// What stands before and after the first `mark` of `text`.
pub open spec fn split_at_first(text: Seq<char>, mark: char) -> Option<(Seq<char>, Seq<char>)> {
    let at = first_index_of(text, mark);
    if at < text.len() {
        Some((text.subrange(0, at), text.subrange(at + 1, text.len() as int)))
    } else {
        None
    }
}

/// A decimal digit.
pub open spec fn is_digit(c: char) -> bool {
    '0' <= c && c <= '9'
}

/// Every character is a decimal digit.
pub open spec fn all_digits(text: Seq<char>) -> bool {
    forall|i: int| 0 <= i < text.len() ==> is_digit(#[trigger] text[i])
}

/// The number that a run of decimal digits writes.
pub open spec fn digits_value(text: Seq<char>) -> nat
    decreases text.len(),
{
    if text.len() == 0 {
        0
    } else {
        (digits_value(text.drop_last()) * 10 + (text.last() as nat - '0' as nat)) as nat
    }
}

/// The digits of `text` once an optional leading `+` is taken off.
pub open spec fn unsigned_digits(text: Seq<char>) -> Seq<char> {
    if text.len() > 0 && text[0] == '+' {
        text.subrange(1, text.len() as int)
    } else {
        text
    }
}

/// The `u64` that `text` writes: an optional `+`, then one decimal digit or
/// more and nothing else, with a value that fits 64 bits.
pub open spec fn unsigned_value(text: Seq<char>) -> Option<u64> {
    let digits = unsigned_digits(text);
    if digits.len() > 0 && all_digits(digits) && digits_value(digits) <= u64::MAX {
        Some(digits_value(digits) as u64)
    } else {
        None
    }
}

/// The character of a digit below ten.
pub open spec fn digit_char(d: nat) -> char {
    if d == 0 {
        '0'
    } else if d == 1 {
        '1'
    } else if d == 2 {
        '2'
    } else if d == 3 {
        '3'
    } else if d == 4 {
        '4'
    } else if d == 5 {
        '5'
    } else if d == 6 {
        '6'
    } else if d == 7 {
        '7'
    } else if d == 8 {
        '8'
    } else {
        '9'
    }
}

/// `n` written in decimal, without sign or leading zeros.
pub open spec fn decimal_digits(n: nat) -> Seq<char>
    decreases n,
{
    if n < 10 {
        seq![digit_char(n)]
    } else {
        decimal_digits(n / 10).push(digit_char(n % 10))
    }
}

/// A longer run of digits writes no smaller a number than its beginning.
pub proof fn digits_value_grows(text: Seq<char>, upto: int)
    requires
        all_digits(text),
        0 <= upto <= text.len(),
    ensures
        digits_value(text.take(upto)) <= digits_value(text),
    decreases text.len(),
{
    if upto == text.len() {
        assert(text.take(upto) == text);
    } else {
        let shorter = text.drop_last();
        assert(is_digit(text.last()));
        assert(all_digits(shorter)) by {
            assert forall|i: int| 0 <= i < shorter.len() implies is_digit(#[trigger] shorter[i]) by {
                assert(shorter[i] == text[i]);
            }
        }
        digits_value_grows(shorter, upto);
        assert(shorter.take(upto) == text.take(upto));
    }
}

/// The characters of `text`, one by one.
pub fn chars_of(text: &str) -> (chars: Vec<char>)
    ensures
        chars@ == text@,
{
    let mut chars: Vec<char> = Vec::new();
    for c in it: text.chars()
        invariant
            chars@ == it.seq().take(it.index() as int),
            it.seq() == text@,
    {
        chars.push(c);
    }
    chars
}

/// Whether two texts hold the same characters.
pub fn same_text(a: &str, b: &str) -> (same: bool)
    ensures
        same == (a@ == b@),
{
    let left = String::from_str(a);
    let right = String::from_str(b);
    left == right
}

fn matches_at(hay: &Vec<char>, needle: &Vec<char>, at: usize) -> (found: bool)
    requires
        at + needle.len() <= hay.len(),
    ensures
        found == occurs_at(needle@, hay@, at as int),
{
    let mut k: usize = 0;
    while k < needle.len()
        invariant
            at + needle.len() <= hay.len(),
            k <= needle.len(),
            forall|j: int| 0 <= j < k ==> hay@[at + j] == needle@[j],
        decreases needle.len() - k,
    {
        if hay[at + k] != needle[k] {
            proof {
                let part = hay@.subrange(at as int, at + needle.len());
                assert(part[k as int] == hay@[at + k]);
            }
            return false;
        }
        k += 1;
    }
    proof {
        let part = hay@.subrange(at as int, at + needle.len());
        assert(part =~= needle@);
    }
    true
}

/// Whether `needle` stands somewhere in `hay`.
pub fn contains(hay: &str, needle: &str) -> (found: bool)
    ensures
        found == occurs_in(needle@, hay@),
{
    let hay_chars = chars_of(hay);
    let needle_chars = chars_of(needle);
    if needle_chars.len() > hay_chars.len() {
        return false;
    }
    let last: usize = hay_chars.len() - needle_chars.len();
    let mut at: usize = 0;
    while at < last
        invariant
            hay_chars@ == hay@,
            needle_chars@ == needle@,
            last == hay_chars.len() - needle_chars.len(),
            at <= last,
            forall|i: int| 0 <= i < at ==> !occurs_at(needle@, hay@, i),
        decreases last - at,
    {
        if matches_at(&hay_chars, &needle_chars, at) {
            return true;
        }
        at += 1;
    }
    matches_at(&hay_chars, &needle_chars, last)
}

proof fn first_index_step(text: Seq<char>, mark: char, upto: int)
    requires
        0 <= upto <= text.len(),
        forall|i: int| 0 <= i < upto ==> text[i] != mark,
    ensures
        first_index_of(text, mark) == upto + first_index_of(
            text.subrange(upto, text.len() as int),
            mark,
        ),
    decreases upto,
{
    if upto == 0 {
        assert(text.subrange(0, text.len() as int) == text);
    } else {
        let rest = text.subrange(1, text.len() as int);
        assert forall|i: int| 0 <= i < upto - 1 implies rest[i] != mark by {
            assert(rest[i] == text[i + 1]);
        }
        first_index_step(rest, mark, upto - 1);
        assert(rest.subrange(upto - 1, rest.len() as int) == text.subrange(
            upto,
            text.len() as int,
        ));
    }
}

/// Splits `text` at its first `mark`: what stands before it and what stands
/// after it. `None` where `text` holds no `mark`.
pub fn split_once(text: &str, mark: char) -> (parts: Option<(String, String)>)
    ensures
        match parts {
            Some((before, after)) => split_at_first(text@, mark) == Some((before@, after@)),
            None => split_at_first(text@, mark).is_none(),
        },
{
    let chars = chars_of(text);
    let n = chars.len();
    let mut at: usize = 0;
    while at < n
        invariant
            chars@ == text@,
            n == chars.len(),
            at <= n,
            forall|i: int| 0 <= i < at ==> text@[i] != mark,
        decreases n - at,
    {
        if chars[at] == mark {
            proof {
                first_index_step(text@, mark, at as int);
            }
            let before = String::from_str(text.substring_char(0, at));
            let after = String::from_str(text.substring_char(at + 1, n));
            return Some((before, after));
        }
        at += 1;
    }
    proof {
        first_index_step(text@, mark, n as int);
        assert(text@.subrange(n as int, n as int).len() == 0);
    }
    None
}

/// Reads an unsigned decimal number: an optional `+`, then digits only.
/// `None` where `text` is anything else or the number does not fit 64 bits.
pub fn parse_u64(text: &str) -> (value: Option<u64>)
    ensures
        value == unsigned_value(text@),
{
    let chars = chars_of(text);
    let n = chars.len();
    let start: usize = if n > 0 && chars[0] == '+' {
        1
    } else {
        0
    };
    if start == n {
        return None;
    }
    let ghost digits = unsigned_digits(text@);
    assert(digits == text@.subrange(start as int, n as int));
    let mut acc: u64 = 0;
    let mut i: usize = start;
    while i < n
        invariant
            chars@ == text@,
            n == chars.len(),
            start <= i <= n,
            digits == unsigned_digits(text@),
            digits == text@.subrange(start as int, n as int),
            all_digits(digits.take(i - start)),
            acc == digits_value(digits.take(i - start)),
        decreases n - i,
    {
        let c = chars[i];
        assert(c == digits[i - start]);
        if c < '0' || c > '9' {
            assert(!is_digit(digits[i - start]));
            return None;
        }
        let d: u64 = (c as u64) - ('0' as u64);
        let ghost longer = digits.take(i - start + 1);
        proof {
            assert(longer.drop_last() == digits.take(i - start));
            assert(longer.last() == c);
            assert(all_digits(longer)) by {
                assert forall|j: int| 0 <= j < longer.len() implies is_digit(
                    #[trigger] longer[j],
                ) by {
                    if j < i - start {
                        assert(longer[j] == digits.take(i - start)[j]);
                    }
                }
            }
            assert(digits_value(longer) == acc * 10 + d);
            if all_digits(digits) {
                digits_value_grows(digits, i - start + 1);
            }
        }
        if acc > (u64::MAX - d) / 10 {
            assert(digits_value(longer) > u64::MAX);
            return None;
        }
        acc = acc * 10 + d;
        i += 1;
    }
    assert(digits.take(n - start) == digits);
    Some(acc)
}

fn digit_text(d: u64) -> (text: &'static str)
    requires
        d < 10,
    ensures
        text@ == seq![digit_char(d as nat)],
{
    proof {
        reveal_strlit("0");
        reveal_strlit("1");
        reveal_strlit("2");
        reveal_strlit("3");
        reveal_strlit("4");
        reveal_strlit("5");
        reveal_strlit("6");
        reveal_strlit("7");
        reveal_strlit("8");
        reveal_strlit("9");
    }
    let text = if d == 0 {
        "0"
    } else if d == 1 {
        "1"
    } else if d == 2 {
        "2"
    } else if d == 3 {
        "3"
    } else if d == 4 {
        "4"
    } else if d == 5 {
        "5"
    } else if d == 6 {
        "6"
    } else if d == 7 {
        "7"
    } else if d == 8 {
        "8"
    } else {
        "9"
    };
    assert(text@ =~= seq![digit_char(d as nat)]);
    text
}

/// Appends `n` in decimal to `out`.
pub fn push_decimal(n: u64, out: &mut String)
    ensures
        final(out)@ == old(out)@ + decimal_digits(n as nat),
    decreases n,
{
    if n >= 10 {
        push_decimal(n / 10, out);
    }
    out.append(digit_text(n % 10));
    assert(final(out)@ =~= old(out)@ + decimal_digits(n as nat));
}

/// `n` written in decimal.
pub fn decimal(n: u64) -> (text: String)
    ensures
        text@ == decimal_digits(n as nat),
{
    let mut text = String::new();
    push_decimal(n, &mut text);
    assert(text@ =~= decimal_digits(n as nat));
    text
}

} // verus!
