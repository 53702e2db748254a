//! Reading integers from lines of input.
//!
//! A line is stripped of the white space around it and must then hold an
//! optional sign followed by one or more decimal digits. An operand must fit
//! in 32 bits and a menu choice in 128 bits: these are the only limits.

use crate::error::CalcError;
use vstd::prelude::*;
use vstd::std_specs::iter::IteratorSpec;

verus! {

/// Whether `c` has the Unicode property White_Space.
pub open spec fn is_space(c: char) -> bool {
    let code = c as u32;
    ||| 0x09 <= code <= 0x0D
    ||| code == 0x20
    ||| code == 0x85
    ||| code == 0xA0
    ||| code == 0x1680
    ||| 0x2000 <= code <= 0x200A
    ||| code == 0x2028
    ||| code == 0x2029
    ||| code == 0x202F
    ||| code == 0x205F
    ||| code == 0x3000
}

/// `s` without the white space at its two ends.
pub open spec fn trimmed(s: Seq<char>) -> Seq<char>
    decreases s.len(),
{
    if s.len() > 0 && is_space(s.first()) {
        trimmed(s.drop_first())
    } else if s.len() > 0 && is_space(s.last()) {
        trimmed(s.drop_last())
    } else {
        s
    }
}

/// Whether `c` is one of the decimal digits `0` to `9`.
pub open spec fn is_digit(c: char) -> bool {
    0x30 <= c as u32 <= 0x39
}

/// Whether `s` holds decimal digits only.
pub open spec fn all_digits(s: Seq<char>) -> bool {
    forall|i: int| 0 <= i < s.len() ==> is_digit(#[trigger] s[i])
}

/// The number that the digit `c` stands for; zero where `c` is no digit.
pub open spec fn digit_of(c: char) -> nat {
    if is_digit(c) {
        (c as u32 - 0x30) as nat
    } else {
        0
    }
}

/// The number that the digits of `s` denote in base ten.
pub open spec fn digits_value(s: Seq<char>) -> nat
    decreases s.len(),
{
    if s.len() == 0 {
        0
    } else {
        digits_value(s.drop_last()) * 10 + digit_of(s.last())
    }
}

/// The value of `s` read as one or more digits, if it is that.
pub open spec fn magnitude(s: Seq<char>) -> Option<int> {
    if s.len() > 0 && all_digits(s) {
        Some(digits_value(s) as int)
    } else {
        None
    }
}

/// The value of `s` read as an integer literal: an optional `+` or `-`, and
/// then one or more digits.
pub open spec fn literal_value(s: Seq<char>) -> Option<int> {
    if s.len() > 0 && s[0] == '+' {
        magnitude(s.drop_first())
    } else if s.len() > 0 && s[0] == '-' {
        match magnitude(s.drop_first()) {
            Some(m) => Some(-m),
            None => None,
        }
    } else {
        magnitude(s)
    }
}

/// The operand that a line of input denotes, if it denotes one.
pub open spec fn operand_of(line: Seq<char>) -> Option<i32> {
    match literal_value(trimmed(line)) {
        Some(v) => if i32::MIN <= v <= i32::MAX {
            Some(v as i32)
        } else {
            None
        },
        None => None,
    }
}

/// The menu choice that a line of input denotes, if it denotes one.
pub open spec fn choice_of(line: Seq<char>) -> Option<i128> {
    match literal_value(trimmed(line)) {
        Some(v) => if i128::MIN <= v <= i128::MAX {
            Some(v as i128)
        } else {
            None
        },
        None => None,
    }
}

/// `value` where it is present and at most `limit`.
pub open spec fn at_most(value: Option<int>, limit: int) -> Option<int> {
    match value {
        Some(v) => if v <= limit {
            Some(v)
        } else {
            None
        },
        None => None,
    }
}

/// Trimming keeps exactly what lies between the first and the last
/// character that is not white space.
proof fn lemma_trimmed_is_subrange(s: Seq<char>, start: int, end: int)
    requires
        0 <= start <= end <= s.len(),
        forall|i: int| 0 <= i < start ==> is_space(#[trigger] s[i]),
        forall|i: int| end <= i < s.len() ==> is_space(#[trigger] s[i]),
        start < end ==> !is_space(s[start]) && !is_space(s[end - 1]),
    ensures
        trimmed(s) == s.subrange(start, end),
    decreases s.len(),
{
    if s.len() == 0 {
        assert(s.subrange(start, end) =~= s);
    } else if is_space(s.first()) {
        if start > 0 {
            lemma_trimmed_is_subrange(s.drop_first(), start - 1, end - 1);
            assert(s.drop_first().subrange(start - 1, end - 1) =~= s.subrange(start, end));
        } else {
            lemma_trimmed_is_subrange(s.drop_first(), 0, 0);
            assert(s.drop_first().subrange(0, 0) =~= s.subrange(start, end));
        }
    } else if is_space(s.last()) {
        lemma_trimmed_is_subrange(s.drop_last(), start, end);
        assert(s.drop_last().subrange(start, end) =~= s.subrange(start, end));
    } else {
        assert(s.subrange(start, end) =~= s);
    }
}

/// A prefix of a digit string denotes no more than the whole string.
proof fn lemma_prefix_value(s: Seq<char>, k: int)
    requires
        0 <= k <= s.len(),
    ensures
        digits_value(s.take(k)) <= digits_value(s),
    decreases s.len(),
{
    if k == s.len() {
        assert(s.take(k) =~= s);
    } else {
        lemma_prefix_value(s.drop_last(), k);
        assert(s.drop_last().take(k) =~= s.take(k));
    }
}

/// Whether `c` is white space.
fn space(c: char) -> (r: bool)
    ensures
        r == is_space(c),
{
    let code: u32 = c as u32;
    (0x09 <= code && code <= 0x0D) || code == 0x20 || code == 0x85 || code == 0xA0 || code
        == 0x1680 || (0x2000 <= code && code <= 0x200A) || code == 0x2028 || code == 0x2029
        || code == 0x202F || code == 0x205F || code == 0x3000
}

/// The characters of `line`, one by one.
fn characters(line: &str) -> (chars: Vec<char>)
    ensures
        chars@ == line@,
{
    let mut chars: Vec<char> = Vec::new();
    let mut rest = line.chars();
    loop
        invariant
            rest.obeys_prophetic_iter_laws(),
            rest.decrease() is Some,
            chars@ + rest.remaining() == line@,
        ensures
            chars@ == line@,
        decreases rest.decrease()->0,
    {
        let ghost before = rest.remaining();
        match rest.next() {
            Some(c) => {
                chars.push(c);
                assert(chars@ + rest.remaining() =~= chars@.drop_last() + before);
            },
            None => {
                assert(chars@ + before =~= chars@);
                break ;
            },
        }
    }
    chars
}

/// Where the trimmed text starts and ends among `chars`.
fn trim_bounds(chars: &Vec<char>) -> (bounds: (usize, usize))
    ensures
        bounds.0 <= bounds.1 <= chars.len(),
        trimmed(chars@) == chars@.subrange(bounds.0 as int, bounds.1 as int),
{
    let mut start: usize = 0;
    while start < chars.len() && space(chars[start])
        invariant
            start <= chars.len(),
            forall|i: int| 0 <= i < start ==> is_space(#[trigger] chars@[i]),
        decreases chars.len() - start,
    {
        start += 1;
    }
    let mut end: usize = chars.len();
    while end > start && space(chars[end - 1])
        invariant
            start <= end <= chars.len(),
            forall|i: int| end <= i < chars.len() ==> is_space(#[trigger] chars@[i]),
        decreases end,
    {
        end -= 1;
    }
    proof {
        lemma_trimmed_is_subrange(chars@, start as int, end as int);
    }
    (start, end)
}

/// Reads the characters from `from` up to `to` as a run of digits whose
/// value is at most `limit`.
fn magnitude_within(chars: &Vec<char>, from: usize, to: usize, limit: u128) -> (r: Option<u128>)
    requires
        from <= to <= chars.len(),
    ensures
        at_most(magnitude(chars@.subrange(from as int, to as int)), limit as int) == match r {
            Some(m) => Some(m as int),
            None => None,
        },
{
    let ghost digits = chars@.subrange(from as int, to as int);
    if from == to {
        return None;
    }
    let mut acc: u128 = 0;
    let mut i: usize = from;
    while i < to
        invariant
            from <= i <= to <= chars.len(),
            digits == chars@.subrange(from as int, to as int),
            all_digits(digits.take(i - from)),
            acc == digits_value(digits.take(i - from)),
            acc <= limit,
        decreases to - i,
    {
        let code: u32 = chars[i] as u32;
        if code < 0x30 || code > 0x39 {
            assert(!is_digit(digits[i - from]));
            return None;
        }
        let digit: u128 = (code - 0x30) as u128;
        proof {
            let longer = digits.take(i - from + 1);
            assert(longer.drop_last() =~= digits.take(i - from));
            assert(longer.last() == chars@[i as int]);
            assert(acc * 10 + digit == digits_value(longer));
            assert forall|j: int| 0 <= j < longer.len() implies is_digit(#[trigger] longer[j]) by {
                if j < i - from {
                    assert(longer[j] == digits.take(i - from)[j]);
                }
            }
            lemma_prefix_value(digits, i - from + 1);
        }
        if acc > limit / 10 || (acc == limit / 10 && digit > limit % 10) {
            return None;
        }
        acc = acc * 10 + digit;
        i += 1;
    }
    assert(digits.take(i - from) =~= digits);
    Some(acc)
}

/// Reads a line of input as an operand: a signed 32-bit integer.
///
/// White space around the number is ignored. Fails with
/// [`CalcError::Parse`] where what is left is not an optional sign and one
/// or more digits, or does not fit in 32 bits.
pub fn parse_operand(line: &str) -> (r: Result<i32, CalcError>)
    ensures
        operand_of(line@) matches Some(v) ==> r == Ok::<i32, CalcError>(v),
        operand_of(line@) is None ==> r == Err::<i32, CalcError>(CalcError::Parse),
{
    let chars = characters(line);
    let (start, end) = trim_bounds(&chars);
    let ghost body = chars@.subrange(start as int, end as int);
    if start < end && chars[start] == '-' {
        assert(body.drop_first() =~= chars@.subrange(start + 1, end as int));
        match magnitude_within(&chars, start + 1, end, 0x8000_0000) {
            Some(m) => Ok((0 - m as i64) as i32),
            None => Err(CalcError::Parse),
        }
    } else {
        let from: usize = if start < end && chars[start] == '+' {
            start + 1
        } else {
            start
        };
        assert(from > start ==> body.drop_first() =~= chars@.subrange(from as int, end as int));
        match magnitude_within(&chars, from, end, 0x7fff_ffff) {
            Some(m) => Ok(m as i32),
            None => Err(CalcError::Parse),
        }
    }
}

/// Reads a line of input as a menu choice: a signed 128-bit integer.
///
/// The text is read as an operand is: white space around the number is
/// ignored, and a sign may stand before the digits. Fails with
/// [`CalcError::Parse`] where what is left is not an optional sign and one
/// or more digits, or does not fit in 128 bits.
pub fn parse_choice(line: &str) -> (r: Result<i128, CalcError>)
    ensures
        choice_of(line@) matches Some(v) ==> r == Ok::<i128, CalcError>(v),
        choice_of(line@) is None ==> r == Err::<i128, CalcError>(CalcError::Parse),
{
    let chars = characters(line);
    let (start, end) = trim_bounds(&chars);
    let ghost body = chars@.subrange(start as int, end as int);
    if start < end && chars[start] == '-' {
        assert(body.drop_first() =~= chars@.subrange(start + 1, end as int));
        match magnitude_within(&chars, start + 1, end, 0x8000_0000_0000_0000_0000_0000_0000_0000) {
            Some(m) => if m == 0x8000_0000_0000_0000_0000_0000_0000_0000 {
                Ok(i128::MIN)
            } else {
                Ok(0 - m as i128)
            },
            None => Err(CalcError::Parse),
        }
    } else {
        let from: usize = if start < end && chars[start] == '+' {
            start + 1
        } else {
            start
        };
        assert(from > start ==> body.drop_first() =~= chars@.subrange(from as int, end as int));
        match magnitude_within(&chars, from, end, 0x7fff_ffff_ffff_ffff_ffff_ffff_ffff_ffff) {
            Some(m) => Ok(m as i128),
            None => Err(CalcError::Parse),
        }
    }
}

} // verus!
