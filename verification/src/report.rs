//! The lines of text in which a calculation is reported.

use crate::dispatch::Outcome;
use vstd::prelude::*;
use vstd::string::*;

verus! {

/// The character that stands for the digit `d`.
pub open spec fn digit_char(d: nat) -> char {
    (0x30 + d) as char
}

/// The digits of `n` in base ten, without leading zeros.
pub open spec fn natural_text(n: nat) -> Seq<char>
    decreases n,
{
    if n < 10 {
        seq![digit_char(n)]
    } else {
        natural_text(n / 10).push(digit_char(n % 10))
    }
}

/// The decimal text of `n`, with a minus sign where it is negative.
pub open spec fn integer_text(n: int) -> Seq<char> {
    if n < 0 {
        seq!['-'] + natural_text((-n) as nat)
    } else {
        natural_text(n as nat)
    }
}

/// The numbers from 1 to `n` in base ten, one space between each two.
pub open spec fn counting_text(n: nat) -> Seq<char>
    decreases n,
{
    if n == 0 {
        Seq::empty()
    } else if n == 1 {
        natural_text(1)
    } else {
        counting_text((n - 1) as nat).push(' ') + natural_text(n)
    }
}

/// The line that reports `outcome`, where `quotient_text` is the text in
/// which a quotient is to be shown.
pub open spec fn report_text(outcome: Outcome, quotient_text: Seq<char>) -> Seq<char> {
    match outcome {
        Outcome::Integer(n) => "Result: "@ + integer_text(n as int),
        Outcome::Quotient(_) => "Result: "@ + quotient_text,
        Outcome::InvalidChoice => "Invalid choice!"@,
    }
}

/// The one-character text of the digit `d`.
fn digit_str(d: u32) -> (text: &'static str)
    requires
        d < 10,
    ensures
        text@ == seq![digit_char(d as nat)],
{
    proof {
        reveal_strlit("0");
        reveal_strlit("1");
        reveal_strlit("2");
        reveal_strlit("3");
        reveal_strlit("4");
        reveal_strlit("5");
        reveal_strlit("6");
        reveal_strlit("7");
        reveal_strlit("8");
        reveal_strlit("9");
    }
    let text: &'static str = match d {
        0 => "0",
        1 => "1",
        2 => "2",
        3 => "3",
        4 => "4",
        5 => "5",
        6 => "6",
        7 => "7",
        8 => "8",
        _ => "9",
    };
    assert(text@ =~= seq![digit_char(d as nat)]);
    text
}

/// Appends the decimal digits of `n` to `out`.
fn append_natural(out: &mut String, n: u32)
    ensures
        final(out)@ == old(out)@ + natural_text(n as nat),
    decreases n,
{
    if n >= 10 {
        append_natural(out, n / 10);
    }
    out.append(digit_str(n % 10));
    assert(final(out)@ =~= old(out)@ + natural_text(n as nat));
}

/// The decimal text of `n`.
pub fn integer_string(n: i32) -> (text: String)
    ensures
        text@ == integer_text(n as int),
{
    let mut text = String::new();
    if n < 0 {
        proof {
            reveal_strlit("-");
        }
        text.append("-");
        append_natural(&mut text, (0 - n as i64) as u32);
    } else {
        append_natural(&mut text, n as u32);
    }
    assert(text@ =~= integer_text(n as int));
    text
}

/// The line that reports the outcome of a calculation.
///
/// An integer is shown in full. A quotient is shown as `quotient_text`,
/// which the caller renders from the quotient's operands; for the other
/// outcomes that text is not looked at.
pub fn report_line(outcome: &Outcome, quotient_text: &str) -> (line: String)
    ensures
        line@ == report_text(*outcome, quotient_text@),
{
    match outcome {
        Outcome::Integer(n) => {
            let number = integer_string(*n);
            String::from_str("Result: ").concat(number.as_str())
        },
        Outcome::Quotient(_) => String::from_str("Result: ").concat(quotient_text),
        Outcome::InvalidChoice => String::from_str("Invalid choice!"),
    }
}

/// The line that closes a run: the numbers from 1 to 5, one space between
/// each two and none at either end.
pub fn counting_line() -> (line: String)
    ensures
        line@ == counting_text(5),
{
    let mut line = String::new();
    append_natural(&mut line, 1);
    assert(line@ =~= counting_text(1));
    let mut i: u32 = 1;
    while i < 5
        invariant
            1 <= i <= 5,
            line@ == counting_text(i as nat),
        decreases 5 - i,
    {
        i += 1;
        let ghost before = line@;
        proof {
            reveal_strlit(" ");
        }
        line.append(" ");
        append_natural(&mut line, i);
        assert(line@ =~= before.push(' ') + natural_text(i as nat));
    }
    line
}

} // verus!
