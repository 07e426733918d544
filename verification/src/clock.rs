//! Writing a span of time as `HH:MM:SS`.

use crate::settings::MILLIS_PER_SECOND;
use vstd::prelude::*;
use vstd::string::StringExecFns;

verus! {

/// The character for one decimal digit.
pub open spec fn digit_char(d: nat) -> char {
    if d == 0 {
        '0'
    } else if d == 1 {
        '1'
    } else if d == 2 {
        '2'
    } else if d == 3 {
        '3'
    } else if d == 4 {
        '4'
    } else if d == 5 {
        '5'
    } else if d == 6 {
        '6'
    } else if d == 7 {
        '7'
    } else if d == 8 {
        '8'
    } else {
        '9'
    }
}

/// A number in decimal, without leading zeros.
pub open spec fn decimal(n: nat) -> Seq<char>
    decreases n,
{
    if n < 10 {
        seq![digit_char(n)]
    } else {
        decimal(n / 10).push(digit_char(n % 10))
    }
}

/// A number in decimal, with a leading zero if it has one digit only.
pub open spec fn two_digits(n: nat) -> Seq<char> {
    if n < 10 {
        seq!['0'].push(digit_char(n))
    } else {
        decimal(n)
    }
}

/// The whole seconds of a span of milliseconds, written as hours, minutes
/// and seconds with a colon between them. Minutes and seconds have two
/// digits, hours have two or as many as they need.
pub open spec fn clock_text(millis: nat) -> Seq<char> {
    let seconds = millis / 1000;
    two_digits(seconds / 3600) + seq![':'] + two_digits(seconds % 3600 / 60) + seq![':']
        + two_digits(seconds % 60)
}

/// Below a hundred hours the text has exactly the eight characters of
/// `HH:MM:SS`, with the colons in the third and sixth place.
pub proof fn lemma_clock_text_shape(millis: nat)
    requires
        millis < 360_000_000,
    ensures
        clock_text(millis).len() == 8,
        clock_text(millis)[2] == ':',
        clock_text(millis)[5] == ':',
{
    let seconds = millis / 1000;
    lemma_two_digits_len(seconds / 3600);
    lemma_two_digits_len(seconds % 3600 / 60);
    lemma_two_digits_len(seconds % 60);
}

/// A number below a hundred takes exactly two characters.
pub proof fn lemma_two_digits_len(n: nat)
    requires
        n < 100,
    ensures
        two_digits(n).len() == 2,
{
    if n >= 10 {
        assert(decimal(n / 10).len() == 1);
    }
}

/// One decimal digit as text.
fn digit_str(d: u64) -> (text: &'static str)
    requires
        d < 10,
    ensures
        text@ == seq![digit_char(d as nat)],
{
    proof {
        reveal_strlit("0");
        reveal_strlit("1");
        reveal_strlit("2");
        reveal_strlit("3");
        reveal_strlit("4");
        reveal_strlit("5");
        reveal_strlit("6");
        reveal_strlit("7");
        reveal_strlit("8");
        reveal_strlit("9");
    }
    let text = if d == 0 {
        "0"
    } else if d == 1 {
        "1"
    } else if d == 2 {
        "2"
    } else if d == 3 {
        "3"
    } else if d == 4 {
        "4"
    } else if d == 5 {
        "5"
    } else if d == 6 {
        "6"
    } else if d == 7 {
        "7"
    } else if d == 8 {
        "8"
    } else {
        "9"
    };
    assert(text@ =~= seq![digit_char(d as nat)]);
    text
}

/// Appends a number in decimal, without leading zeros.
fn push_decimal(out: &mut String, n: u64)
    ensures
        final(out)@ == old(out)@ + decimal(n as nat),
    decreases n,
{
    if n >= 10 {
        push_decimal(out, n / 10);
    }
    out.append(digit_str(n % 10));
    assert(out@ =~= old(out)@ + decimal(n as nat));
}

/// Appends a number in decimal, with a leading zero if it has one digit only.
fn push_two_digits(out: &mut String, n: u64)
    ensures
        final(out)@ == old(out)@ + two_digits(n as nat),
{
    if n < 10 {
        out.append("0");
        proof {
            reveal_strlit("0");
        }
    }
    push_decimal(out, n);
    assert(out@ =~= old(out)@ + two_digits(n as nat));
}

/// Writes the whole seconds of a span of milliseconds as `HH:MM:SS`.
pub fn format_clock(millis: u64) -> (text: String)
    ensures
        text@ == clock_text(millis as nat),
{
    let seconds: u64 = millis / MILLIS_PER_SECOND;
    let mut text = String::new();
    push_two_digits(&mut text, seconds / 3600);
    text.append(":");
    push_two_digits(&mut text, seconds % 3600 / 60);
    text.append(":");
    push_two_digits(&mut text, seconds % 60);
    proof {
        reveal_strlit(":");
        assert(":"@ =~= seq![':']);
        assert(text@ =~= clock_text(millis as nat));
    }
    text
}

} // verus!
