//! Numbers written out for the player.

use vstd::prelude::*;
use vstd::string::*;

verus! {

/// The decimal digits of `n` (at least one).
pub open spec fn decimal(n: nat) -> Seq<char>
    decreases n,
{
    if n < 10 {
        seq![digit_char(n)]
    } else {
        decimal(n / 10).push(digit_char(n % 10))
    }
}

/// The character of the digit `d`.
pub open spec fn digit_char(d: nat) -> char {
    (('0' as u32) + d) as char
}

/// The decimal digits of `n`, with a leading zero below ten.
pub open spec fn two_digits(n: nat) -> Seq<char> {
    if n < 10 {
        seq!['0'] + decimal(n)
    } else {
        decimal(n)
    }
}

/// A duration of `secs` seconds as hours, minutes and seconds, each with at
/// least two digits: `HH:MM:SS`.
pub open spec fn duration_text(secs: nat) -> Seq<char> {
    two_digits(secs / 3600) + seq![':'] + two_digits((secs % 3600) / 60) + seq![':'] + two_digits(
        secs % 60,
    )
}

fn digit(d: u64) -> (s: &'static str)
    requires
        d < 10,
    ensures
        s@ == seq![digit_char(d as nat)],
{
    proof {
        reveal_strlit("0");
        reveal_strlit("1");
        reveal_strlit("2");
        reveal_strlit("3");
        reveal_strlit("4");
        reveal_strlit("5");
        reveal_strlit("6");
        reveal_strlit("7");
        reveal_strlit("8");
        reveal_strlit("9");
    }
    let s = if d == 0 {
        "0"
    } else if d == 1 {
        "1"
    } else if d == 2 {
        "2"
    } else if d == 3 {
        "3"
    } else if d == 4 {
        "4"
    } else if d == 5 {
        "5"
    } else if d == 6 {
        "6"
    } else if d == 7 {
        "7"
    } else if d == 8 {
        "8"
    } else {
        "9"
    };
    assert(s@ =~= seq![digit_char(d as nat)]);
    s
}

/// Appends the decimal digits of `n` to `out`.
pub fn push_decimal(out: &mut String, n: u64)
    ensures
        final(out)@ == old(out)@ + decimal(n as nat),
    decreases n,
{
    if n < 10 {
        out.append(digit(n));
    } else {
        push_decimal(out, n / 10);
        out.append(digit(n % 10));
        assert(old(out)@ + decimal(n as nat) =~= old(out)@ + decimal((n / 10) as nat) + seq![
            digit_char((n % 10) as nat),
        ]);
    }
}

/// `n` in decimal, with a leading zero below ten.
pub fn push_two_digits(out: &mut String, n: u64)
    ensures
        final(out)@ == old(out)@ + two_digits(n as nat),
{
    proof {
        reveal_strlit("0");
    }
    if n < 10 {
        out.append("0");
        push_decimal(out, n);
        assert(old(out)@ + two_digits(n as nat) =~= old(out)@ + "0"@ + decimal(n as nat));
    } else {
        push_decimal(out, n);
    }
}

/// A duration in whole seconds as `HH:MM:SS`.
pub fn format_duration(secs: u64) -> (text: String)
    ensures
        text@ == duration_text(secs as nat),
{
    proof {
        reveal_strlit(":");
    }
    let mut text = String::new();
    push_two_digits(&mut text, secs / 3600);
    text.append(":");
    push_two_digits(&mut text, (secs % 3600) / 60);
    text.append(":");
    push_two_digits(&mut text, secs % 60);
    assert(text@ =~= duration_text(secs as nat));
    text
}

} // verus!
