//! Rendering of playback positions as `HH:MM:SS` clock strings.

use vstd::prelude::*;

verus! {

/// The decimal digit character for one digit value.
pub open spec fn spec_digit_char(d: int) -> char {
    ((d + 48) as u8) as char
}

/// The decimal representation of a non-negative number, most significant
/// digit first.
pub open spec fn spec_dec_digits(n: int) -> Seq<char>
    decreases n,
{
    if n < 10 {
        seq![spec_digit_char(n)]
    } else {
        spec_dec_digits(n / 10).push(spec_digit_char(n % 10))
    }
}

/// A number padded to at least two digits, as `%02` formatting renders it.
pub open spec fn spec_two_digits(n: int) -> Seq<char> {
    if n < 10 {
        seq!['0', spec_digit_char(n)]
    } else {
        spec_dec_digits(n)
    }
}

/// `HH:MM:SS` for a duration in milliseconds; hours grow past two digits when
/// needed.
pub open spec fn spec_format_time(ms: int) -> Seq<char> {
    spec_two_digits(ms / 3600000) + seq![':'] + spec_two_digits((ms % 3600000) / 60000) + seq![':']
        + spec_two_digits((ms % 60000) / 1000)
}

fn digit_str(d: u64) -> (r: &'static str)
    requires
        d < 10,
    ensures
        r@ == seq![spec_digit_char(d as int)],
{
    proof {
        reveal_strlit("0");
        reveal_strlit("1");
        reveal_strlit("2");
        reveal_strlit("3");
        reveal_strlit("4");
        reveal_strlit("5");
        reveal_strlit("6");
        reveal_strlit("7");
        reveal_strlit("8");
        reveal_strlit("9");
    }
    match d {
        0 => "0",
        1 => "1",
        2 => "2",
        3 => "3",
        4 => "4",
        5 => "5",
        6 => "6",
        7 => "7",
        8 => "8",
        _ => "9",
    }
}

fn to_decimal(n: u64) -> (r: String)
    ensures
        r@ == spec_dec_digits(n as int),
    decreases n,
{
    if n < 10 {
        let mut s = String::new();
        s.append(digit_str(n));
        proof {
            assert(s@ =~= spec_dec_digits(n as int));
        }
        s
    } else {
        let mut s = to_decimal(n / 10);
        s.append(digit_str(n % 10));
        proof {
            assert(s@ =~= spec_dec_digits(n as int));
        }
        s
    }
}

fn two_digits(n: u64) -> (r: String)
    ensures
        r@ == spec_two_digits(n as int),
{
    if n < 10 {
        let mut s = String::new();
        s.append("0");
        s.append(digit_str(n));
        proof {
            reveal_strlit("0");
            assert("0"@ =~= seq!['0']);
            assert(s@ =~= spec_two_digits(n as int));
        }
        s
    } else {
        to_decimal(n)
    }
}

/// Renders a millisecond position as `HH:MM:SS`.
pub fn format_time(ms: u64) -> (r: String)
    ensures
        r@ == spec_format_time(ms as int),
{
    let hours = ms / 3600000;
    let minutes = (ms % 3600000) / 60000;
    let seconds = (ms % 60000) / 1000;
    let mut s = two_digits(hours);
    s.append(":");
    let m = two_digits(minutes);
    s.append(m.as_str());
    s.append(":");
    let sec = two_digits(seconds);
    s.append(sec.as_str());
    proof {
        reveal_strlit(":");
        assert(":"@ =~= seq![':']);
        assert(s@ =~= spec_format_time(ms as int));
    }
    s
}

} // verus!
