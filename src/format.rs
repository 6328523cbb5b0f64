use core::time::Duration;
use vstd::prelude::*;

verus! {

pub open spec fn digit_char(d: nat) -> char {
    if d == 0 {
        '0'
    } else if d == 1 {
        '1'
    } else if d == 2 {
        '2'
    } else if d == 3 {
        '3'
    } else if d == 4 {
        '4'
    } else if d == 5 {
        '5'
    } else if d == 6 {
        '6'
    } else if d == 7 {
        '7'
    } else if d == 8 {
        '8'
    } else {
        '9'
    }
}

/// `n` in base ten, most significant digit first, without leading zeros.
pub open spec fn decimal(n: nat) -> Seq<char>
    decreases n,
{
    if n < 10 {
        seq![digit_char(n)]
    } else {
        decimal(n / 10) + seq![digit_char(n % 10)]
    }
}

/// An approximate amount: a tilde, the number, then its unit.
pub open spec fn approx(n: nat, unit: Seq<char>) -> Seq<char> {
    "~"@ + decimal(n) + unit
}

/// A span of `nanos` nanoseconds in its largest unit that is not zero,
/// rounded down.
pub open spec fn duration_words(nanos: nat) -> Seq<char> {
    let micros = nanos / 1000;
    let millis = nanos / 1_000_000;
    let seconds = nanos / 1_000_000_000;
    let minutes = seconds / 60;
    let hours = minutes / 60;
    let days = hours / 24;
    let years = days / 365;
    if years > 0 {
        approx(years, " year(s)"@)
    } else if days > 0 {
        approx(days, " day(s)"@)
    } else if hours > 0 {
        approx(hours, " hour(s)"@)
    } else if minutes > 0 {
        approx(minutes, " minute(s)"@)
    } else if seconds > 0 {
        approx(seconds, " second(s)"@)
    } else if millis > 0 {
        approx(millis, " millisecond(s)"@)
    } else if micros > 0 {
        approx(micros, " microsecond(s)"@)
    } else {
        approx(nanos, " nanosecond(s)"@)
    }
}

/// Relies on `Duration::as_nanos`: the span's whole nanoseconds.
pub assume_specification[ Duration::as_nanos ](d: &Duration) -> u128;

fn digit_str(d: u128) -> (r: &'static str)
    requires
        d < 10,
    ensures
        r@ == seq![digit_char(d as nat)],
{
    proof {
        reveal_strlit("0");
        reveal_strlit("1");
        reveal_strlit("2");
        reveal_strlit("3");
        reveal_strlit("4");
        reveal_strlit("5");
        reveal_strlit("6");
        reveal_strlit("7");
        reveal_strlit("8");
        reveal_strlit("9");
    }
    if d == 0 {
        assert("0"@ =~= seq!['0']);
        "0"
    } else if d == 1 {
        assert("1"@ =~= seq!['1']);
        "1"
    } else if d == 2 {
        assert("2"@ =~= seq!['2']);
        "2"
    } else if d == 3 {
        assert("3"@ =~= seq!['3']);
        "3"
    } else if d == 4 {
        assert("4"@ =~= seq!['4']);
        "4"
    } else if d == 5 {
        assert("5"@ =~= seq!['5']);
        "5"
    } else if d == 6 {
        assert("6"@ =~= seq!['6']);
        "6"
    } else if d == 7 {
        assert("7"@ =~= seq!['7']);
        "7"
    } else if d == 8 {
        assert("8"@ =~= seq!['8']);
        "8"
    } else {
        assert("9"@ =~= seq!['9']);
        "9"
    }
}

/// Appends `n` in base ten.
pub fn push_decimal(s: &mut String, n: u128)
    ensures
        final(s)@ == old(s)@ + decimal(n as nat),
    decreases n,
{
    if n >= 10 {
        push_decimal(s, n / 10);
    }
    s.append(digit_str(n % 10));
    proof {
        if n < 10 {
            assert(n % 10 == n);
        }
        assert(final(s)@ =~= old(s)@ + decimal(n as nat));
    }
}

fn push_approx(n: u128, unit: &str) -> (r: String)
    ensures
        r@ == approx(n as nat, unit@),
{
    let mut s = String::new();
    s.append("~");
    push_decimal(&mut s, n);
    s.append(unit);
    assert(s@ =~= approx(n as nat, unit@));
    s
}

/// A span of `nanos` nanoseconds, in words, in its largest unit that is not
/// zero.
pub fn nanos_in_words(nanos: u128) -> (r: String)
    ensures
        r@ == duration_words(nanos as nat),
{
    let micros = nanos / 1000;
    let millis = nanos / 1_000_000;
    let seconds = nanos / 1_000_000_000;
    let minutes = seconds / 60;
    let hours = minutes / 60;
    let days = hours / 24;
    let years = days / 365;
    if years > 0 {
        push_approx(years, " year(s)")
    } else if days > 0 {
        push_approx(days, " day(s)")
    } else if hours > 0 {
        push_approx(hours, " hour(s)")
    } else if minutes > 0 {
        push_approx(minutes, " minute(s)")
    } else if seconds > 0 {
        push_approx(seconds, " second(s)")
    } else if millis > 0 {
        push_approx(millis, " millisecond(s)")
    } else if micros > 0 {
        push_approx(micros, " microsecond(s)")
    } else {
        push_approx(nanos, " nanosecond(s)")
    }
}

/// A duration, in words, in its largest unit that is not zero.
pub fn duration(span: Duration) -> (r: String)
    ensures
        exists|nanos: u128| r@ == duration_words(nanos as nat),
{
    let nanos = span.as_nanos();
    nanos_in_words(nanos)
}

} // verus!
