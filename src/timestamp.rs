use vstd::prelude::*;
use vstd::string::*;

verus! {

/// The character of a decimal digit.
pub open spec fn digit_char(d: nat) -> char {
    if d == 0 {
        '0'
    } else if d == 1 {
        '1'
    } else if d == 2 {
        '2'
    } else if d == 3 {
        '3'
    } else if d == 4 {
        '4'
    } else if d == 5 {
        '5'
    } else if d == 6 {
        '6'
    } else if d == 7 {
        '7'
    } else if d == 8 {
        '8'
    } else {
        '9'
    }
}

/// The decimal digits of `n`, without leading zeros.
pub open spec fn decimal(n: nat) -> Seq<char>
    decreases n,
{
    if n < 10 {
        seq![digit_char(n)]
    } else {
        decimal(n / 10).push(digit_char(n % 10))
    }
}

/// `n` (below 100) as exactly two digits.
pub open spec fn two_digits(n: nat) -> Seq<char> {
    seq![digit_char(n / 10), digit_char(n % 10)]
}

/// `n` (below 1000) as exactly three digits.
pub open spec fn three_digits(n: nat) -> Seq<char> {
    seq![digit_char(n / 100), digit_char((n / 10) % 10), digit_char(n % 10)]
}

/// An hour count, zero-padded to at least two digits.
pub open spec fn hours_text(h: nat) -> Seq<char> {
    if h < 10 {
        seq!['0', digit_char(h)]
    } else {
        decimal(h)
    }
}

/// How the milliseconds of a timestamp are set apart from its seconds.
#[derive(Clone, Copy, Debug, PartialEq, Eq, Structural)]
pub enum TimestampStyle {
    /// WebVTT: `HH:MM:SS.mmm`
    Vtt,
    /// SubRip: `HH:MM:SS,mmm`
    Srt,
}

pub open spec fn marker_char(style: TimestampStyle) -> char {
    match style {
        TimestampStyle::Vtt => '.',
        TimestampStyle::Srt => ',',
    }
}

/// `HH:MM:SS<marker>mmm` for a time given in milliseconds.
pub open spec fn timestamp_text(ms: nat, style: TimestampStyle) -> Seq<char> {
    hours_text(ms / 3_600_000) + seq![':'] + two_digits((ms / 60_000) % 60) + seq![':']
        + two_digits((ms / 1000) % 60) + seq![marker_char(style)] + three_digits(ms % 1000)
}

fn digit_text(d: u64) -> (r: &'static str)
    requires
        d < 10,
    ensures
        r@ == seq![digit_char(d as nat)],
{
    let r = if d == 0 {
        "0"
    } else if d == 1 {
        "1"
    } else if d == 2 {
        "2"
    } else if d == 3 {
        "3"
    } else if d == 4 {
        "4"
    } else if d == 5 {
        "5"
    } else if d == 6 {
        "6"
    } else if d == 7 {
        "7"
    } else if d == 8 {
        "8"
    } else {
        "9"
    };
    proof {
        reveal_strlit("0");
        reveal_strlit("1");
        reveal_strlit("2");
        reveal_strlit("3");
        reveal_strlit("4");
        reveal_strlit("5");
        reveal_strlit("6");
        reveal_strlit("7");
        reveal_strlit("8");
        reveal_strlit("9");
        assert(r@ =~= seq![digit_char(d as nat)]);
    }
    r
}

/// Appends the decimal digits of `n` to `s`.
pub fn push_decimal(s: &mut String, n: u64)
    ensures
        final(s)@ == old(s)@ + decimal(n as nat),
    decreases n,
{
    if n >= 10 {
        push_decimal(s, n / 10);
    }
    s.append(digit_text(n % 10));
    proof {
        if n >= 10 {
            assert(old(s)@ + decimal(n as nat) =~= old(s)@ + decimal((n / 10) as nat) + seq![
                digit_char((n % 10) as nat),
            ]);
        } else {
            assert(old(s)@ + decimal(n as nat) =~= old(s)@ + seq![digit_char((n % 10) as nat)]);
        }
    }
}

fn push_two_digits(s: &mut String, n: u64)
    requires
        n < 100,
    ensures
        final(s)@ == old(s)@ + two_digits(n as nat),
{
    s.append(digit_text(n / 10));
    s.append(digit_text(n % 10));
    assert(final(s)@ =~= old(s)@ + two_digits(n as nat));
}

fn push_three_digits(s: &mut String, n: u64)
    requires
        n < 1000,
    ensures
        final(s)@ == old(s)@ + three_digits(n as nat),
{
    s.append(digit_text(n / 100));
    s.append(digit_text((n / 10) % 10));
    s.append(digit_text(n % 10));
    assert(final(s)@ =~= old(s)@ + three_digits(n as nat));
}

/// Appends `ms` rendered as `HH:MM:SS<marker>mmm` to `s`.
pub fn push_timestamp(s: &mut String, ms: u64, style: TimestampStyle)
    ensures
        final(s)@ == old(s)@ + timestamp_text(ms as nat, style),
{
    let hours = ms / 3_600_000;
    if hours < 10 {
        proof {
            reveal_strlit("0");
        }
        s.append("0");
        s.append(digit_text(hours));
        assert(s@ =~= old(s)@ + hours_text(hours as nat));
    } else {
        push_decimal(s, hours);
    }
    s.append(":");
    push_two_digits(s, (ms / 60_000) % 60);
    s.append(":");
    push_two_digits(s, (ms / 1000) % 60);
    match style {
        TimestampStyle::Vtt => s.append("."),
        TimestampStyle::Srt => s.append(","),
    }
    push_three_digits(s, ms % 1000);
    proof {
        reveal_strlit(":");
        reveal_strlit(".");
        reveal_strlit(",");
    }
    assert(final(s)@ =~= old(s)@ + timestamp_text(ms as nat, style));
}

/// `ms` rendered as `HH:MM:SS<marker>mmm`: hours padded to at least two
/// digits, minutes and seconds to two, milliseconds to three.
pub fn format_timestamp(ms: u64, style: TimestampStyle) -> (r: String)
    ensures
        r@ == timestamp_text(ms as nat, style),
{
    let mut s = String::new();
    push_timestamp(&mut s, ms, style);
    assert(s@ =~= timestamp_text(ms as nat, style));
    s
}

} // verus!
