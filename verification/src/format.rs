//! Rendering of durations and clock readings as text, at the resolution
//! of a granularity.

use vstd::prelude::*;
use vstd::arithmetic::div_mod::lemma_fundamental_div_mod_converse;
use crate::granularity::{lemma_floor_minute, normalize_spec, Granularity};
use crate::time::TimeOfDay;

verus! {

/// The character of a decimal digit.
pub open spec fn digit_char(digit: int) -> char {
    if digit == 0 {
        '0'
    } else if digit == 1 {
        '1'
    } else if digit == 2 {
        '2'
    } else if digit == 3 {
        '3'
    } else if digit == 4 {
        '4'
    } else if digit == 5 {
        '5'
    } else if digit == 6 {
        '6'
    } else if digit == 7 {
        '7'
    } else if digit == 8 {
        '8'
    } else {
        '9'
    }
}

/// The decimal digits of a natural number, without leading zeros.
pub open spec fn decimal(n: nat) -> Seq<char>
    decreases n,
{
    if n < 10 {
        seq![digit_char(n as int)]
    } else {
        decimal(n / 10).push(digit_char((n % 10) as int))
    }
}

/// The decimal digits of an integer, with a minus sign if it is negative.
pub open spec fn signed_decimal(n: int) -> Seq<char> {
    if n < 0 {
        seq!['-'] + decimal((-n) as nat)
    } else {
        decimal(n as nat)
    }
}

/// An integer written at least two characters wide: a single digit gets a
/// leading zero, everything else is written as it is.
pub open spec fn two_wide(n: int) -> Seq<char> {
    if 0 <= n < 10 {
        seq!['0'] + decimal(n as nat)
    } else {
        signed_decimal(n)
    }
}

/// Quotient of a division that rounds towards zero.
pub open spec fn quotient_towards_zero(a: int, b: int) -> int {
    if a >= 0 {
        a / b
    } else {
        -((-a) / b)
    }
}

/// Remainder of a division that rounds towards zero; it has the sign of
/// the dividend.
pub open spec fn remainder_towards_zero(a: int, b: int) -> int {
    a - b * quotient_towards_zero(a, b)
}

/// The whole hours of a span of seconds.
pub open spec fn hours_of(total_seconds: int) -> int {
    quotient_towards_zero(total_seconds, 3600)
}

/// The whole minutes of a span of seconds beyond its whole hours.
pub open spec fn minutes_of(total_seconds: int) -> int {
    remainder_towards_zero(quotient_towards_zero(total_seconds, 60), 60)
}

/// The seconds of a span beyond its whole minutes.
pub open spec fn seconds_of(total_seconds: int) -> int {
    remainder_towards_zero(total_seconds, 60)
}

/// A span of seconds as text: hours alone under `Relaxed`, hours and
/// minutes floored to the minute step under the granularities up to `Ocd`,
/// hours, minutes and seconds under `Scientific`.
pub open spec fn format_hms_spec(granularity: Granularity, total_seconds: int) -> Seq<char> {
    let hours = signed_decimal(hours_of(total_seconds));
    let minutes = minutes_of(total_seconds);
    match granularity {
        Granularity::Relaxed => hours + seq!['h'],
        Granularity::Scientific => hours + seq!['h', ' '] + two_wide(minutes) + seq!['m', ' ']
            + two_wide(seconds_of(total_seconds)) + seq!['s'],
        _ => hours + seq!['h', ' '] + two_wide(
            quotient_towards_zero(minutes, granularity.minute_step_spec())
                * granularity.minute_step_spec(),
        ) + seq!['m'],
    }
}

/// A clock reading as text: the hour and `00` under `Relaxed`, hour and
/// minute floored to the minute step under the granularities up to `Ocd`,
/// hour, minute and second under `Scientific`; every number two wide.
pub open spec fn format_clock_spec(
    granularity: Granularity,
    hours: int,
    minutes: int,
    seconds: int,
) -> Seq<char> {
    match granularity {
        Granularity::Relaxed => two_wide(hours) + seq![':', '0', '0'],
        Granularity::Scientific => two_wide(hours) + seq![':'] + two_wide(minutes) + seq![':']
            + two_wide(seconds),
        _ => two_wide(hours) + seq![':'] + two_wide(
            minutes / granularity.minute_step_spec() * granularity.minute_step_spec(),
        ),
    }
}

/// A time of day as the clock reading of its hour, minute and second.
pub open spec fn format_naive_time_spec(granularity: Granularity, it: TimeOfDay) -> Seq<char> {
    format_clock_spec(granularity, it.hour as int, it.minute as int, it.second as int)
}

/// A span of seconds as text behind a prompt, a colon and a tab.
pub open spec fn format_hms_with_prompt_spec(
    granularity: Granularity,
    prompt: Seq<char>,
    total_seconds: int,
) -> Seq<char> {
    prompt + seq![':', '\t'] + format_hms_spec(granularity, total_seconds)
}

/// A number below a hundred is written two wide as its tens and its units.
pub proof fn lemma_two_wide_digits(n: int)
    requires
        0 <= n < 100,
    ensures
        two_wide(n) == seq![digit_char(n / 10), digit_char(n % 10)],
{
    reveal_with_fuel(decimal, 2);
    assert(two_wide(n) =~= seq![digit_char(n / 10), digit_char(n % 10)]);
}

/// Two numbers below a hundred that are written alike two wide are the
/// same number.
pub proof fn lemma_two_wide_injective(a: int, b: int)
    requires
        0 <= a < 100,
        0 <= b < 100,
        two_wide(a) == two_wide(b),
    ensures
        a == b,
{
    lemma_two_wide_digits(a);
    lemma_two_wide_digits(b);
    let left = seq![digit_char(a / 10), digit_char(a % 10)];
    let right = seq![digit_char(b / 10), digit_char(b % 10)];
    assert(left[0] == right[0]);
    assert(left[1] == right[1]);
}

/// The clock reading of a valid time is as long as its granularity fixes,
/// and holds the hour in its first two characters.
pub proof fn lemma_clock_text_shape(granularity: Granularity, it: TimeOfDay)
    requires
        it.is_valid(),
    ensures
        format_naive_time_spec(granularity, it).len() == if granularity
            == Granularity::Scientific {
            8int
        } else {
            5int
        },
        format_naive_time_spec(granularity, it).subrange(0, 2) == two_wide(it.hour as int),
        granularity != Granularity::Relaxed ==> format_naive_time_spec(granularity, it).subrange(
            3,
            5,
        ) == two_wide(it.minute as int / granularity.minute_step_spec()
            * granularity.minute_step_spec()),
        granularity == Granularity::Scientific ==> format_naive_time_spec(
            granularity,
            it,
        ).subrange(6, 8) == two_wide(it.second as int),
{
    let text = format_naive_time_spec(granularity, it);
    let shown = it.minute as int / granularity.minute_step_spec()
        * granularity.minute_step_spec();
    lemma_two_wide_digits(it.hour as int);
    lemma_two_wide_digits(it.second as int);
    assert(0 <= shown < 60) by {
        match granularity {
            Granularity::Relaxed => {},
            Granularity::Reasonable => {},
            Granularity::Detailed => {},
            Granularity::Paranoid => {},
            Granularity::Ocd => {},
            Granularity::Scientific => {},
        }
    }
    lemma_two_wide_digits(shown);
    assert(text.subrange(0, 2) =~= two_wide(it.hour as int));
    if granularity != Granularity::Relaxed {
        assert(text.subrange(3, 5) =~= two_wide(shown));
    }
    if granularity == Granularity::Scientific {
        assert(text.subrange(6, 8) =~= two_wide(it.second as int));
    }
}

/// Two valid times with the same clock reading are floored to the same
/// time.
pub proof fn lemma_clock_text_determines_time(
    granularity: Granularity,
    left: TimeOfDay,
    right: TimeOfDay,
)
    requires
        left.is_valid(),
        right.is_valid(),
        format_naive_time_spec(granularity, left) == format_naive_time_spec(granularity, right),
    ensures
        normalize_spec(left, granularity) == normalize_spec(right, granularity),
{
    let step = granularity.minute_step_spec();
    lemma_clock_text_shape(granularity, left);
    lemma_clock_text_shape(granularity, right);
    lemma_floor_minute(left.minute, granularity);
    lemma_floor_minute(right.minute, granularity);
    lemma_two_wide_injective(left.hour as int, right.hour as int);
    if granularity != Granularity::Relaxed {
        lemma_two_wide_injective(
            left.minute as int / step * step,
            right.minute as int / step * step,
        );
    }
    if granularity == Granularity::Scientific {
        lemma_two_wide_injective(left.second as int, right.second as int);
    }
}

/// The parts of a span of `hours`, `minutes` and `seconds`, where the
/// minutes and seconds stay within the hour and the minute.
proof fn lemma_span_parts(hours: int, minutes: int, seconds: int)
    requires
        0 <= hours,
        0 <= minutes < 60,
        0 <= seconds < 60,
    ensures
        hours_of(hours * 3600 + minutes * 60 + seconds) == hours,
        minutes_of(hours * 3600 + minutes * 60 + seconds) == minutes,
        seconds_of(hours * 3600 + minutes * 60 + seconds) == seconds,
{
    let total = hours * 3600 + minutes * 60 + seconds;
    lemma_fundamental_div_mod_converse(total, 3600, hours, minutes * 60 + seconds);
    lemma_fundamental_div_mod_converse(total, 60, hours * 60 + minutes, seconds);
    lemma_fundamental_div_mod_converse(hours * 60 + minutes, 60, hours, minutes);
}

/// A span that is not negative reads the same as the span floored to a
/// whole number of steps of the granularity.
pub proof fn lemma_format_hms_of_floored(granularity: Granularity, total_seconds: int)
    requires
        total_seconds >= 0,
    ensures
        format_hms_spec(granularity, total_seconds) == format_hms_spec(
            granularity,
            total_seconds - total_seconds % granularity.step_seconds_spec(),
        ),
{
    let hours = total_seconds / 3600;
    let minutes = (total_seconds / 60) % 60;
    let seconds = total_seconds % 60;
    assert(total_seconds == hours * 3600 + minutes * 60 + seconds);
    lemma_span_parts(hours, minutes, seconds);
    match granularity {
        Granularity::Relaxed => {
            let rest = minutes * 60 + seconds;
            lemma_fundamental_div_mod_converse(total_seconds, 3600, hours, rest);
            lemma_span_parts(hours, 0, 0);
        },
        Granularity::Reasonable => {
            let kept = minutes / 30 * 30;
            let rest = (minutes - kept) * 60 + seconds;
            lemma_fundamental_div_mod_converse(total_seconds, 1800, hours * 2 + minutes / 30, rest);
            lemma_span_parts(hours, kept, 0);
        },
        Granularity::Detailed => {
            let kept = minutes / 15 * 15;
            let rest = (minutes - kept) * 60 + seconds;
            lemma_fundamental_div_mod_converse(total_seconds, 900, hours * 4 + minutes / 15, rest);
            lemma_span_parts(hours, kept, 0);
        },
        Granularity::Paranoid => {
            let kept = minutes / 5 * 5;
            let rest = (minutes - kept) * 60 + seconds;
            lemma_fundamental_div_mod_converse(total_seconds, 300, hours * 12 + minutes / 5, rest);
            lemma_span_parts(hours, kept, 0);
        },
        Granularity::Ocd => {
            lemma_fundamental_div_mod_converse(total_seconds, 60, hours * 60 + minutes, seconds);
            lemma_span_parts(hours, minutes, 0);
        },
        Granularity::Scientific => {},
    }
}

fn push_digit(out: &mut String, digit: u64)
    requires
        digit < 10,
    ensures
        final(out)@ == old(out)@.push(digit_char(digit as int)),
{
    proof {
        reveal_strlit("0");
        reveal_strlit("1");
        reveal_strlit("2");
        reveal_strlit("3");
        reveal_strlit("4");
        reveal_strlit("5");
        reveal_strlit("6");
        reveal_strlit("7");
        reveal_strlit("8");
        reveal_strlit("9");
    }
    let text: &str = if digit == 0 {
        "0"
    } else if digit == 1 {
        "1"
    } else if digit == 2 {
        "2"
    } else if digit == 3 {
        "3"
    } else if digit == 4 {
        "4"
    } else if digit == 5 {
        "5"
    } else if digit == 6 {
        "6"
    } else if digit == 7 {
        "7"
    } else if digit == 8 {
        "8"
    } else {
        "9"
    };
    assert(text@ =~= seq![digit_char(digit as int)]);
    out.append(text);
    assert(final(out)@ =~= old(out)@.push(digit_char(digit as int)));
}

fn push_decimal(out: &mut String, n: u64)
    ensures
        final(out)@ == old(out)@ + decimal(n as nat),
    decreases n,
{
    if n >= 10 {
        push_decimal(out, n / 10);
    }
    push_digit(out, n % 10);
    assert(final(out)@ =~= old(out)@ + decimal(n as nat));
}

fn push_signed(out: &mut String, n: i64)
    ensures
        final(out)@ == old(out)@ + signed_decimal(n as int),
{
    if n < 0 {
        proof {
            reveal_strlit("-");
        }
        out.append("-");
        let magnitude: u64 = (-(n as i128)) as u64;
        push_decimal(out, magnitude);
        assert("-"@ =~= seq!['-']);
        assert(final(out)@ =~= old(out)@ + signed_decimal(n as int));
    } else {
        push_decimal(out, n as u64);
    }
}

fn push_two_wide(out: &mut String, n: i64)
    ensures
        final(out)@ == old(out)@ + two_wide(n as int),
{
    if 0 <= n && n < 10 {
        push_digit(out, 0);
        push_decimal(out, n as u64);
        assert(final(out)@ =~= old(out)@ + two_wide(n as int));
    } else {
        push_signed(out, n);
    }
}

/// Writes a span of seconds as hours, minutes and seconds, showing no more
/// than the granularity resolves.
pub fn format_hms(granularity: Granularity, total_seconds: i64) -> (r: String)
    ensures
        r@ == format_hms_spec(granularity, total_seconds as int),
{
    let hours: i64 = total_seconds / 3600;
    let minutes: i64 = (total_seconds / 60) % 60;
    let seconds: i64 = total_seconds % 60;
    assert(hours == hours_of(total_seconds as int));
    assert(minutes == minutes_of(total_seconds as int));
    assert(seconds == seconds_of(total_seconds as int));
    proof {
        reveal_strlit("h");
        reveal_strlit("h ");
        reveal_strlit("m");
        reveal_strlit("m ");
        reveal_strlit("s");
    }
    let mut out = String::new();
    push_signed(&mut out, hours);
    match granularity {
        Granularity::Relaxed => {
            out.append("h");
            assert("h"@ =~= seq!['h']);
        },
        Granularity::Scientific => {
            out.append("h ");
            push_two_wide(&mut out, minutes);
            out.append("m ");
            push_two_wide(&mut out, seconds);
            out.append("s");
            assert("h "@ =~= seq!['h', ' ']);
            assert("m "@ =~= seq!['m', ' ']);
            assert("s"@ =~= seq!['s']);
        },
        _ => {
            let step: i64 = granularity.minute_step() as i64;
            let shown: i64 = minutes / step * step;
            assert(shown == quotient_towards_zero(minutes as int, step as int) * step) by {
                assert(-60 < minutes < 60);
                assert(step == 30 || step == 15 || step == 5 || step == 1);
            }
            out.append("h ");
            push_two_wide(&mut out, shown);
            out.append("m");
            assert("h "@ =~= seq!['h', ' ']);
            assert("m"@ =~= seq!['m']);
        },
    }
    assert(out@ =~= format_hms_spec(granularity, total_seconds as int));
    out
}

/// Writes a span of seconds behind a prompt.
pub fn format_hms_with_prompt(
    granularity: Granularity,
    prompt: &str,
    total_seconds: i64,
) -> (r: String)
    ensures
        r@ == format_hms_with_prompt_spec(granularity, prompt@, total_seconds as int),
{
    proof {
        reveal_strlit(":\t");
    }
    let shown = format_hms(granularity, total_seconds);
    let mut out = String::new();
    out.append(prompt);
    out.append(":\t");
    out.append(shown.as_str());
    assert(":\t"@ =~= seq![':', '\t']);
    assert(out@ =~= format_hms_with_prompt_spec(granularity, prompt@, total_seconds as int));
    out
}

/// Writes a clock reading, showing no more than the granularity resolves.
pub fn format_clock(
    granularity: Granularity,
    hours: u32,
    minutes: u32,
    seconds: u32,
) -> (r: String)
    ensures
        r@ == format_clock_spec(granularity, hours as int, minutes as int, seconds as int),
{
    proof {
        reveal_strlit(":");
        reveal_strlit(":00");
    }
    let mut out = String::new();
    push_two_wide(&mut out, hours as i64);
    match granularity {
        Granularity::Relaxed => {
            out.append(":00");
            assert(":00"@ =~= seq![':', '0', '0']);
        },
        Granularity::Scientific => {
            out.append(":");
            push_two_wide(&mut out, minutes as i64);
            out.append(":");
            push_two_wide(&mut out, seconds as i64);
            assert(":"@ =~= seq![':']);
        },
        _ => {
            let step: u32 = granularity.minute_step();
            let shown: u32 = minutes / step * step;
            out.append(":");
            push_two_wide(&mut out, shown as i64);
            assert(":"@ =~= seq![':']);
        },
    }
    assert(out@ =~= format_clock_spec(
        granularity,
        hours as int,
        minutes as int,
        seconds as int,
    ));
    out
}

/// Writes a time of day as the clock reading of its hour, minute and
/// second.
pub fn format_naive_time(granularity: Granularity, it: TimeOfDay) -> (r: String)
    ensures
        r@ == format_naive_time_spec(granularity, it),
{
    format_clock(granularity, it.hour, it.minute, it.second)
}

} // verus!
