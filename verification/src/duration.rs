//! Durations as MPD documents write them: `P[nD][T[nH][nM][n[.f]S]]`.

use vstd::prelude::*;
use crate::text::to_chars;

verus! {

/// Whether `c` is a decimal digit.
pub open spec fn is_digit(c: char) -> bool {
    '0' <= c && c <= '9'
}

/// The value of the digit `c`.
pub open spec fn digit_value(c: char) -> nat {
    (c as u32 - '0' as u32) as nat
}

/// Where the run of digits that starts at `i` ends.
pub open spec fn digits_end(s: Seq<char>, i: int) -> int
    decreases s.len() - i,
{
    if 0 <= i < s.len() && is_digit(s[i]) {
        digits_end(s, i + 1)
    } else {
        i
    }
}

/// The number that the digits of `s` from `from` up to `to` write.
pub open spec fn number_value(s: Seq<char>, from: int, to: int) -> nat
    decreases to - from,
{
    if to <= from {
        0
    } else {
        number_value(s, from, to - 1) * 10 + digit_value(s[to - 1])
    }
}

/// The milliseconds that the fraction digits of `s` from `from` up to `to`
/// stand for. Digits after the third are dropped.
pub open spec fn fraction_ms(s: Seq<char>, from: int, to: int) -> nat {
    let first = if from < to {
        digit_value(s[from])
    } else {
        0
    };
    let second = if from + 1 < to {
        digit_value(s[from + 1])
    } else {
        0
    };
    let third = if from + 2 < to {
        digit_value(s[from + 2])
    } else {
        0
    };
    first * 100 + second * 10 + third
}

/// The component with the designator `unit` at position `i`: its number
/// and where the text goes on. There is none where no digits stand at `i`
/// or another character follows them.
pub open spec fn component(s: Seq<char>, i: int, unit: char) -> Option<(nat, int)> {
    let end = digits_end(s, i);
    if i < end && end < s.len() && s[end] == unit {
        Some((number_value(s, i, end), end + 1))
    } else {
        None
    }
}

/// The seconds component at position `i`, in milliseconds: whole seconds,
/// or seconds with a fraction.
pub open spec fn seconds_component(s: Seq<char>, i: int) -> Option<(nat, int)> {
    let end = digits_end(s, i);
    if i < end && end < s.len() && s[end] == 'S' {
        Some((number_value(s, i, end) * 1000, end + 1))
    } else if i < end && end < s.len() && s[end] == '.' {
        let fraction_end = digits_end(s, end + 1);
        if end + 1 < fraction_end && fraction_end < s.len() && s[fraction_end] == 'S' {
            Some(
                (
                    number_value(s, i, end) * 1000 + fraction_ms(s, end + 1, fraction_end),
                    fraction_end + 1,
                ),
            )
        } else {
            None
        }
    } else {
        None
    }
}

/// The number of an optional component, and where the text goes on after
/// it.
pub open spec fn optional(found: Option<(nat, int)>, i: int) -> (nat, int) {
    match found {
        Some(part) => part,
        None => (0, i),
    }
}

/// The milliseconds that the duration text `s` stands for. The text is
/// `P`, then days, then, after `T`, hours, minutes and seconds; each part
/// may be missing. Years, months and weeks, whose length is not fixed or
/// not used in manifests, make the text invalid, as does anything that
/// follows the last part.
pub open spec fn duration_ms_of(s: Seq<char>) -> Option<nat> {
    if s.len() == 0 || s[0] != 'P' {
        None
    } else {
        let (days, after_days) = optional(component(s, 1, 'D'), 1);
        if after_days == s.len() {
            Some(days * 86_400_000)
        } else if s[after_days] != 'T' {
            None
        } else {
            let (hours, after_hours) = optional(component(s, after_days + 1, 'H'), after_days + 1);
            let (minutes, after_minutes) = optional(component(s, after_hours, 'M'), after_hours);
            let (millis, after_seconds) = optional(
                seconds_component(s, after_minutes),
                after_minutes,
            );
            if after_seconds == s.len() {
                Some(days * 86_400_000 + hours * 3_600_000 + minutes * 60_000 + millis)
            } else {
                None
            }
        }
    }
}

/// A run of digits ends inside the text, at a character that is no digit.
pub proof fn lemma_digits_end(s: Seq<char>, i: int)
    requires
        0 <= i <= s.len(),
    ensures
        i <= digits_end(s, i) <= s.len(),
        forall|k: int| i <= k < digits_end(s, i) ==> is_digit(#[trigger] s[k]),
        digits_end(s, i) < s.len() ==> !is_digit(s[digits_end(s, i)]),
    decreases s.len() - i,
{
    if i < s.len() && is_digit(s[i]) {
        lemma_digits_end(s, i + 1);
    }
}

/// The value of a digit.
fn digit_of(c: char) -> (d: u64)
    requires
        is_digit(c),
    ensures
        d == digit_value(c),
        d <= 9,
{
    (c as u32 - '0' as u32) as u64
}

/// Reads the run of digits at `i`: where it ends, and the number it
/// writes, if that fits 64 bits.
fn read_number(s: &Vec<char>, i: usize) -> (r: (Option<u64>, usize))
    requires
        i <= s.len(),
    ensures
        r.1 == digits_end(s@, i as int),
        i <= r.1 <= s.len(),
        match r.0 {
            Some(v) => v == number_value(s@, i as int, r.1 as int),
            None => number_value(s@, i as int, r.1 as int) > u64::MAX,
        },
{
    let mut value: Option<u64> = Some(0);
    let mut k: usize = i;
    while k < s.len() && '0' <= s[k] && s[k] <= '9'
        invariant
            i <= k <= s.len(),
            digits_end(s@, i as int) == digits_end(s@, k as int),
            match value {
                Some(v) => v == number_value(s@, i as int, k as int),
                None => number_value(s@, i as int, k as int) > u64::MAX,
            },
        decreases s.len() - k,
    {
        let d = digit_of(s[k]);
        value = match value {
            Some(v) => {
                if v <= (u64::MAX - d) / 10 {
                    Some(v * 10 + d)
                } else {
                    None
                }
            },
            None => None,
        };
        k = k + 1;
    }
    (value, k)
}

/// `total` holds the sum `sum`, or nothing where the sum does not fit 64
/// bits.
pub open spec fn holds(total: Option<u64>, sum: int) -> bool {
    match total {
        Some(t) => t == sum,
        None => sum > u64::MAX,
    }
}

/// Adds `value` times `unit` to a running sum.
fn add_scaled(total: Option<u64>, value: Option<u64>, unit: u64, Ghost(sum): Ghost<int>, Ghost(
    number,
): Ghost<int>) -> (r: Option<u64>)
    requires
        sum >= 0,
        number >= 0,
        1 <= unit <= 86_400_000,
        holds(total, sum),
        holds(value, number),
    ensures
        holds(r, sum + number * unit),
{
    assert(number * unit >= number) by (nonlinear_arith)
        requires
            unit >= 1,
            number >= 0,
    ;
    match (total, value) {
        (Some(t), Some(v)) => {
            let scaled: u128 = crate::common::product(v, unit);
            assert(v * unit <= 0xffff_ffff_ffff_ffff * 86_400_000) by (nonlinear_arith)
                requires
                    0 <= v <= 0xffff_ffff_ffff_ffff,
                    0 <= unit <= 86_400_000,
            ;
            let sum: u128 = scaled + (t as u128);
            if sum <= u64::MAX as u128 {
                Some(sum as u64)
            } else {
                None
            }
        },
        _ => None,
    }
}

/// Reads the optional component with the designator `unit` at `at` and
/// adds it, in milliseconds, to a running sum.
fn read_component(
    s: &Vec<char>,
    at: usize,
    unit: char,
    unit_ms: u64,
    total: Option<u64>,
    Ghost(sum): Ghost<int>,
) -> (r: (Option<u64>, usize))
    requires
        at <= s.len(),
        1 <= unit_ms <= 86_400_000,
        sum >= 0,
        holds(total, sum),
    ensures
        r.1 == optional(component(s@, at as int, unit), at as int).1,
        at <= r.1 <= s.len(),
        holds(r.0, sum + optional(component(s@, at as int, unit), at as int).0 * unit_ms),
{
    let (value, end) = read_number(s, at);
    if at < end && end < s.len() && s[end] == unit {
        let ghost number = number_value(s@, at as int, end as int) as int;
        (add_scaled(total, value, unit_ms, Ghost(sum), Ghost(number)), end + 1)
    } else {
        (total, at)
    }
}

/// Reads the optional seconds component at `at` and adds it, in
/// milliseconds, to a running sum.
fn read_seconds(s: &Vec<char>, at: usize, total: Option<u64>, Ghost(sum): Ghost<int>) -> (r: (
    Option<u64>,
    usize,
))
    requires
        at <= s.len(),
        sum >= 0,
        holds(total, sum),
    ensures
        r.1 == optional(seconds_component(s@, at as int), at as int).1,
        at <= r.1 <= s.len(),
        holds(r.0, sum + optional(seconds_component(s@, at as int), at as int).0),
{
    let n = s.len();
    let (seconds, end) = read_number(s, at);
    let ghost number = number_value(s@, at as int, end as int) as int;
    if at < end && end < n && s[end] == 'S' {
        (add_scaled(total, seconds, 1000, Ghost(sum), Ghost(number)), end + 1)
    } else if at < end && end < n && s[end] == '.' {
        let (_, fraction_end) = read_number(s, end + 1);
        if end + 1 < fraction_end && fraction_end < n && s[fraction_end] == 'S' {
            proof {
                lemma_digits_end(s@, end + 1);
            }
            let first = digit_of(s[end + 1]);
            let second = if end + 2 < fraction_end {
                digit_of(s[end + 2])
            } else {
                0
            };
            let third = if end + 3 < fraction_end {
                digit_of(s[end + 3])
            } else {
                0
            };
            let fraction: u64 = first * 100 + second * 10 + third;
            let whole = add_scaled(total, seconds, 1000, Ghost(sum), Ghost(number));
            let all = add_scaled(
                whole,
                Some(fraction),
                1,
                Ghost(sum + number * 1000),
                Ghost(fraction as int),
            );
            (all, fraction_end + 1)
        } else {
            (total, at)
        }
    } else {
        (total, at)
    }
}

/// Reads a duration as an MPD document writes it and returns its length
/// in milliseconds. Text that is no duration of the supported form, and a
/// length beyond 64 bits, yield nothing.
pub fn parse_duration_ms(text: &str) -> (r: Option<u64>)
    ensures
        r == match duration_ms_of(text@) {
            Some(ms) => if ms <= u64::MAX {
                Some(ms as u64)
            } else {
                None
            },
            None => None,
        },
{
    let s = to_chars(text);
    let n = s.len();
    if n == 0 || s[0] != 'P' {
        return None;
    }
    let (total, at) = read_component(&s, 1, 'D', 86_400_000, Some(0), Ghost(0int));
    let ghost days = optional(component(s@, 1, 'D'), 1).0 as int;
    if at == n {
        return total;
    }
    if s[at] != 'T' {
        return None;
    }
    let ghost start = at + 1;
    let (total, at) = read_component(&s, at + 1, 'H', 3_600_000, total, Ghost(days * 86_400_000));
    let ghost hours = optional(component(s@, start, 'H'), start).0 as int;
    let ghost after_hours = at as int;
    let (total, at) = read_component(
        &s,
        at,
        'M',
        60_000,
        total,
        Ghost(days * 86_400_000 + hours * 3_600_000),
    );
    let ghost minutes = optional(component(s@, after_hours, 'M'), after_hours).0 as int;
    let (total, at) = read_seconds(
        &s,
        at,
        total,
        Ghost(days * 86_400_000 + hours * 3_600_000 + minutes * 60_000),
    );
    if at == n {
        total
    } else {
        None
    }
}

} // verus!
