//! Timestamps for settings records: proleptic-Gregorian date computation
//! from Unix epoch seconds, and rendering as "YYYY-MM-DDTHH:MM:SSZ".
use vstd::prelude::*;

verus! {

/// The Gregorian leap-year rule.
pub open spec fn spec_is_leap(y: int) -> bool {
    (y % 4 == 0 && y % 100 != 0) || y % 400 == 0
}

/// Days in year `y`.
pub open spec fn spec_days_in_year(y: int) -> int {
    if spec_is_leap(y) {
        366
    } else {
        365
    }
}

/// Days in month `m` of year `y`.
pub open spec fn spec_days_in_month(y: int, m: int) -> int {
    if m == 2 {
        if spec_is_leap(y) {
            29
        } else {
            28
        }
    } else if m == 4 || m == 6 || m == 9 || m == 11 {
        30
    } else {
        31
    }
}

/// Days from 1970-01-01 to the first day of year `y`.
pub open spec fn spec_days_before_year(y: int) -> int
    decreases y - 1970,
{
    if y <= 1970 {
        0
    } else {
        spec_days_before_year(y - 1) + spec_days_in_year(y - 1)
    }
}

/// Days from the first day of year `y` to the first day of its month `m`.
pub open spec fn spec_days_before_month(y: int, m: int) -> int
    decreases m,
{
    if m <= 1 {
        0
    } else {
        spec_days_before_month(y, m - 1) + spec_days_in_month(y, m - 1)
    }
}

/// Days since 1970-01-01 of the date `(y, m, d)`.
pub open spec fn spec_ymd_to_days(y: int, m: int, d: int) -> int {
    spec_days_before_year(y) + spec_days_before_month(y, m) + (d - 1)
}

/// A calendar date on or after 1970-01-01.
pub open spec fn spec_valid_civil(y: int, m: int, d: int) -> bool {
    y >= 1970 && 1 <= m <= 12 && 1 <= d <= spec_days_in_month(y, m)
}

/// The twelve months of `y` sum to its day count.
proof fn lemma_months_sum_to_year(y: int)
    ensures
        spec_days_before_month(y, 13) == spec_days_in_year(y),
{
    reveal_with_fuel(spec_days_before_month, 14);
}

/// Whether `y` is a leap year.
pub fn is_leap(y: u64) -> (r: bool)
    ensures
        r == spec_is_leap(y as int),
{
    (y % 4 == 0 && y % 100 != 0) || y % 400 == 0
}

/// Days in year `y`.
fn days_in_year(y: u64) -> (r: u64)
    ensures
        r as int == spec_days_in_year(y as int),
{
    if is_leap(y) {
        366
    } else {
        365
    }
}

/// Days in month `m` of year `y`.
fn days_in_month(y: u64, m: u64) -> (r: u64)
    requires
        1 <= m <= 12,
    ensures
        r as int == spec_days_in_month(y as int, m as int),
{
    if m == 2 {
        if is_leap(y) {
            29
        } else {
            28
        }
    } else if m == 4 || m == 6 || m == 9 || m == 11 {
        30
    } else {
        31
    }
}

/// Convert days since 1970-01-01 to the unique `(year, month, day)` date:
/// the date is valid and maps back to the very day count.
pub fn days_to_ymd(days: u64) -> (r: (u64, u64, u64))
    ensures
        spec_valid_civil(r.0 as int, r.1 as int, r.2 as int),
        spec_ymd_to_days(r.0 as int, r.1 as int, r.2 as int) == days as int,
{
    let mut remaining = days;
    let mut year: u64 = 1970;
    while remaining >= days_in_year(year)
        invariant
            1970 <= year,
            remaining as int == days as int - spec_days_before_year(year as int),
            365 * (year as int - 1970) <= days as int - remaining as int,
        decreases remaining,
    {
        remaining = remaining - days_in_year(year);
        year = year + 1;
    }
    let mut month: u64 = 1;
    while remaining >= days_in_month(year, month)
        invariant
            1 <= month <= 12,
            1970 <= year,
            remaining as int == days as int - spec_days_before_year(year as int)
                - spec_days_before_month(year as int, month as int),
            remaining as int + spec_days_before_month(year as int, month as int)
                < spec_days_in_year(year as int),
        decreases 12 - month,
    {
        proof {
            lemma_months_sum_to_year(year as int);
        }
        remaining = remaining - days_in_month(year, month);
        month = month + 1;
    }
    (year, month, remaining + 1)
}

/// The decimal digit `d` as a character.
pub open spec fn spec_digit_char(d: int) -> char {
    if d == 0 {
        '0'
    } else if d == 1 {
        '1'
    } else if d == 2 {
        '2'
    } else if d == 3 {
        '3'
    } else if d == 4 {
        '4'
    } else if d == 5 {
        '5'
    } else if d == 6 {
        '6'
    } else if d == 7 {
        '7'
    } else if d == 8 {
        '8'
    } else {
        '9'
    }
}

/// The decimal rendering of `n >= 0`, most significant digit first.
pub open spec fn spec_decimal(n: int) -> Seq<char>
    decreases n,
{
    if n < 10 {
        seq![spec_digit_char(n)]
    } else {
        spec_decimal(n / 10).push(spec_digit_char(n % 10))
    }
}

/// `n` rendered as exactly two digits, zero-padded.
pub open spec fn spec_two_digits(n: int) -> Seq<char> {
    seq![spec_digit_char(n / 10), spec_digit_char(n % 10)]
}

/// `n` rendered zero-padded to at least four digits.
pub open spec fn spec_padded4(n: int) -> Seq<char> {
    if n < 10000 {
        seq![
            spec_digit_char(n / 1000),
            spec_digit_char((n / 100) % 10),
            spec_digit_char((n / 10) % 10),
            spec_digit_char(n % 10),
        ]
    } else {
        spec_decimal(n)
    }
}

/// The one-character string for digit `d`.
fn digit_str(d: u64) -> (r: &'static str)
    requires
        d < 10,
    ensures
        r@ == seq![spec_digit_char(d as int)],
{
    match d {
        0 => {
            proof {
                reveal_strlit("0");
                assert(("0")@ =~= seq!['0']);
            }
            "0"
        },
        1 => {
            proof {
                reveal_strlit("1");
                assert(("1")@ =~= seq!['1']);
            }
            "1"
        },
        2 => {
            proof {
                reveal_strlit("2");
                assert(("2")@ =~= seq!['2']);
            }
            "2"
        },
        3 => {
            proof {
                reveal_strlit("3");
                assert(("3")@ =~= seq!['3']);
            }
            "3"
        },
        4 => {
            proof {
                reveal_strlit("4");
                assert(("4")@ =~= seq!['4']);
            }
            "4"
        },
        5 => {
            proof {
                reveal_strlit("5");
                assert(("5")@ =~= seq!['5']);
            }
            "5"
        },
        6 => {
            proof {
                reveal_strlit("6");
                assert(("6")@ =~= seq!['6']);
            }
            "6"
        },
        7 => {
            proof {
                reveal_strlit("7");
                assert(("7")@ =~= seq!['7']);
            }
            "7"
        },
        8 => {
            proof {
                reveal_strlit("8");
                assert(("8")@ =~= seq!['8']);
            }
            "8"
        },
        _ => {
            proof {
                reveal_strlit("9");
                assert(("9")@ =~= seq!['9']);
            }
            "9"
        },
    }
}

/// Append the two-digit rendering of `n`.
fn push_two_digits(s: &mut String, n: u64)
    requires
        n < 100,
    ensures
        final(s)@ == old(s)@ + spec_two_digits(n as int),
{
    s.append(digit_str(n / 10));
    s.append(digit_str(n % 10));
    proof {
        assert(final(s)@ =~= old(s)@ + spec_two_digits(n as int));
    }
}

/// Append the decimal rendering of `n`.
fn push_decimal(s: &mut String, n: u64)
    ensures
        final(s)@ == old(s)@ + spec_decimal(n as int),
    decreases n,
{
    if n < 10 {
        s.append(digit_str(n));
        proof {
            assert(final(s)@ =~= old(s)@ + spec_decimal(n as int));
        }
    } else {
        push_decimal(s, n / 10);
        s.append(digit_str(n % 10));
        proof {
            assert(final(s)@ =~= old(s)@ + spec_decimal(n as int));
        }
    }
}

/// Append the rendering of `n` zero-padded to at least four digits.
fn push_padded4(s: &mut String, n: u64)
    ensures
        final(s)@ == old(s)@ + spec_padded4(n as int),
{
    if n < 10000 {
        s.append(digit_str(n / 1000));
        s.append(digit_str((n / 100) % 10));
        s.append(digit_str((n / 10) % 10));
        s.append(digit_str(n % 10));
        proof {
            assert(final(s)@ =~= old(s)@ + spec_padded4(n as int));
        }
    } else {
        push_decimal(s, n);
    }
}

/// The rendering "YYYY-MM-DDTHH:MM:SSZ" of the given components.
pub open spec fn spec_render_timestamp(y: int, mo: int, d: int, hh: int, mi: int, ss: int) -> Seq<
    char,
> {
    spec_padded4(y) + seq!['-'] + spec_two_digits(mo) + seq!['-'] + spec_two_digits(d) + seq!['T']
        + spec_two_digits(hh) + seq![':'] + spec_two_digits(mi) + seq![':'] + spec_two_digits(ss)
        + seq!['Z']
}

/// `s` renders the instant `secs` seconds after the Unix epoch: its date
/// part maps back to the right day, its time part to the right second of
/// that day.
pub open spec fn is_timestamp_for(secs: int, s: Seq<char>) -> bool {
    exists|y: int, mo: int, d: int|
        {
            &&& spec_valid_civil(y, mo, d)
            &&& spec_ymd_to_days(y, mo, d) == secs / 86400
            &&& s == spec_render_timestamp(
                y,
                mo,
                d,
                (secs % 86400) / 3600,
                ((secs % 86400) % 3600) / 60,
                (secs % 86400) % 60,
            )
        }
}

/// Append a one-character separator.
fn push_sep(s: &mut String, sep: &str, c: Ghost<char>)
    requires
        sep@ == seq![c@],
    ensures
        final(s)@ == old(s)@ + seq![c@],
{
    s.append(sep);
}

/// Render `secs` seconds after the Unix epoch as "YYYY-MM-DDTHH:MM:SSZ".
pub fn format_unix_timestamp(secs: u64) -> (r: String)
    ensures
        is_timestamp_for(secs as int, r@),
{
    let days = secs / 86400;
    let tod = secs % 86400;
    let hh = tod / 3600;
    let mi = (tod % 3600) / 60;
    let ss = tod % 60;
    proof {
        assert(hh < 24 && mi < 60 && ss < 60) by (nonlinear_arith)
            requires
                tod < 86400,
                hh == tod / 3600,
                mi == (tod % 3600) / 60,
                ss == tod % 60,
        ;
    }
    let (y, mo, d) = days_to_ymd(days);
    let mut out = String::new();
    push_padded4(&mut out, y);
    proof {
        reveal_strlit("-");
        reveal_strlit("T");
        reveal_strlit(":");
        reveal_strlit("Z");
        assert(("-")@ =~= seq!['-']);
        assert(("T")@ =~= seq!['T']);
        assert((":")@ =~= seq![':']);
        assert(("Z")@ =~= seq!['Z']);
    }
    push_sep(&mut out, "-", Ghost('-'));
    push_two_digits(&mut out, mo);
    push_sep(&mut out, "-", Ghost('-'));
    push_two_digits(&mut out, d);
    push_sep(&mut out, "T", Ghost('T'));
    push_two_digits(&mut out, hh);
    push_sep(&mut out, ":", Ghost(':'));
    push_two_digits(&mut out, mi);
    push_sep(&mut out, ":", Ghost(':'));
    push_two_digits(&mut out, ss);
    push_sep(&mut out, "Z", Ghost('Z'));
    proof {
        assert(out@ =~= spec_render_timestamp(
            y as int,
            mo as int,
            d as int,
            hh as int,
            mi as int,
            ss as int,
        ));
        assert((secs as int) % 86400 == tod as int);
        assert((secs as int) / 86400 == days as int);
        assert(spec_valid_civil(y as int, mo as int, d as int) && spec_ymd_to_days(
            y as int,
            mo as int,
            d as int,
        ) == days as int && out@ == spec_render_timestamp(
            y as int,
            mo as int,
            d as int,
            ((secs as int) % 86400) / 3600,
            (((secs as int) % 86400) % 3600) / 60,
            ((secs as int) % 86400) % 60,
        ));
    }
    out
}

/// Relies on std::time::SystemTime and Duration: the wall clock's whole
/// seconds since the Unix epoch, 0 if the clock reads before it.
#[verifier::external_body]
fn now_unix_secs() -> u64 {
    std::time::SystemTime::now()
        .duration_since(std::time::UNIX_EPOCH)
        .map(|d| d.as_secs())
        .unwrap_or(0)
}

/// The current instant rendered as "YYYY-MM-DDTHH:MM:SSZ" (UTC, second
/// precision).
pub fn chrono_now() -> (r: String)
    ensures
        exists|secs: u64| is_timestamp_for(secs as int, r@),
{
    let secs = now_unix_secs();
    let r = format_unix_timestamp(secs);
    proof {
        assert(is_timestamp_for(secs as int, r@));
    }
    r
}

} // verus!
