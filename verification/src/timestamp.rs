//! Published-time rendering.
//!
//! An article's `published_at` field, when it parses as RFC 3339, is shown
//! as a human-readable `YYYY-MM-DD HH:MM` stamp in a fixed UTC+8 offset.
//! The RFC 3339 parse itself is delegated to an outside crate; everything
//! after it — the conversion of the Unix timestamp to a civil date in the
//! proleptic Gregorian calendar, and the rendering — is verified here.

use vstd::arithmetic::div_mod::lemma_fundamental_div_mod;
use vstd::arithmetic::div_mod::lemma_fundamental_div_mod_converse;
use vstd::prelude::*;

verus! {

/// The Unix timestamp (whole seconds) denoted by a string, when the string
/// is a valid RFC 3339 date-and-time; `None` when it is not. A function of
/// the characters of the string alone.
pub uninterp spec fn rfc3339_epoch_of(s: Seq<char>) -> Option<i64>;

/// The earliest timestamp an RFC 3339 string can denote:
/// 0000-01-01T00:00:00 at the largest eastern offset.
pub const RFC3339_EPOCH_MIN: i64 = -62167305599;

/// The latest timestamp an RFC 3339 string can denote:
/// 9999-12-31T23:59:59 at the largest western offset.
pub const RFC3339_EPOCH_MAX: i64 = 253402387198;

/// Relies on `chrono::DateTime::parse_from_rfc3339`, which parses every
/// valid RFC 3339 date-and-time string and nothing else, and on
/// `chrono::DateTime::timestamp`, which returns the number of non-leap
/// seconds since the Unix epoch; both depend only on the input string.
/// The bounds hold because the parser reads the year from exactly four
/// digits, maps a leap second to second 59, and accepts an offset only
/// through `FixedOffset::east_opt`, which keeps it under one day in
/// magnitude; so every parsed instant lies between 0000-01-01T00:00:00
/// minus 86399 seconds and 9999-12-31T23:59:59 plus 86399 seconds.
#[verifier::external_body]
pub(crate) fn parse_rfc3339_epoch(s: &str) -> (r: Option<i64>)
    ensures
        r == rfc3339_epoch_of(s@),
        r matches Some(e) ==> RFC3339_EPOCH_MIN <= e <= RFC3339_EPOCH_MAX,
{
    match chrono::DateTime::parse_from_rfc3339(s) {
        Ok(dt) => Some(dt.timestamp()),
        Err(_) => None,
    }
}

/// Whether `y` is a leap year of the proleptic Gregorian calendar.
pub open spec fn is_leap_year(y: nat) -> bool {
    (y % 4 == 0 && y % 100 != 0) || y % 400 == 0
}

pub open spec fn days_in_year(y: nat) -> nat {
    if is_leap_year(y) {
        366
    } else {
        365
    }
}

pub open spec fn days_in_month(y: nat, m: nat) -> nat {
    if m == 2 {
        if is_leap_year(y) {
            29
        } else {
            28
        }
    } else if m == 4 || m == 6 || m == 9 || m == 11 {
        30
    } else {
        31
    }
}

/// Days from 0000-01-01 to `y`-01-01.
pub open spec fn days_before_year(y: nat) -> nat
    decreases y,
{
    if y == 0 {
        0
    } else {
        days_before_year((y - 1) as nat) + days_in_year((y - 1) as nat)
    }
}

/// Days from `y`-01-01 to `y`-`m`-01.
pub open spec fn days_before_month(y: nat, m: nat) -> nat
    decreases m,
{
    if m <= 1 {
        0
    } else {
        days_before_month(y, (m - 1) as nat) + days_in_month(y, (m - 1) as nat)
    }
}

pub open spec fn valid_date(y: nat, m: nat, d: nat) -> bool {
    1 <= m <= 12 && 1 <= d <= days_in_month(y, m)
}

/// The day number of a civil date: days since 0000-01-01.
pub open spec fn day_number(y: nat, m: nat, d: nat) -> int {
    days_before_year(y) + days_before_month(y, m) + d - 1
}

/// Peel whole years off a day count, starting at year `y`.
pub open spec fn year_split(y: nat, rem: nat) -> (nat, nat)
    decreases rem,
{
    if rem < days_in_year(y) {
        (y, rem)
    } else {
        year_split(y + 1, (rem - days_in_year(y)) as nat)
    }
}

/// Peel whole months off a day count within year `y`, starting at month `m`.
pub open spec fn month_split(y: nat, m: nat, rem: nat) -> (nat, nat)
    decreases 12 - m,
{
    if m >= 12 || rem < days_in_month(y, m) {
        (m, rem)
    } else {
        month_split(y, m + 1, (rem - days_in_month(y, m)) as nat)
    }
}

/// The civil date (year, month, day) whose day number is `n`.
pub open spec fn civil_of_days(n: nat) -> (nat, nat, nat) {
    let (y, rem_y) = year_split(0, n);
    let (m, rem_m) = month_split(y, 1, rem_y);
    (y, m, (rem_m + 1) as nat)
}

proof fn lemma_days_before_year_mono(a: nat, b: nat)
    requires
        a <= b,
    ensures
        days_before_year(a) <= days_before_year(b),
    decreases b,
{
    if a < b {
        lemma_days_before_year_mono(a, (b - 1) as nat);
    }
}

/// The sum of the twelve month lengths is the year length.
proof fn lemma_days_before_month_full(y: nat)
    ensures
        days_before_month(y, 13) == days_in_year(y),
{
    reveal_with_fuel(days_before_month, 13);
}

/// Stepping the dividend by one either keeps the quotient and steps the
/// remainder, or steps the quotient and resets the remainder to zero.
proof fn lemma_div_unit_step(m: int, k: int)
    requires
        0 <= m,
        0 < k,
    ensures
        (m + 1) % k == 0 ==> (m + 1) / k == m / k + 1,
        (m + 1) % k != 0 ==> (m + 1) / k == m / k && (m + 1) % k == m % k + 1,
{
    let q = m / k;
    let r = m % k;
    lemma_fundamental_div_mod(m, k);
    if r + 1 < k {
        lemma_fundamental_div_mod_converse(m + 1, k, q, r + 1);
    } else {
        assert(m + 1 == (q + 1) * k + 0) by (nonlinear_arith)
            requires
                m == q * k + r,
                r == k - 1,
        ;
        lemma_fundamental_div_mod_converse(m + 1, k, q + 1, 0);
    }
}

/// Closed form for the day count of whole years: 365 per year plus one
/// per leap year among `0 .. y`.
proof fn lemma_days_before_year_formula(y: nat)
    ensures
        days_before_year(y) == 365 * y + (y + 3) / 4 - (y + 99) / 100 + (y + 399) / 400,
    decreases y,
{
    if y > 0 {
        let p = (y - 1) as nat;
        lemma_days_before_year_formula(p);
        lemma_div_unit_step(y + 2 as int, 4);
        lemma_div_unit_step(y + 98 as int, 100);
        lemma_div_unit_step(y + 398 as int, 400);
        vstd::arithmetic::div_mod::lemma_mod_add_multiples_vanish(p as int, 4);
        vstd::arithmetic::div_mod::lemma_mod_add_multiples_vanish(p as int, 100);
        vstd::arithmetic::div_mod::lemma_mod_add_multiples_vanish(p as int, 400);
        assert((y + 3) % 4 == p % 4);
        assert((y + 99) % 100 == p % 100);
        assert((y + 399) % 400 == p % 400);
    }
}

fn is_leap_year_exec(y: u64) -> (r: bool)
    ensures
        r == is_leap_year(y as nat),
{
    (y % 4 == 0 && y % 100 != 0) || y % 400 == 0
}

fn days_in_year_exec(y: u64) -> (r: u64)
    ensures
        r == days_in_year(y as nat),
{
    if is_leap_year_exec(y) {
        366
    } else {
        365
    }
}

fn days_in_month_exec(y: u64, m: u64) -> (r: u64)
    ensures
        r == days_in_month(y as nat, m as nat),
{
    if m == 2 {
        if is_leap_year_exec(y) {
            29
        } else {
            28
        }
    } else if m == 4 || m == 6 || m == 9 || m == 11 {
        30
    } else {
        31
    }
}

/// Number of days in the years `0 ..= 10400`: the day numbers the civil
/// conversion accepts.
pub const CIVIL_DAY_LIMIT: u64 = 3798888;

/// Convert a day number to the civil date holding it. The result is the
/// unique valid date whose day number is `n`.
pub fn civil_from_day_number(n: u64) -> (r: (u64, u64, u64))
    requires
        n < CIVIL_DAY_LIMIT,
    ensures
        valid_date(r.0 as nat, r.1 as nat, r.2 as nat),
        day_number(r.0 as nat, r.1 as nat, r.2 as nat) == n,
        (r.0 as nat, r.1 as nat, r.2 as nat) == civil_of_days(n as nat),
        r.0 <= 10400,
{
    let mut y: u64 = 0;
    let mut rem: u64 = n;
    let mut diy: u64 = days_in_year_exec(0);
    while rem >= diy
        invariant
            n < CIVIL_DAY_LIMIT,
            diy == days_in_year(y as nat),
            days_before_year(y as nat) + rem == n,
            year_split(0, n as nat) == year_split(y as nat, rem as nat),
            y <= 10400,
        decreases rem,
    {
        proof {
            // Passing a year boundary keeps the year within the domain:
            // the years up to 10400 hold more days than any day number
            // in range.
            lemma_days_before_year_formula((y + 1) as nat);
            if y + 1 > 10400 {
                lemma_days_before_year_mono(10401, (y + 1) as nat);
                lemma_days_before_year_formula(10401);
            }
        }
        rem = rem - diy;
        y = y + 1;
        diy = days_in_year_exec(y);
    }
    proof {
        assert(year_split(y as nat, rem as nat) == (y as nat, rem as nat));
    }
    let ghost rem_year: u64 = rem;
    let mut m: u64 = 1;
    let mut dim: u64 = days_in_month_exec(y, 1);
    while rem >= dim
        invariant
            dim == days_in_month(y as nat, m as nat),
            1 <= m <= 12,
            days_before_month(y as nat, m as nat) + rem == rem_year,
            rem_year < days_in_year(y as nat),
            month_split(y as nat, 1, rem_year as nat) == month_split(y as nat, m as nat, rem as nat),
        decreases 12 - m,
    {
        proof {
            // Month 12 always ends the loop: the months of a year sum to
            // the year's length, which bounds `rem_year`.
            if m >= 12 {
                lemma_days_before_month_full(y as nat);
                assert(days_before_month(y as nat, 13) == days_before_month(y as nat, 12)
                    + days_in_month(y as nat, 12));
                assert(false);
            }
        }
        rem = rem - dim;
        m = m + 1;
        dim = days_in_month_exec(y, m);
    }
    proof {
        assert(month_split(y as nat, m as nat, rem as nat) == (m as nat, rem as nat));
    }
    let d: u64 = rem + 1;
    (y, m, d)
}

/// The last two decimal digits of `n`, zero-padded.
pub open spec fn two_digits(n: nat) -> Seq<char> {
    seq![crate::numeral::digit_char((n / 10) % 10), crate::numeral::digit_char(n % 10)]
}

/// The last four decimal digits of `n`, zero-padded.
pub open spec fn four_digits(n: nat) -> Seq<char> {
    seq![
        crate::numeral::digit_char((n / 1000) % 10),
        crate::numeral::digit_char((n / 100) % 10),
        crate::numeral::digit_char((n / 10) % 10),
        crate::numeral::digit_char(n % 10),
    ]
}

/// The characters of a year label: zero-padded to four digits, with an
/// explicit sign for years outside 0 through 9999 (those are reachable
/// only through extreme offsets).
pub open spec fn year_chars(y: int) -> Seq<char> {
    if y < 0 {
        seq!['-'] + four_digits((-y) as nat)
    } else if y <= 9999 {
        four_digits(y as nat)
    } else {
        seq!['+'] + crate::numeral::dec_of(y as nat)
    }
}

/// The `YYYY-MM-DD HH:MM` rendering of a civil time.
pub open spec fn render_stamp(y: int, mo: nat, d: nat, h: nat, mi: nat) -> Seq<char> {
    year_chars(y) + seq!['-'] + two_digits(mo) + seq!['-'] + two_digits(d) + seq![' ']
        + two_digits(h) + seq![':'] + two_digits(mi)
}

/// Seconds from the start of the anchor year -400, on the UTC+8 wall
/// clock, to the Unix epoch: the UTC+8 offset (28800) plus the days from
/// 0000-01-01 to 1970-01-01 (719528) plus one 400-year era (146097 days),
/// times 86400. Counting years from the anchor and relabeling them by
/// -400 lets one calendar cover the wall-clock years -1 through 10000,
/// which the offsets of RFC 3339 can reach.
pub const UTC8_ANCHOR_SHIFT: i64 = 74790028800;

/// The `YYYY-MM-DD HH:MM` stamp of a Unix timestamp in the UTC+8 wall
/// clock; meaningful for the instants RFC 3339 can denote.
pub open spec fn stamp_of_epoch(e: int) -> Seq<char> {
    let total = (e + UTC8_ANCHOR_SHIFT) as nat;
    let days = total / 86400;
    let sod = total % 86400;
    let c = civil_of_days(days);
    render_stamp(c.0 - 400, c.1, c.2, sod / 3600, (sod % 3600) / 60)
}

fn push_two_digits(s: &mut String, n: u64)
    requires
        n < 100,
    ensures
        final(s)@ == old(s)@ + two_digits(n as nat),
{
    crate::numeral::push_digit(s, n / 10);
    crate::numeral::push_digit(s, n % 10);
    proof {
        assert(s@ =~= old(s)@ + two_digits(n as nat));
    }
}

fn push_four_digits(s: &mut String, n: u64)
    requires
        n < 10000,
    ensures
        final(s)@ == old(s)@ + four_digits(n as nat),
{
    crate::numeral::push_digit(s, n / 1000);
    crate::numeral::push_digit(s, (n / 100) % 10);
    crate::numeral::push_digit(s, (n / 10) % 10);
    crate::numeral::push_digit(s, n % 10);
    proof {
        assert(s@ =~= old(s)@ + four_digits(n as nat));
    }
}

/// Append the year label of `y`: four zero-padded digits, with an
/// explicit sign outside 0 through 9999.
fn push_year(s: &mut String, y: i64)
    requires
        -9999 <= y,
    ensures
        final(s)@ == old(s)@ + year_chars(y as int),
{
    if y < 0 {
        s.append("-");
        push_four_digits(s, (-y) as u64);
        proof {
            reveal_strlit("-");
            assert(s@ =~= old(s)@ + year_chars(y as int));
        }
    } else if y <= 9999 {
        push_four_digits(s, y as u64);
    } else {
        s.append("+");
        let digits = crate::numeral::u64_to_string(y as u64);
        s.append(digits.as_str());
        proof {
            reveal_strlit("+");
            assert(s@ =~= old(s)@ + year_chars(y as int));
        }
    }
}

/// Render the UTC+8 wall-clock stamp of a Unix timestamp, for any instant
/// RFC 3339 can denote.
pub fn render_epoch_utc8(epoch: i64) -> (r: String)
    requires
        RFC3339_EPOCH_MIN <= epoch <= RFC3339_EPOCH_MAX,
    ensures
        r@ == stamp_of_epoch(epoch as int),
{
    let total: u64 = (epoch + UTC8_ANCHOR_SHIFT) as u64;
    proof {
        assert(total < CIVIL_DAY_LIMIT * 86400);
        vstd::arithmetic::div_mod::lemma_multiply_divide_lt(
            total as int,
            CIVIL_DAY_LIMIT as int,
            86400,
        );
    }
    let days: u64 = total / 86400;
    let sod: u64 = total % 86400;
    let civil = civil_from_day_number(days);
    let year: i64 = civil.0 as i64 - 400;
    let hour: u64 = sod / 3600;
    let minute: u64 = (sod % 3600) / 60;
    let mut s = String::new();
    push_year(&mut s, year);
    s.append("-");
    push_two_digits(&mut s, civil.1);
    s.append("-");
    push_two_digits(&mut s, civil.2);
    s.append(" ");
    push_two_digits(&mut s, hour);
    s.append(":");
    push_two_digits(&mut s, minute);
    proof {
        reveal_strlit("-");
        reveal_strlit(" ");
        reveal_strlit(":");
        assert("-"@ =~= seq!['-']);
        assert(" "@ =~= seq![' ']);
        assert(":"@ =~= seq![':']);
        assert(s@ =~= stamp_of_epoch(epoch as int));
    }
    s
}

} // verus!
