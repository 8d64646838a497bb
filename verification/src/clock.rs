//! Civil time.  A [`Timestamp`] holds a UTC instant as plain calendar
//! fields; conversion from microseconds since the Unix epoch is verified
//! against the inverse direction (reassembling the fields gives back the
//! input), and the RFC 3339 rendering is exact.  Only reading the clock
//! itself is trusted.

use vstd::prelude::*;
use vstd::string::StringExecFns;

use crate::text::dec_pad;
use crate::text::is_dec_digit;
use crate::text::lemma_dec_pad_digits;
use crate::text::lemma_dec_pad_len;
use crate::text::push_u64_dec_pad;

verus! {

/// A UTC instant, split into calendar fields.
#[derive(Clone, Copy, Debug, PartialEq, Eq, Structural)]
pub struct Timestamp {
    pub year: u64,
    pub month: u64,
    pub day: u64,
    pub hour: u64,
    pub minute: u64,
    pub second: u64,
    pub micros: u64,
}

/// Whether `y` is a leap year in the proleptic Gregorian calendar.
pub open spec fn is_leap_year(y: nat) -> bool {
    y % 4 == 0 && (y % 100 != 0 || y % 400 == 0)
}

/// Days in year `y`.
pub open spec fn days_in_year(y: nat) -> nat {
    if is_leap_year(y) {
        366
    } else {
        365
    }
}

/// Days in month `m` of year `y`.
pub open spec fn days_in_month(y: nat, m: nat) -> nat
    recommends
        1 <= m <= 12,
{
    if m == 2 {
        if is_leap_year(y) {
            29
        } else {
            28
        }
    } else if m == 4 || m == 6 || m == 9 || m == 11 {
        30
    } else {
        31
    }
}

/// Days from the epoch (1970-01-01) to the start of year `y`.
pub open spec fn days_before_year(y: nat) -> nat
    decreases y,
{
    if y <= 1970 {
        0
    } else {
        days_before_year((y - 1) as nat) + days_in_year((y - 1) as nat)
    }
}

/// Days from the start of year `y` to the start of month `m`.
pub open spec fn days_before_month(y: nat, m: nat) -> nat
    decreases m,
{
    if m <= 1 {
        0
    } else {
        days_before_month(y, (m - 1) as nat) + days_in_month(y, (m - 1) as nat)
    }
}

impl Timestamp {
    /// Field validity: a real calendar date from 1970 on, and a time of day.
    pub open spec fn wf(&self) -> bool {
        &&& 1970 <= self.year
        &&& 1 <= self.month <= 12
        &&& 1 <= self.day <= days_in_month(self.year as nat, self.month as nat)
        &&& self.hour < 24
        &&& self.minute < 60
        &&& self.second < 60
        &&& self.micros < 1000000
    }

    /// The instant this timestamp denotes, as microseconds since the epoch.
    pub open spec fn as_micros(&self) -> int {
        ((days_before_year(self.year as nat) + days_before_month(
            self.year as nat,
            self.month as nat,
        ) + (self.day - 1)) * 86400 + self.hour * 3600 + self.minute * 60 + self.second) * 1000000
            + self.micros
    }
}

/// Years contribute at least 365 days each.
proof fn lemma_days_before_year_lower(y: nat)
    requires
        1970 <= y,
    ensures
        days_before_year(y) >= 365 * (y - 1970),
    decreases y,
{
    if y > 1970 {
        lemma_days_before_year_lower((y - 1) as nat);
    }
}

/// The twelve months of year `y` sum to the length of the year.
proof fn lemma_months_sum(y: nat)
    ensures
        days_before_month(y, 13) == days_in_year(y),
{
    reveal_with_fuel(days_before_month, 14);
}

/// Later years never start earlier.
proof fn lemma_days_before_year_mono(x: nat, y: nat)
    requires
        x <= y,
    ensures
        days_before_year(x) <= days_before_year(y),
    decreases y,
{
    if x < y {
        lemma_days_before_year_mono(x, (y - 1) as nat);
    }
}

/// Later months never start earlier.
proof fn lemma_days_before_month_mono(y: nat, a: nat, b: nat)
    requires
        a <= b,
    ensures
        days_before_month(y, a) <= days_before_month(y, b),
    decreases b,
{
    if a < b {
        lemma_days_before_month_mono(y, a, (b - 1) as nat);
    }
}

/// A well-formed date falls strictly inside its own year.
proof fn lemma_day_of_year_bound(t: Timestamp)
    requires
        t.wf(),
    ensures
        days_before_month(t.year as nat, t.month as nat) + t.day - 1 < days_in_year(t.year as nat),
{
    lemma_months_sum(t.year as nat);
    lemma_days_before_month_mono(t.year as nat, (t.month + 1) as nat, 13);
    assert(days_before_month(t.year as nat, (t.month + 1) as nat) == days_before_month(
        t.year as nat,
        t.month as nat,
    ) + days_in_month(t.year as nat, t.month as nat));
}

/// Law: an instant has exactly one well-formed calendar splitting, so the
/// conversion from microseconds is pinned down by its two postconditions.
pub proof fn lemma_timestamp_unique(a: Timestamp, b: Timestamp)
    requires
        a.wf(),
        b.wf(),
        a.as_micros() == b.as_micros(),
    ensures
        a == b,
{
    let da = days_before_year(a.year as nat) + days_before_month(a.year as nat, a.month as nat)
        + (a.day - 1);
    let db = days_before_year(b.year as nat) + days_before_month(b.year as nat, b.month as nat)
        + (b.day - 1);
    let sa = a.hour * 3600 + a.minute * 60 + a.second;
    let sb = b.hour * 3600 + b.minute * 60 + b.second;
    assert(sa < 86400 && sb < 86400);
    assert((da * 86400 + sa) * 1000000 + a.micros == (db * 86400 + sb) * 1000000 + b.micros);
    assert(da * 86400 + sa == db * 86400 + sb && a.micros == b.micros) by (nonlinear_arith)
        requires
            (da * 86400 + sa) * 1000000 + a.micros == (db * 86400 + sb) * 1000000 + b.micros,
            0 <= a.micros < 1000000,
            0 <= b.micros < 1000000,
            0 <= da,
            0 <= db,
            0 <= sa,
            0 <= sb,
    ;
    assert(da == db && sa == sb) by (nonlinear_arith)
        requires
            da * 86400 + sa == db * 86400 + sb,
            0 <= sa < 86400,
            0 <= sb < 86400,
            0 <= da,
            0 <= db,
    ;
    assert(a.hour == b.hour && a.minute == b.minute && a.second == b.second);

    lemma_day_of_year_bound(a);
    lemma_day_of_year_bound(b);
    if a.year < b.year {
        lemma_days_before_year_mono((a.year + 1) as nat, b.year as nat);
        assert(days_before_year((a.year + 1) as nat) == days_before_year(a.year as nat)
            + days_in_year(a.year as nat));
        assert(false);
    }
    if b.year < a.year {
        lemma_days_before_year_mono((b.year + 1) as nat, a.year as nat);
        assert(days_before_year((b.year + 1) as nat) == days_before_year(b.year as nat)
            + days_in_year(b.year as nat));
        assert(false);
    }
    assert(a.year == b.year);
    let y = a.year as nat;
    if a.month < b.month {
        lemma_days_before_month_mono(y, (a.month + 1) as nat, b.month as nat);
        assert(days_before_month(y, (a.month + 1) as nat) == days_before_month(y, a.month as nat)
            + days_in_month(y, a.month as nat));
        assert(false);
    }
    if b.month < a.month {
        lemma_days_before_month_mono(y, (b.month + 1) as nat, a.month as nat);
        assert(days_before_month(y, (b.month + 1) as nat) == days_before_month(y, b.month as nat)
            + days_in_month(y, b.month as nat));
        assert(false);
    }
    assert(a.month == b.month);
    assert(a.day == b.day);
}

/// Exec mirror of [`is_leap_year`].
fn leap_year(y: u64) -> (r: bool)
    ensures
        r == is_leap_year(y as nat),
{
    y % 4 == 0 && (y % 100 != 0 || y % 400 == 0)
}

/// Exec mirror of [`days_in_year`].
fn year_days(y: u64) -> (r: u64)
    ensures
        r as nat == days_in_year(y as nat),
{
    if leap_year(y) {
        366
    } else {
        365
    }
}

/// Exec mirror of [`days_in_month`].
fn month_days(y: u64, m: u64) -> (r: u64)
    ensures
        r as nat == days_in_month(y as nat, m as nat),
{
    if m == 2 {
        if leap_year(y) {
            29
        } else {
            28
        }
    } else if m == 4 || m == 6 || m == 9 || m == 11 {
        30
    } else {
        31
    }
}

/// Splits microseconds since the epoch into calendar fields.  The result is
/// well-formed and reassembles to exactly the input.
pub fn timestamp_from_micros(micros: u64) -> (t: Timestamp)
    ensures
        t.wf(),
        t.as_micros() == micros as int,
{
    let sub_micros = micros % 1000000;
    let total_secs = micros / 1000000;
    let days = total_secs / 86400;
    let secs_of_day = total_secs % 86400;
    let hour = secs_of_day / 3600;
    let minute = (secs_of_day % 3600) / 60;
    let second = (secs_of_day % 3600) % 60;

    let mut year: u64 = 1970;
    let mut rem: u64 = days;
    while rem >= year_days(year)
        invariant
            1970 <= year,
            days_before_year(year as nat) + rem as nat == days as nat,
        decreases rem,
    {
        proof {
            lemma_days_before_year_lower(year as nat);
        }
        rem = rem - year_days(year);
        year = year + 1;
    }

    let mut month: u64 = 1;
    let mut mrem: u64 = rem;
    while mrem >= month_days(year, month)
        invariant
            1 <= month <= 12,
            1970 <= year,
            days_before_month(year as nat, month as nat) + mrem as nat == rem as nat,
            (rem as nat) < days_in_year(year as nat),
        decreases mrem,
    {
        proof {
            lemma_months_sum(year as nat);
            assert(days_before_month(year as nat, 13) == days_before_month(year as nat, 12)
                + days_in_month(year as nat, 12));
            if month == 12 {
                assert(false);
            }
        }
        mrem = mrem - month_days(year, month);
        month = month + 1;
    }

    let day = mrem + 1;
    Timestamp { year, month, day, hour, minute, second, micros: sub_micros }
}

/// The RFC 3339 rendering of a timestamp: date, `T`, time, six fractional
/// digits, and the `Z` offset.  The year field is four digits wide, which
/// renders every date a real clock can reach; a year past 9999 would keep
/// only its last four digits.
pub open spec fn rfc3339_str(t: Timestamp) -> Seq<char> {
    dec_pad(t.year as nat, 4) + "-"@ + dec_pad(t.month as nat, 2) + "-"@ + dec_pad(t.day as nat, 2)
        + "T"@ + dec_pad(t.hour as nat, 2) + ":"@ + dec_pad(t.minute as nat, 2) + ":"@ + dec_pad(
        t.second as nat,
        2,
    ) + "."@ + dec_pad(t.micros as nat, 6) + "Z"@
}

/// Renders `t` in RFC 3339 form.
pub fn format_rfc3339(t: Timestamp) -> (r: String)
    ensures
        r@ == rfc3339_str(t),
{
    let mut out = String::new();
    push_u64_dec_pad(&mut out, t.year, 4);
    out.append("-");
    push_u64_dec_pad(&mut out, t.month, 2);
    out.append("-");
    push_u64_dec_pad(&mut out, t.day, 2);
    out.append("T");
    push_u64_dec_pad(&mut out, t.hour, 2);
    out.append(":");
    push_u64_dec_pad(&mut out, t.minute, 2);
    out.append(":");
    push_u64_dec_pad(&mut out, t.second, 2);
    out.append(".");
    push_u64_dec_pad(&mut out, t.micros, 6);
    out.append("Z");
    proof {
        assert(out@ =~= rfc3339_str(t));
    }
    out
}

/// The shape of a basic RFC 3339 date-time with a six-digit fraction and a
/// `Z` offset: 27 characters, with digits everywhere except the fixed
/// punctuation.
pub open spec fn is_rfc3339_basic(s: Seq<char>) -> bool {
    &&& s.len() == 27
    &&& s[4] == '-'
    &&& s[7] == '-'
    &&& s[10] == 'T'
    &&& s[13] == ':'
    &&& s[16] == ':'
    &&& s[19] == '.'
    &&& s[26] == 'Z'
    &&& forall|i: int|
        (0 <= i < 27 && i != 4 && i != 7 && i != 10 && i != 13 && i != 16 && i != 19 && i != 26)
            ==> is_dec_digit(s[i])
}

/// Law: every rendered timestamp — in particular the one inside each health
/// body — is a grammatical RFC 3339 date-time.
pub proof fn lemma_rfc3339_well_formed(t: Timestamp)
    ensures
        is_rfc3339_basic(rfc3339_str(t)),
{
    lemma_dec_pad_len(t.year as nat, 4);
    lemma_dec_pad_len(t.month as nat, 2);
    lemma_dec_pad_len(t.day as nat, 2);
    lemma_dec_pad_len(t.hour as nat, 2);
    lemma_dec_pad_len(t.minute as nat, 2);
    lemma_dec_pad_len(t.second as nat, 2);
    lemma_dec_pad_len(t.micros as nat, 6);
    lemma_dec_pad_digits(t.year as nat, 4);
    lemma_dec_pad_digits(t.month as nat, 2);
    lemma_dec_pad_digits(t.day as nat, 2);
    lemma_dec_pad_digits(t.hour as nat, 2);
    lemma_dec_pad_digits(t.minute as nat, 2);
    lemma_dec_pad_digits(t.second as nat, 2);
    lemma_dec_pad_digits(t.micros as nat, 6);
    reveal_strlit("-");
    reveal_strlit("T");
    reveal_strlit(":");
    reveal_strlit(".");
    reveal_strlit("Z");
    assert(rfc3339_str(t).len() == 27);
}

/// The health endpoint's body for a given instant.
pub open spec fn health_json(t: Timestamp) -> Seq<char> {
    "{\"status\":\"healthy\",\"timestamp\":\""@ + rfc3339_str(t) + "\"}"@
}

/// Builds the health body for the instant `now_micros`.
pub fn health_body(now_micros: u64) -> (r: String)
    ensures
        exists|t: Timestamp|
            t.wf() && t.as_micros() == now_micros as int && r@ == health_json(t),
{
    let t = timestamp_from_micros(now_micros);
    let mut out = String::from_str("{\"status\":\"healthy\",\"timestamp\":\"");
    let stamp = format_rfc3339(t);
    out.append(stamp.as_str());
    out.append("\"}");
    proof {
        assert(out@ =~= health_json(t));
    }
    out
}

/// Relies on `chrono::Utc::now` (read out through
/// `DateTime::timestamp_micros`): the current time as microseconds since
/// the Unix epoch.  Nothing is assumed of the clock's value.
#[verifier::external_body]
fn now_timestamp_micros() -> i64 {
    chrono::Utc::now().timestamp_micros()
}

/// The health-check handler: always a 200 whose body reports `healthy` and
/// a well-formed timestamp of the current instant (a clock before the epoch
/// is read as the epoch itself).
pub fn health_check_handler() -> (r: (u16, String))
    ensures
        r.0 == 200,
        exists|t: Timestamp| t.wf() && r.1@ == health_json(t),
{
    let now = now_timestamp_micros();
    let clamped: u64 = if now < 0 {
        0
    } else {
        now as u64
    };
    let body = health_body(clamped);
    (200, body)
}

/// The root endpoint's body.
pub open spec fn root_json() -> Seq<char> {
    "{\"status\":\"success\",\"message\":\"Hello, World!\",\"version\":\"1.0.0\"}"@
}

/// The root handler: a constant greeting.
pub fn root_handler() -> (r: (u16, String))
    ensures
        r.0 == 200,
        r.1@ == root_json(),
{
    (200, String::from_str("{\"status\":\"success\",\"message\":\"Hello, World!\",\"version\":\"1.0.0\"}"))
}

} // verus!
