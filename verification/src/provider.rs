//! The status provider: a tiny HTTP endpoint that reports the current UTC
//! time (ISO 8601) and free disk space. This module holds its calendar
//! arithmetic and its request/response framing.
use vstd::prelude::*;
use vstd::string::*;
use crate::text::{decimal, push_char, push_decimal, push_zero_padded, zero_padded};

verus! {

/// Gregorian leap year rule.
pub open spec fn is_leap_year(y: int) -> bool {
    y % 4 == 0 && (y % 100 != 0 || y % 400 == 0)
}

/// Number of days in year `y`.
pub open spec fn year_length(y: int) -> int {
    if is_leap_year(y) { 366 } else { 365 }
}

/// Number of days in month `m` (1-based) of year `y`.
pub open spec fn month_length(y: int, m: int) -> int {
    if m == 2 {
        if is_leap_year(y) { 29 } else { 28 }
    } else if m == 4 || m == 6 || m == 9 || m == 11 {
        30
    } else {
        31
    }
}

/// Days from 1970-01-01 to the first day of year `y`.
pub open spec fn days_before_year(y: int) -> int
    decreases y - 1970,
{
    if y <= 1970 {
        0
    } else {
        days_before_year(y - 1) + year_length(y - 1)
    }
}

/// Days from the first day of year `y` to the first day of month `m`.
pub open spec fn days_before_month(y: int, m: int) -> int
    decreases m,
{
    if m <= 1 {
        0
    } else {
        days_before_month(y, m - 1) + month_length(y, m - 1)
    }
}

/// A valid date of the Gregorian calendar on or after 1970-01-01.
pub open spec fn is_calendar_date(y: int, m: int, d: int) -> bool {
    y >= 1970 && 1 <= m <= 12 && 1 <= d <= month_length(y, m)
}

/// Days elapsed since 1970-01-01 at the start of date `y-m-d`.
pub open spec fn day_number(y: int, m: int, d: int) -> int {
    days_before_year(y) + days_before_month(y, m) + d - 1
}

/// The calendar date (year, month, day) of the day `days` after 1970-01-01.
pub open spec fn civil_date(days: int) -> (int, int, int) {
    choose|t: (int, int, int)| is_calendar_date(t.0, t.1, t.2) && day_number(t.0, t.1, t.2) == days
}

proof fn lemma_days_before_year_grows(y: int)
    requires
        y >= 1970,
    ensures
        days_before_year(y) >= 365 * (y - 1970),
    decreases y - 1970,
{
    if y > 1970 {
        lemma_days_before_year_grows(y - 1);
    }
}

proof fn lemma_days_before_year_mono(a: int, b: int)
    requires
        1970 <= a <= b,
    ensures
        days_before_year(a) <= days_before_year(b),
        a < b ==> days_before_year(a) + year_length(a) <= days_before_year(b),
    decreases b - a,
{
    if a < b {
        lemma_days_before_year_mono(a, b - 1);
    }
}

proof fn lemma_days_before_month_mono(y: int, a: int, b: int)
    requires
        1 <= a <= b,
    ensures
        days_before_month(y, a) <= days_before_month(y, b),
        a < b ==> days_before_month(y, a) + month_length(y, a) <= days_before_month(y, b),
    decreases b - a,
{
    if a < b {
        lemma_days_before_month_mono(y, a, b - 1);
    }
}

proof fn lemma_months_fill_year(y: int)
    ensures
        days_before_month(y, 13) == year_length(y),
{
    reveal_with_fuel(days_before_month, 13);
}

proof fn lemma_date_within_year(y: int, m: int, d: int)
    requires
        is_calendar_date(y, m, d),
    ensures
        days_before_month(y, m) + d - 1 < year_length(y),
{
    lemma_days_before_month_mono(y, m, 13);
    lemma_months_fill_year(y);
}

/// Law: distinct calendar dates fall on distinct day numbers, so a day
/// number names at most one date.
pub proof fn lemma_day_number_injective(y1: int, m1: int, d1: int, y2: int, m2: int, d2: int)
    requires
        is_calendar_date(y1, m1, d1),
        is_calendar_date(y2, m2, d2),
        day_number(y1, m1, d1) == day_number(y2, m2, d2),
    ensures
        y1 == y2 && m1 == m2 && d1 == d2,
{
    lemma_date_within_year(y1, m1, d1);
    lemma_date_within_year(y2, m2, d2);
    lemma_days_before_month_mono(y1, 1, m1);
    lemma_days_before_month_mono(y2, 1, m2);
    if y1 < y2 {
        lemma_days_before_year_mono(y1, y2);
        assert(false);
    } else if y2 < y1 {
        lemma_days_before_year_mono(y2, y1);
        assert(false);
    }
    if m1 < m2 {
        lemma_days_before_month_mono(y1, m1, m2);
        assert(false);
    } else if m2 < m1 {
        lemma_days_before_month_mono(y1, m2, m1);
        assert(false);
    }
}

/// Law: `civil_date` names the unique calendar date of a given day number.
pub proof fn lemma_civil_date_unique(days: int, y: int, m: int, d: int)
    requires
        is_calendar_date(y, m, d),
        day_number(y, m, d) == days,
    ensures
        civil_date(days) == (y, m, d),
{
    let w = (y, m, d);
    assert(is_calendar_date(w.0, w.1, w.2) && day_number(w.0, w.1, w.2) == days);
    let t = civil_date(days);
    assert(is_calendar_date(t.0, t.1, t.2) && day_number(t.0, t.1, t.2) == days);
    lemma_day_number_injective(t.0, t.1, t.2, y, m, d);
}

fn leap_year(y: u64) -> (r: bool)
    ensures
        r == is_leap_year(y as int),
{
    y % 4 == 0 && (y % 100 != 0 || y % 400 == 0)
}

fn days_in_month(leap: bool, m: u64) -> (r: u64)
    requires
        1 <= m <= 12,
    ensures
        forall|y: int| is_leap_year(y) == leap ==> r == month_length(y, m as int),
{
    if m == 2 {
        if leap { 29 } else { 28 }
    } else if m == 4 || m == 6 || m == 9 || m == 11 {
        30
    } else {
        31
    }
}

/// Splits a count of days since 1970-01-01 into the (year, month, day) of
/// that day: the unique calendar date whose day number is `days`.
pub fn days_to_ymd(days: u64) -> (r: (u64, u64, u64))
    ensures
        is_calendar_date(r.0 as int, r.1 as int, r.2 as int),
        day_number(r.0 as int, r.1 as int, r.2 as int) == days,
        (r.0 as int, r.1 as int, r.2 as int) == civil_date(days as int),
{
    let mut rest = days;
    let mut y: u64 = 1970;
    loop
        invariant_except_break
            y >= 1970,
            days == days_before_year(y as int) + rest,
        ensures
            y >= 1970,
            days == days_before_year(y as int) + rest,
            rest < year_length(y as int),
        decreases rest,
    {
        let leap = leap_year(y);
        let dy: u64 = if leap { 366 } else { 365 };
        if rest < dy {
            break;
        }
        proof {
            lemma_days_before_year_grows(y as int);
        }
        rest = rest - dy;
        y = y + 1;
    }
    let leap = leap_year(y);
    let mut mo: u64 = 1;
    loop
        invariant_except_break
            1 <= mo <= 12,
            is_leap_year(y as int) == leap,
            rest + days_before_month(y as int, mo as int) < year_length(y as int),
            days == days_before_year(y as int) + days_before_month(y as int, mo as int) + rest,
        ensures
            1 <= mo <= 12,
            rest < month_length(y as int, mo as int),
            days == days_before_year(y as int) + days_before_month(y as int, mo as int) + rest,
        decreases 12 - mo,
    {
        let dm = days_in_month(leap, mo);
        if rest < dm {
            break;
        }
        rest = rest - dm;
        proof {
            if mo == 12 {
                lemma_months_fill_year(y as int);
                assert(false);
            }
        }
        mo = mo + 1;
    }
    let r = (y, mo, rest + 1);
    proof {
        lemma_civil_date_unique(days as int, y as int, mo as int, rest + 1);
    }
    r
}

/// The ISO 8601 UTC timestamp (`YYYY-MM-DDTHH:MM:SSZ`) of `secs` seconds
/// after the Unix epoch.
pub open spec fn iso8601_text(secs: nat) -> Seq<char> {
    let date = civil_date((secs / 86400) as int);
    zero_padded(date.0 as nat, 4) + seq!['-'] + zero_padded(date.1 as nat, 2) + seq!['-']
        + zero_padded(date.2 as nat, 2) + seq!['T'] + zero_padded(((secs / 3600) % 24) as nat, 2)
        + seq![':'] + zero_padded(((secs / 60) % 60) as nat, 2) + seq![':'] + zero_padded(
        (secs % 60) as nat,
        2,
    ) + seq!['Z']
}

/// Formats `secs` seconds after the Unix epoch as an ISO 8601 UTC timestamp.
pub fn iso8601(secs: u64) -> (r: String)
    ensures
        r@ == iso8601_text(secs as nat),
{
    let s = secs % 60;
    let m = (secs / 60) % 60;
    let h = (secs / 3600) % 24;
    let days = secs / 86400;
    let (y, mo, d) = days_to_ymd(days);
    let mut out = String::new();
    push_zero_padded(&mut out, y, 4);
    push_char(&mut out, '-');
    push_zero_padded(&mut out, mo, 2);
    push_char(&mut out, '-');
    push_zero_padded(&mut out, d, 2);
    push_char(&mut out, 'T');
    push_zero_padded(&mut out, h, 2);
    push_char(&mut out, ':');
    push_zero_padded(&mut out, m, 2);
    push_char(&mut out, ':');
    push_zero_padded(&mut out, s, 2);
    push_char(&mut out, 'Z');
    assert(out@ =~= iso8601_text(secs as nat));
    out
}

/// Whether a raw request begins with the `GET ` method token.
pub fn is_get_request(request: &[u8]) -> (r: bool)
    ensures
        r == (request@.len() >= 4 && request@.subrange(0, 4) == seq![71u8, 69u8, 84u8, 32u8]),
{
    if request.len() < 4 {
        return false;
    }
    let r = request[0] == 71u8 && request[1] == 69u8 && request[2] == 84u8 && request[3] == 32u8;
    assert(r == (request@.subrange(0, 4) =~= seq![71u8, 69u8, 84u8, 32u8]));
    r
}

/// The JSON status document: `{"ok":true,"time":"<time>","disk_free_gb":<disk>}`,
/// where `disk_free_gb` is already rendered with two decimals.
pub fn status_body(time: &str, disk_free_gb: &str) -> (r: String)
    ensures
        r@ == "{\"ok\":true,\"time\":\""@ + time@ + "\",\"disk_free_gb\":"@ + disk_free_gb@ + "}"@,
{
    let mut out = String::from_str("{\"ok\":true,\"time\":\"");
    out.append(time);
    out.append("\",\"disk_free_gb\":");
    out.append(disk_free_gb);
    out.append("}");
    out
}

/// A `200 OK` HTTP/1.1 response carrying `body` as JSON, with its byte length
/// in `Content-Length` and the connection closed afterwards.
pub fn ok_response(body: &str) -> (r: String)
    ensures
        r@ == "HTTP/1.1 200 OK\r\nContent-Type: application/json\r\nCache-Control: no-store\r\nContent-Length: "@
            + decimal(body.len() as nat) + "\r\nConnection: close\r\n\r\n"@ + body@,
{
    let mut out = String::from_str(
        "HTTP/1.1 200 OK\r\nContent-Type: application/json\r\nCache-Control: no-store\r\nContent-Length: ",
    );
    let n = body.len();
    push_decimal(&mut out, n as u64);
    out.append("\r\nConnection: close\r\n\r\n");
    out.append(body);
    out
}

} // verus!
