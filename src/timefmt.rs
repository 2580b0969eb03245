//! Compact UTC timestamps (`YYYYMMDDTHHMMSSZ`) and the resource names built on them.

use chrono::{Datelike, Timelike};
use vstd::prelude::*;
use vstd::string::*;

verus! {

/// UTC calendar fields of one instant, at second precision.
#[derive(Clone, Copy, Debug, PartialEq, Eq, Structural)]
pub struct CalendarFields {
    pub year: i32,
    pub month: u32,
    pub day: u32,
    pub hour: u32,
    pub minute: u32,
    pub second: u32,
}

/// Proleptic Gregorian (year, month, day) of a Unix timestamp in UTC, as chrono
/// computes it, or `None` where chrono cannot represent the instant.
pub uninterp spec fn utc_date_of(timestamp: int) -> Option<(int, int, int)>;

/// Relies on `chrono::DateTime::from_timestamp` with its `Datelike` and `Timelike`
/// accessors: the date fields are chrono's calendar date of the timestamp, and the
/// time of day is taken from `timestamp.rem_euclid(86_400)`.
#[verifier::external_body]
fn utc_fields(timestamp: i64) -> (r: Option<CalendarFields>)
    ensures
        r.is_some() == utc_date_of(timestamp as int).is_some(),
        r matches Some(f) ==> {
            &&& (f.year as int, f.month as int, f.day as int) == utc_date_of(timestamp as int).unwrap()
            &&& f.hour as int == (timestamp as int % 86400) / 3600
            &&& f.minute as int == ((timestamp as int % 86400) / 60) % 60
            &&& f.second as int == (timestamp as int % 86400) % 60
        },
{
    match chrono::DateTime::from_timestamp(timestamp, 0) {
        Some(d) => Some(CalendarFields {
            year: d.year(),
            month: d.month(),
            day: d.day(),
            hour: d.hour(),
            minute: d.minute(),
            second: d.second(),
        }),
        None => None,
    }
}

/// The character of a decimal digit.
pub open spec fn digit_char(d: nat) -> char {
    if d == 0 { '0' }
    else if d == 1 { '1' }
    else if d == 2 { '2' }
    else if d == 3 { '3' }
    else if d == 4 { '4' }
    else if d == 5 { '5' }
    else if d == 6 { '6' }
    else if d == 7 { '7' }
    else if d == 8 { '8' }
    else { '9' }
}

/// Decimal digits of `n`, most significant first, without leading zeros.
pub open spec fn decimal(n: nat) -> Seq<char>
    decreases n,
{
    if n < 10 {
        seq![digit_char(n)]
    } else {
        decimal(n / 10).push(digit_char(n % 10))
    }
}

/// `k` zero characters.
pub open spec fn zeros(k: nat) -> Seq<char> {
    Seq::new(k, |i: int| '0')
}

/// Decimal digits of `n`, left-padded with zeros to at least `width` characters.
pub open spec fn padded(n: nat, width: nat) -> Seq<char> {
    if decimal(n).len() >= width {
        decimal(n)
    } else {
        zeros((width - decimal(n).len()) as nat) + decimal(n)
    }
}

/// A year as `%Y` renders it: four digits within 0..=9999, else a sign and at
/// least four digits.
pub open spec fn year_text(y: int) -> Seq<char> {
    if 0 <= y <= 9999 {
        padded(y as nat, 4)
    } else if y < 0 {
        seq!['-'] + padded((-y) as nat, 4)
    } else {
        seq!['+'] + padded(y as nat, 4)
    }
}

/// `YYYYMMDDTHHMMSSZ` of the given fields.
pub open spec fn compact_text(f: CalendarFields) -> Seq<char> {
    year_text(f.year as int) + padded(f.month as nat, 2) + padded(f.day as nat, 2) + seq!['T']
        + padded(f.hour as nat, 2) + padded(f.minute as nat, 2) + padded(f.second as nat, 2)
        + seq!['Z']
}

/// The text shown for a timestamp: its compact form, or `<invalid date>`.
pub open spec fn timestamp_text(fields: Option<CalendarFields>) -> Seq<char> {
    match fields {
        Some(f) => compact_text(f),
        None => "<invalid date>"@,
    }
}

/// The spec-level calendar fields of a timestamp, as the chrono wrapper reports them.
pub open spec fn fields_of(timestamp: int) -> Option<CalendarFields> {
    match utc_date_of(timestamp) {
        Some(d) => Some(CalendarFields {
            year: d.0 as i32,
            month: d.1 as u32,
            day: d.2 as u32,
            hour: ((timestamp % 86400) / 3600) as u32,
            minute: (((timestamp % 86400) / 60) % 60) as u32,
            second: ((timestamp % 86400) % 60) as u32,
        }),
        None => None,
    }
}

/// `test_{time}.jpg`, the name under which a capture is uploaded.
pub open spec fn resource_name_text(fields: Option<CalendarFields>) -> Seq<char> {
    "test_"@ + timestamp_text(fields) + ".jpg"@
}

fn digit_str(d: u64) -> (r: &'static str)
    requires
        d < 10,
    ensures
        r@ == seq![digit_char(d as nat)],
{
    if d == 0 {
        proof { reveal_strlit("0"); }
        "0"
    } else if d == 1 {
        proof { reveal_strlit("1"); }
        "1"
    } else if d == 2 {
        proof { reveal_strlit("2"); }
        "2"
    } else if d == 3 {
        proof { reveal_strlit("3"); }
        "3"
    } else if d == 4 {
        proof { reveal_strlit("4"); }
        "4"
    } else if d == 5 {
        proof { reveal_strlit("5"); }
        "5"
    } else if d == 6 {
        proof { reveal_strlit("6"); }
        "6"
    } else if d == 7 {
        proof { reveal_strlit("7"); }
        "7"
    } else if d == 8 {
        proof { reveal_strlit("8"); }
        "8"
    } else {
        proof { reveal_strlit("9"); }
        "9"
    }
}

/// Appends the decimal digits of `n`.
pub fn push_decimal(s: &mut String, n: u64)
    ensures
        final(s)@ == old(s)@ + decimal(n as nat),
    decreases n,
{
    if n >= 10 {
        push_decimal(s, n / 10);
    }
    s.append(digit_str(n % 10));
    proof {
        assert(final(s)@ =~= old(s)@ + decimal(n as nat));
    }
}

fn decimal_len(n: u64) -> (r: u64)
    ensures
        r as nat == decimal(n as nat).len(),
        r as int <= n as int / 10 + 1,
    decreases n,
{
    if n < 10 {
        1
    } else {
        let k = decimal_len(n / 10);
        proof {
            let m = n as int / 10;
            assert(m / 10 + 1 <= m) by (nonlinear_arith)
                requires m >= 1;
            assert(m / 10 == (n as int / 10) / 10);
        }
        k + 1
    }
}

/// Appends `n` in decimal, left-padded with zeros to at least `width` characters.
pub fn push_padded(s: &mut String, n: u64, width: u64)
    ensures
        final(s)@ == old(s)@ + padded(n as nat, width as nat),
{
    let len = decimal_len(n);
    let ghost start = s@;
    if len < width {
        let pad = width - len;
        let mut i: u64 = 0;
        while i < pad
            invariant
                i <= pad,
                s@ == start + zeros(i as nat),
            decreases pad - i,
        {
            proof { reveal_strlit("0"); }
            s.append("0");
            i = i + 1;
            proof {
                assert(s@ =~= start + zeros(i as nat));
            }
        }
    }
    push_decimal(s, n);
    proof {
        assert(s@ =~= start + padded(n as nat, width as nat));
    }
}

fn push_year(s: &mut String, year: i32)
    ensures
        final(s)@ == old(s)@ + year_text(year as int),
{
    if 0 <= year && year <= 9999 {
        push_padded(s, year as u64, 4);
    } else if year < 0 {
        proof { reveal_strlit("-"); }
        s.append("-");
        push_padded(s, (-(year as i64)) as u64, 4);
        proof {
            assert(s@ =~= old(s)@ + year_text(year as int));
        }
    } else {
        proof { reveal_strlit("+"); }
        s.append("+");
        push_padded(s, year as u64, 4);
        proof {
            assert(s@ =~= old(s)@ + year_text(year as int));
        }
    }
}

/// Renders calendar fields as `YYYYMMDDTHHMMSSZ`, or `<invalid date>` where there
/// are none.
pub fn format_fields(fields: Option<CalendarFields>) -> (r: String)
    ensures
        r@ == timestamp_text(fields),
{
    match fields {
        Some(f) => {
            let mut s = String::new();
            push_year(&mut s, f.year);
            push_padded(&mut s, f.month as u64, 2);
            push_padded(&mut s, f.day as u64, 2);
            proof { reveal_strlit("T"); }
            s.append("T");
            push_padded(&mut s, f.hour as u64, 2);
            push_padded(&mut s, f.minute as u64, 2);
            push_padded(&mut s, f.second as u64, 2);
            proof { reveal_strlit("Z"); }
            s.append("Z");
            proof {
                assert(s@ =~= compact_text(f));
            }
            s
        },
        None => String::from_str("<invalid date>"),
    }
}

/// The UTC calendar fields of a Unix timestamp, or `None` where the calendar
/// cannot represent it.
pub fn calendar_fields(timestamp: i64) -> (r: Option<CalendarFields>)
    ensures
        r == fields_of(timestamp as int),
{
    let r = utc_fields(timestamp);
    proof {
        if let Some(f) = r {
            let d = utc_date_of(timestamp as int).unwrap();
            assert(f == fields_of(timestamp as int).unwrap());
        }
    }
    r
}

/// Renders a Unix timestamp as `YYYYMMDDTHHMMSSZ` in UTC, or `<invalid date>`
/// where the calendar cannot represent it.
pub fn iso_format(timestamp: i64) -> (r: String)
    ensures
        r@ == timestamp_text(fields_of(timestamp as int)),
{
    format_fields(calendar_fields(timestamp))
}

/// The upload resource name for given calendar fields: `test_{compact}.jpg`.
pub fn name_for_fields(fields: Option<CalendarFields>) -> (r: String)
    ensures
        r@ == resource_name_text(fields),
{
    let mut s = String::from_str("test_");
    let t = format_fields(fields);
    s.append(t.as_str());
    s.append(".jpg");
    s
}

/// The upload resource name of a capture taken at `timestamp`.
pub fn resource_name(timestamp: i64) -> (r: String)
    ensures
        r@ == resource_name_text(fields_of(timestamp as int)),
{
    name_for_fields(calendar_fields(timestamp))
}

} // verus!
