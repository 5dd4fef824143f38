use vstd::prelude::*;

verus! {

/// A canonical UTC timestamp: whole seconds since the Unix epoch (possibly
/// negative for dates before 1970) plus a sub-second nanosecond remainder.
/// Every document timestamp, whether written in a metadata block or taken
/// from the filesystem, is normalized to this one type. No timezone
/// conversion is ever performed: all sources are read as UTC wall-clock time.
#[derive(Clone, Copy, PartialEq, Eq, Structural, Debug)]
pub struct Timestamp {
    pub secs: i64,
    pub nanos: u32,
}

/// Chronological order on timestamps: seconds first, nanoseconds as tie-break.
pub open spec fn ts_le(a: Timestamp, b: Timestamp) -> bool {
    a.secs < b.secs || (a.secs == b.secs && a.nanos <= b.nanos)
}

impl Timestamp {
    /// Chronological comparison, `self` no later than `other`.
    pub fn le(&self, other: &Timestamp) -> (r: bool)
        ensures
            r == ts_le(*self, *other),
    {
        self.secs < other.secs || (self.secs == other.secs && self.nanos <= other.nanos)
    }
}

/// Proleptic-Gregorian leap-year rule.
pub open spec fn is_leap_year(y: int) -> bool {
    y % 4 == 0 && (y % 100 != 0 || y % 400 == 0)
}

pub open spec fn days_in_year(y: int) -> int {
    if is_leap_year(y) {
        366
    } else {
        365
    }
}

pub open spec fn days_in_month(y: int, m: int) -> int {
    if m == 2 {
        if is_leap_year(y) {
            29
        } else {
            28
        }
    } else if m == 4 || m == 6 || m == 9 || m == 11 {
        30
    } else {
        31
    }
}

/// Days in all years of the proleptic-Gregorian calendar before year `y`,
/// counted from year 0.
pub open spec fn days_before_year(y: int) -> int
    decreases y,
{
    if y <= 0 {
        0
    } else {
        days_before_year(y - 1) + days_in_year(y - 1)
    }
}

/// Days in all months of year `y` before month `m`.
pub open spec fn days_before_month(y: int, m: int) -> int
    decreases m,
{
    if m <= 1 {
        0
    } else {
        days_before_month(y, m - 1) + days_in_month(y, m - 1)
    }
}

/// The calendar dates accepted from a metadata block: the year range of the
/// structured-data format, a real month, and a day that exists in that month.
pub open spec fn valid_date(y: int, m: int, d: int) -> bool {
    0 <= y <= 65535 && 1 <= m <= 12 && 1 <= d <= days_in_month(y, m)
}

pub open spec fn valid_time(h: int, mi: int, s: int) -> bool {
    0 <= h < 24 && 0 <= mi < 60 && 0 <= s < 60
}

/// Seconds since the Unix epoch of the UTC instant `y-m-d h:mi:s`.
pub open spec fn civil_secs(y: int, m: int, d: int, h: int, mi: int, s: int) -> int {
    86400 * (days_before_year(y) + days_before_month(y, m) + d - 1 - days_before_year(1970))
        + 3600 * h + 60 * mi + s
}

proof fn lemma_days_before_year_bounds(y: int)
    requires
        0 <= y,
    ensures
        365 * y <= days_before_year(y) <= 366 * y,
    decreases y,
{
    if y > 0 {
        lemma_days_before_year_bounds(y - 1);
    }
}

fn exec_is_leap_year(y: u16) -> (r: bool)
    ensures
        r == is_leap_year(y as int),
{
    y % 4 == 0 && (y % 100 != 0 || y % 400 == 0)
}

fn exec_days_in_month(y: u16, m: u8) -> (r: u8)
    ensures
        r as int == days_in_month(y as int, m as int),
{
    if m == 2 {
        if exec_is_leap_year(y) {
            29
        } else {
            28
        }
    } else if m == 4 || m == 6 || m == 9 || m == 11 {
        30
    } else {
        31
    }
}

fn exec_days_before_year(y: u16) -> (r: i64)
    ensures
        r as int == days_before_year(y as int),
        0 <= r as int <= 366 * (y as int),
{
    let mut acc: i64 = 0;
    let mut i: u16 = 0;
    while i < y
        invariant
            0 <= i <= y,
            acc as int == days_before_year(i as int),
            0 <= acc as int <= 366 * (i as int),
        decreases y as int - i as int,
    {
        if exec_is_leap_year(i) {
            acc = acc + 366;
        } else {
            acc = acc + 365;
        }
        i = i + 1;
    }
    acc
}

fn exec_days_before_month(y: u16, m: u8) -> (r: i64)
    requires
        1 <= m <= 12,
    ensures
        r as int == days_before_month(y as int, m as int),
        0 <= r as int <= 372,
{
    let mut acc: i64 = 0;
    let mut i: u8 = 1;
    while i < m
        invariant
            1 <= i <= m <= 12,
            acc as int == days_before_month(y as int, i as int),
            0 <= acc as int <= 31 * (i as int),
        decreases m as int - i as int,
    {
        acc = acc + exec_days_in_month(y, i) as i64;
        i = i + 1;
    }
    acc
}

/// Normalizes a structured-metadata timestamp: builds the canonical UTC
/// timestamp from explicit date and time components, or reports that they do
/// not form a valid calendar date and time. Invalid components are never
/// repaired or replaced by a fallback.
pub fn timestamp_from_parts(y: u16, mo: u8, d: u8, h: u8, mi: u8, s: u8) -> (r: Option<
    Timestamp,
>)
    ensures
        r is Some <==> valid_date(y as int, mo as int, d as int) && valid_time(
            h as int,
            mi as int,
            s as int,
        ),
        r is Some ==> r->0.secs as int == civil_secs(
            y as int,
            mo as int,
            d as int,
            h as int,
            mi as int,
            s as int,
        ) && r->0.nanos == 0,
{
    if mo < 1 || mo > 12 {
        return None;
    }
    if d < 1 || d > exec_days_in_month(y, mo) {
        return None;
    }
    if h >= 24 || mi >= 60 || s >= 60 {
        return None;
    }
    let db_year: i64 = exec_days_before_year(y);
    let db_month: i64 = exec_days_before_month(y, mo);
    let db_epoch: i64 = exec_days_before_year(1970);
    proof {
        lemma_days_before_year_bounds(1970);
    }
    let days: i64 = db_year + db_month + (d as i64) - 1 - db_epoch;
    let secs: i64 = 86400 * days + 3600 * (h as i64) + 60 * (mi as i64) + (s as i64);
    Some(Timestamp { secs, nanos: 0 })
}

/// Normalizes a filesystem creation time, given as the duration since the
/// Unix epoch. Returns nothing only when the whole-second count does not fit
/// the canonical representation.
pub fn timestamp_from_unix(secs: u64, nanos: u32) -> (r: Option<Timestamp>)
    ensures
        r is Some <==> secs <= i64::MAX as u64,
        r is Some ==> r->0.secs as int == secs as int && r->0.nanos == nanos,
{
    if secs <= i64::MAX as u64 {
        Some(Timestamp { secs: secs as i64, nanos })
    } else {
        None
    }
}

} // verus!
