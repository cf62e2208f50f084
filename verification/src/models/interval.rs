use vstd::prelude::*;
use vstd::arithmetic::div_mod::{
    lemma_mod_add_multiples_vanish, lemma_mod_division_less_than_divisor, lemma_small_mod,
    lemma_sub_mod_noop,
};
use chrono::Datelike;
use chrono::Timelike;
use crate::error::Error;
use crate::models::time::{Duration, Time};

verus! {

/// The calendar range the engine works in: about 126 thousand years either
/// side of the epoch, far beyond any market data and comfortably inside the
/// dates chrono can represent (about 262 thousand years), so month
/// arithmetic never runs off the end of the calendar.
pub const TIME_RANGE_LIMIT: i64 = 4_000_000_000_000;

pub open spec fn in_time_range(t: int) -> bool {
    -TIME_RANGE_LIMIT <= t <= TIME_RANGE_LIMIT
}

/// Whether `t` falls on 00:00:00 UTC of the first day of a calendar month.
/// The calendar is real: month lengths vary and leap years count.
pub uninterp spec fn month_boundary(t: int) -> bool;

/// The timestamp one calendar month after the month boundary `t`: the first
/// day of the following month, at the same time of day.
pub uninterp spec fn month_rollover(t: int) -> int;

/// Relies on chrono's `DateTime::<Utc>::from_timestamp`, `Datelike::day` and
/// `Timelike::{hour, minute, second}`: together they say whether `t` is
/// midnight on the first day of a calendar month. A timestamp outside
/// chrono's date range is no boundary.
#[verifier::external_body]
fn chrono_month_boundary(t: i64) -> (r: bool)
    ensures
        r == month_boundary(t as int),
{
    match chrono::DateTime::<chrono::Utc>::from_timestamp(t, 0) {
        Some(dt) => dt.day() == 1 && dt.hour() == 0 && dt.minute() == 0 && dt.second() == 0,
        None => false,
    }
}

/// Relies on chrono's `NaiveDate::checked_add_months` with one month: from
/// the first day of a month it reaches the first day of the next month (day
/// clamping never touches day 1), a strictly later month boundary; and on
/// `DateTime::<Utc>::from_timestamp` / `and_utc().timestamp()` to convert,
/// which cannot fail inside the required range.
#[verifier::external_body]
fn chrono_next_month_start(t: i64) -> (r: i64)
    requires
        month_boundary(t as int),
        in_time_range(t as int),
    ensures
        r == month_rollover(t as int),
        month_boundary(r as int),
        t < r,
{
    let dt = chrono::DateTime::<chrono::Utc>::from_timestamp(t, 0).expect("timestamp in range");
    let date = dt.date_naive().checked_add_months(chrono::Months::new(1)).expect("date in range");
    date.and_time(dt.time()).and_utc().timestamp()
}

/// On the grid `off + k * m`, divisibility of `t - off` is the same as
/// `t % m` landing exactly on `off`.
proof fn lemma_offset_divisible(t: int, off: int, m: int)
    requires
        0 < m,
        0 <= off < m,
    ensures
        (t % m == off) <==> ((t - off) % m == 0),
{
    lemma_sub_mod_noop(t, off, m);
    lemma_small_mod(off as nat, m as nat);
    lemma_mod_division_less_than_divisor(t, m);
    let x = t % m - off;
    if x == 0 {
        lemma_small_mod(0nat, m as nat);
    } else if x > 0 {
        lemma_small_mod(x as nat, m as nat);
    } else {
        lemma_mod_add_multiples_vanish(x, m);
        lemma_small_mod((m + x) as nat, m as nat);
    }
}

/// Stepping one period along the grid does not change the phase.
proof fn lemma_grid_step(t: int, off: int, m: int)
    requires
        0 < m,
    ensures
        ((t + m) - off) % m == (t - off) % m,
{
    lemma_mod_add_multiples_vanish(t - off, m);
    assert(t + m - off == m + (t - off));
}

/// Whether `t` lies on the grid anchored `off` seconds into each period of
/// `m` seconds.
fn on_grid(t: i64, m: i64, off: i64) -> (r: bool)
    requires
        0 < m,
        0 <= off < m,
    ensures
        r == ((t - off) % (m as int) == 0),
{
    proof {
        lemma_mod_division_less_than_divisor(t as int, m as int);
        lemma_offset_divisible(t as int, off as int, m as int);
    }
    let rem = t.checked_rem_euclid(m).unwrap();
    rem == off
}

/// The bucket granularities. All but the last two are plain multiples of a
/// minute on the modular time grid; the week is a seven-day grid anchored
/// three days after the epoch (a Thursday), and the month follows the real
/// calendar.
#[derive(Debug, Copy, Clone, PartialEq, Eq, Structural)]
pub enum Interval {
    OneMinute,
    FiveMinutes,
    TenMinutes,
    OneHour,
    TwoHours,
    FourHours,
    OneDay,
    OneWeek,
    OneMonth,
}

impl Interval {
    /// When `t` is a bucket boundary of this granularity.
    pub open spec fn spec_is_valid_time(self, t: Time) -> bool {
        match self {
            Interval::OneMinute => t@ % 60 == 0,
            Interval::FiveMinutes => t@ % 300 == 0,
            Interval::TenMinutes => t@ % 600 == 0,
            Interval::OneHour => t@ % 3600 == 0,
            Interval::TwoHours => t@ % 7200 == 0,
            Interval::FourHours => t@ % 14400 == 0,
            Interval::OneDay => t@ % 86400 == 0,
            Interval::OneWeek => (t@ - 259200) % 604800 == 0,
            Interval::OneMonth => month_boundary(t@),
        }
    }

    /// The boundary one bucket after `t`.
    pub open spec fn spec_next(self, t: Time) -> int {
        match self {
            Interval::OneMinute => t@ + 60,
            Interval::FiveMinutes => t@ + 300,
            Interval::TenMinutes => t@ + 600,
            Interval::OneHour => t@ + 3600,
            Interval::TwoHours => t@ + 7200,
            Interval::FourHours => t@ + 14400,
            Interval::OneDay => t@ + 86400,
            Interval::OneWeek => t@ + 604800,
            Interval::OneMonth => month_rollover(t@),
        }
    }

    pub fn is_valid_time(&self, time: &Time) -> (r: bool)
        ensures
            r == self.spec_is_valid_time(*time),
    {
        match self {
            Interval::OneMinute => on_grid(time.value(), 60, 0),
            Interval::FiveMinutes => on_grid(time.value(), 300, 0),
            Interval::TenMinutes => on_grid(time.value(), 600, 0),
            Interval::OneHour => on_grid(time.value(), 3600, 0),
            Interval::TwoHours => on_grid(time.value(), 7200, 0),
            Interval::FourHours => on_grid(time.value(), 14400, 0),
            Interval::OneDay => on_grid(time.value(), 86400, 0),
            Interval::OneWeek => on_grid(time.value(), 604800, 259200),
            Interval::OneMonth => chrono_month_boundary(time.value()),
        }
    }

    /// The month arm is only ever asked about canonical month boundaries;
    /// every boundary of every granularity stays a boundary, strictly later.
    pub fn next(&self, time: Time) -> (r: Time)
        requires
            in_time_range(time@),
            *self == Interval::OneMonth ==> self.spec_is_valid_time(time),
        ensures
            r@ == self.spec_next(time),
            self.spec_is_valid_time(time) ==> self.spec_is_valid_time(r) && time@ < r@,
    {
        match self {
            Interval::OneMinute => {
                proof { lemma_grid_step(time@, 0, 60); }
                time.add_duration(Duration::from_minutes(1))
            }
            Interval::FiveMinutes => {
                proof { lemma_grid_step(time@, 0, 300); }
                time.add_duration(Duration::from_minutes(5))
            }
            Interval::TenMinutes => {
                proof { lemma_grid_step(time@, 0, 600); }
                time.add_duration(Duration::from_minutes(10))
            }
            Interval::OneHour => {
                proof { lemma_grid_step(time@, 0, 3600); }
                time.add_duration(Duration::from_hours(1))
            }
            Interval::TwoHours => {
                proof { lemma_grid_step(time@, 0, 7200); }
                time.add_duration(Duration::from_hours(2))
            }
            Interval::FourHours => {
                proof { lemma_grid_step(time@, 0, 14400); }
                time.add_duration(Duration::from_hours(4))
            }
            Interval::OneDay => {
                proof { lemma_grid_step(time@, 0, 86400); }
                time.add_duration(Duration::from_days(1))
            }
            Interval::OneWeek => {
                proof { lemma_grid_step(time@, 259200, 604800); }
                time.add_duration(Duration::from_days(7))
            }
            Interval::OneMonth => Time::new(chrono_next_month_start(time.value())),
        }
    }

    /// The stable, case-sensitive code of this granularity.
    pub open spec fn spec_code(self) -> Seq<char> {
        match self {
            Interval::OneMinute => seq!['1', 'm'],
            Interval::FiveMinutes => seq!['5', 'm'],
            Interval::TenMinutes => seq!['1', '0', 'm'],
            Interval::OneHour => seq!['1', 'h'],
            Interval::TwoHours => seq!['2', 'h'],
            Interval::FourHours => seq!['4', 'h'],
            Interval::OneDay => seq!['1', 'd'],
            Interval::OneWeek => seq!['1', 'w'],
            Interval::OneMonth => seq!['1', 'M'],
        }
    }

    /// The interval a string names, if any; the exact inverse of `spec_code`.
    pub open spec fn spec_parse(s: Seq<char>) -> Option<Interval> {
        if s == Interval::OneMinute.spec_code() {
            Some(Interval::OneMinute)
        } else if s == Interval::FiveMinutes.spec_code() {
            Some(Interval::FiveMinutes)
        } else if s == Interval::TenMinutes.spec_code() {
            Some(Interval::TenMinutes)
        } else if s == Interval::OneHour.spec_code() {
            Some(Interval::OneHour)
        } else if s == Interval::TwoHours.spec_code() {
            Some(Interval::TwoHours)
        } else if s == Interval::FourHours.spec_code() {
            Some(Interval::FourHours)
        } else if s == Interval::OneDay.spec_code() {
            Some(Interval::OneDay)
        } else if s == Interval::OneWeek.spec_code() {
            Some(Interval::OneWeek)
        } else if s == Interval::OneMonth.spec_code() {
            Some(Interval::OneMonth)
        } else {
            None
        }
    }

    pub fn as_str(&self) -> (r: &'static str)
        ensures
            r@ == self.spec_code(),
    {
        proof {
            reveal_strlit("1m");
            reveal_strlit("5m");
            reveal_strlit("10m");
            reveal_strlit("1h");
            reveal_strlit("2h");
            reveal_strlit("4h");
            reveal_strlit("1d");
            reveal_strlit("1w");
            reveal_strlit("1M");
        }
        let r = match self {
            Interval::OneMinute => "1m",
            Interval::FiveMinutes => "5m",
            Interval::TenMinutes => "10m",
            Interval::OneHour => "1h",
            Interval::TwoHours => "2h",
            Interval::FourHours => "4h",
            Interval::OneDay => "1d",
            Interval::OneWeek => "1w",
            Interval::OneMonth => "1M",
        };
        proof {
            assert(r@ =~= self.spec_code());
        }
        r
    }

    /// Parses a code back to its interval; any other string is rejected and
    /// handed back inside the error.
    pub fn from_str(value: &str) -> (r: Result<Interval, Error>)
        ensures
            r matches Ok(interval) ==> Interval::spec_parse(value@) == Some(interval),
            r matches Err(e) ==> {
                &&& Interval::spec_parse(value@) is None
                &&& e matches Error::InvalidInterval { value: v } && v@ == value@
            },
    {
        let len = value.unicode_len();
        if len == 2 {
            let c0 = value.get_char(0);
            let c1 = value.get_char(1);
            let parsed: Option<Interval> = if c1 == 'm' {
                if c0 == '1' {
                    Some(Interval::OneMinute)
                } else if c0 == '5' {
                    Some(Interval::FiveMinutes)
                } else {
                    None
                }
            } else if c1 == 'h' {
                if c0 == '1' {
                    Some(Interval::OneHour)
                } else if c0 == '2' {
                    Some(Interval::TwoHours)
                } else if c0 == '4' {
                    Some(Interval::FourHours)
                } else {
                    None
                }
            } else if c1 == 'd' && c0 == '1' {
                Some(Interval::OneDay)
            } else if c1 == 'w' && c0 == '1' {
                Some(Interval::OneWeek)
            } else if c1 == 'M' && c0 == '1' {
                Some(Interval::OneMonth)
            } else {
                None
            };
            proof {
                if parsed is Some {
                    assert(value@ =~= parsed.unwrap().spec_code());
                }
            }
            match parsed {
                Some(interval) => Ok(interval),
                None => Err(Error::InvalidInterval { value: value.to_owned() }),
            }
        } else if len == 3 {
            let c0 = value.get_char(0);
            let c1 = value.get_char(1);
            let c2 = value.get_char(2);
            if c0 == '1' && c1 == '0' && c2 == 'm' {
                proof {
                    assert(value@ =~= Interval::TenMinutes.spec_code());
                }
                Ok(Interval::TenMinutes)
            } else {
                Err(Error::InvalidInterval { value: value.to_owned() })
            }
        } else {
            Err(Error::InvalidInterval { value: value.to_owned() })
        }
    }
}

/// The codec round-trips: parsing the code of any interval gives back that
/// interval.
pub proof fn lemma_code_round_trip(interval: Interval)
    ensures
        Interval::spec_parse(interval.spec_code()) == Some(interval),
{
}

} // verus!
