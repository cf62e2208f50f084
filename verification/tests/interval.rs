use std::str::FromStr;

use candlesticks::{Error, Interval, Time};
use chrono::NaiveDateTime;

fn ts(s: &str) -> Time {
    Time::new(NaiveDateTime::from_str(s).unwrap().and_utc().timestamp())
}

const ALL: [Interval; 9] = [
    Interval::OneMinute,
    Interval::FiveMinutes,
    Interval::TenMinutes,
    Interval::OneHour,
    Interval::TwoHours,
    Interval::FourHours,
    Interval::OneDay,
    Interval::OneWeek,
    Interval::OneMonth,
];

#[test]
fn test_is_valid() {
    let tests = vec![
        (
            "2022-10-02T00:00:00",
            [true, true, true, true, true, true, true, true, false],
        ),
        (
            "2023-01-01T00:00:00",
            [true, true, true, true, true, true, true, true, true],
        ),
        (
            "2023-01-01T00:00:10",
            [
                false, false, false, false, false, false, false, false, false,
            ],
        ),
    ];
    for (s, expected_array) in tests {
        let time = ts(s);
        assert_eq!(Interval::OneMinute.is_valid_time(&time), expected_array[0]);
        assert_eq!(
            Interval::FiveMinutes.is_valid_time(&time),
            expected_array[1]
        );
        assert_eq!(Interval::TenMinutes.is_valid_time(&time), expected_array[2]);
        assert_eq!(Interval::OneHour.is_valid_time(&time), expected_array[3]);
        assert_eq!(Interval::TwoHours.is_valid_time(&time), expected_array[4]);
        assert_eq!(Interval::FourHours.is_valid_time(&time), expected_array[5]);
        assert_eq!(Interval::OneDay.is_valid_time(&time), expected_array[6]);
        assert_eq!(Interval::OneWeek.is_valid_time(&time), expected_array[7]);
        assert_eq!(Interval::OneMonth.is_valid_time(&time), expected_array[8]);
    }
}

#[test]
fn test_next() {
    let tests = vec![(
        "2023-01-01T00:00:00",
        [
            "2023-01-01T00:01:00",
            "2023-01-01T00:05:00",
            "2023-01-01T00:10:00",
            "2023-01-01T01:00:00",
            "2023-01-01T02:00:00",
            "2023-01-01T04:00:00",
            "2023-01-02T00:00:00",
            "2023-01-08T00:00:00",
            "2023-02-01T00:00:00",
        ],
    )];
    for (s, expected_array) in tests {
        let time = ts(s);
        let expected_array: Vec<Time> = expected_array.into_iter().map(ts).collect();
        assert_eq!(Interval::OneMinute.next(time), expected_array[0]);
        assert_eq!(Interval::FiveMinutes.next(time), expected_array[1]);
        assert_eq!(Interval::TenMinutes.next(time), expected_array[2]);
        assert_eq!(Interval::OneHour.next(time), expected_array[3]);
        assert_eq!(Interval::TwoHours.next(time), expected_array[4]);
        assert_eq!(Interval::FourHours.next(time), expected_array[5]);
        assert_eq!(Interval::OneDay.next(time), expected_array[6]);
        assert_eq!(Interval::OneWeek.next(time), expected_array[7]);
        assert_eq!(Interval::OneMonth.next(time), expected_array[8]);
    }
}

#[test]
fn month_rollover_respects_calendar_length() {
    assert_eq!(
        Interval::OneMonth.next(ts("2024-02-01T00:00:00")),
        ts("2024-03-01T00:00:00")
    );
    assert_eq!(
        Interval::OneMonth.next(ts("2023-02-01T00:00:00")),
        ts("2023-03-01T00:00:00")
    );
}

#[test]
fn codes_round_trip() {
    for interval in ALL {
        assert_eq!(Interval::from_str(interval.as_str()).unwrap(), interval);
    }
}

#[test]
fn codes_are_stable() {
    let expected = ["1m", "5m", "10m", "1h", "2h", "4h", "1d", "1w", "1M"];
    for (interval, code) in ALL.iter().zip(expected) {
        assert_eq!(interval.as_str(), code);
    }
}

#[test]
fn bad_codes_are_rejected() {
    for s in ["", "1", "2m", "10h", "1M ", "1mm", "7d", "1W", "60s"] {
        match Interval::from_str(s) {
            Err(Error::InvalidInterval { value }) => assert_eq!(value, s),
            Ok(interval) => panic!("{:?} parsed from {:?}", interval, s),
        }
    }
}

#[test]
fn boundaries_stay_boundaries() {
    let time = ts("2023-01-01T00:00:00");
    for interval in ALL {
        assert!(interval.is_valid_time(&time));
        let next = interval.next(time);
        assert!(next.value() > time.value());
        assert!(interval.is_valid_time(&next));
    }
}

#[test]
fn week_grid_is_thursday_anchored() {
    // The epoch fell on a Thursday; the weekly grid runs three days later.
    assert!(!Interval::OneWeek.is_valid_time(&Time::new(0)));
    assert!(Interval::OneWeek.is_valid_time(&Time::new(3 * 86400)));
    assert!(Interval::OneWeek.is_valid_time(&Time::new(10 * 86400)));
    assert!(!Interval::OneWeek.is_valid_time(&Time::new(4 * 86400)));
}

#[test]
fn negative_times_sit_on_the_grid() {
    assert!(Interval::OneMinute.is_valid_time(&Time::new(-120)));
    assert!(!Interval::OneMinute.is_valid_time(&Time::new(-90)));
    assert!(Interval::OneWeek.is_valid_time(&Time::new(3 * 86400 - 7 * 86400)));
    assert!(!Interval::OneWeek.is_valid_time(&Time::new(-7 * 86400)));
    assert!(Interval::OneMonth.is_valid_time(&ts("1969-12-01T00:00:00")));
    assert_eq!(
        Interval::OneMonth.next(ts("1969-12-01T00:00:00")),
        ts("1970-01-01T00:00:00")
    );
}
