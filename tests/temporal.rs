use rigetti_pyo3::convert::{PyTryFrom, ToPython};
use rigetti_pyo3::datetime::{offset_of_delta, Date, Duration, Time, TimeTz, UtcOffset};
use rigetti_pyo3::value::{ConversionError, ForeignValue};

#[test]
fn dates_are_checked_when_built() {
    assert_eq!(
        Date::from_calendar_date(2024, 2, 29),
        Ok(Date {
            year: 2024,
            month: 2,
            day: 29
        })
    );
    assert_eq!(Date::from_calendar_date(2023, 2, 29), Err(ConversionError::Invalid));
    assert_eq!(Date::from_calendar_date(1900, 2, 29), Err(ConversionError::Invalid));
    assert!(Date::from_calendar_date(2000, 2, 29).is_ok());
    assert!(Date::from_calendar_date(-4, 2, 29).is_ok());
    assert_eq!(Date::from_calendar_date(2024, 4, 31), Err(ConversionError::Invalid));
    assert_eq!(Date::from_calendar_date(2024, 13, 1), Err(ConversionError::Invalid));
    assert_eq!(Date::from_calendar_date(2024, 1, 0), Err(ConversionError::Invalid));
    assert_eq!(Date::from_calendar_date(10000, 1, 1), Err(ConversionError::Invalid));
    assert!(Date::from_calendar_date(-9999, 1, 1).is_ok());
}

#[test]
fn dates_round_trip_through_foreign_dates() {
    let d = Date::from_calendar_date(1969, 7, 20).unwrap();
    let f = d.to_python().unwrap();
    assert_eq!(f, ForeignValue::Date(1969, 7, 20));
    assert_eq!(Date::py_try_from(&f), Ok(d));
}

#[test]
fn dates_before_the_foreign_range_do_not_convert() {
    let d = Date::from_calendar_date(0, 1, 1).unwrap();
    assert_eq!(d.to_python(), Err(ConversionError::Invalid));
    let d = Date::from_calendar_date(1, 1, 1).unwrap();
    assert_eq!(d.to_python(), Ok(ForeignValue::Date(1, 1, 1)));
}

#[test]
fn foreign_dates_with_bad_components_are_refused() {
    assert_eq!(
        Date::py_try_from(&ForeignValue::Date(2021, 2, 30)),
        Err(ConversionError::Invalid)
    );
    assert_eq!(
        Date::py_try_from(&ForeignValue::Int(20210230)),
        Err(ConversionError::WrongShape)
    );
}

#[test]
fn times_round_trip_and_are_checked() {
    let t = Time::from_hms_micro(23, 59, 59, 999_999).unwrap();
    let f = t.to_python().unwrap();
    assert_eq!(f, ForeignValue::Time(23, 59, 59, 999_999, None));
    assert_eq!(Time::py_try_from(&f), Ok(t));
    assert_eq!(Time::from_hms_micro(24, 0, 0, 0), Err(ConversionError::Invalid));
    assert_eq!(Time::from_hms_micro(0, 0, 0, 1_000_000), Err(ConversionError::Invalid));
    assert_eq!(
        Time::py_try_from(&ForeignValue::Time(12, 60, 0, 0, None)),
        Err(ConversionError::Invalid)
    );
}

#[test]
fn a_failing_element_fails_the_whole_sequence() {
    let dates = vec![
        Date::from_calendar_date(2000, 1, 1).unwrap(),
        Date::from_calendar_date(-1, 1, 1).unwrap(),
    ];
    assert_eq!(dates.to_python(), Err(ConversionError::Invalid));
    let ok = vec![Date::from_calendar_date(2000, 1, 1).unwrap()];
    assert_eq!(
        ok.to_python(),
        Ok(ForeignValue::List(vec![ForeignValue::Date(2000, 1, 1)]))
    );
}


#[test]
fn durations_become_normalized_time_differences() {
    let d = Duration {
        seconds: 90_061,
        nanoseconds: 5_000,
    };
    assert_eq!(d.to_python(), Ok(ForeignValue::Delta(1, 3_661, 5)));
    let minus_one_micro = Duration {
        seconds: 0,
        nanoseconds: -1_000,
    };
    assert_eq!(
        minus_one_micro.to_python(),
        Ok(ForeignValue::Delta(-1, 86_399, 999_999))
    );
    let minus_day = Duration {
        seconds: -86_400,
        nanoseconds: 0,
    };
    assert_eq!(minus_day.to_python(), Ok(ForeignValue::Delta(-1, 0, 0)));
}

#[test]
fn durations_round_trip() {
    for (s, n) in [(0i64, 0i32), (1, 999_999_000), (-1, -1_000), (-90_061, -5_000), (86_399, 0)] {
        let d = Duration {
            seconds: s,
            nanoseconds: n,
        };
        let f = d.to_python().unwrap();
        assert_eq!(Duration::py_try_from(&f), Ok(d));
    }
}

#[test]
fn durations_that_do_not_fit_fail() {
    let fine = Duration {
        seconds: 1,
        nanoseconds: 1,
    };
    assert_eq!(fine.to_python(), Err(ConversionError::Narrowing));
    let huge = Duration {
        seconds: i64::MAX,
        nanoseconds: 0,
    };
    assert_eq!(huge.to_python(), Err(ConversionError::Narrowing));
    let mixed_signs = Duration {
        seconds: 1,
        nanoseconds: -1,
    };
    assert_eq!(mixed_signs.to_python(), Err(ConversionError::Invalid));
    assert_eq!(
        Duration::py_try_from(&ForeignValue::Delta(0, 86_400, 0)),
        Err(ConversionError::Invalid)
    );
    assert_eq!(
        Duration::py_try_from(&ForeignValue::Delta(-1, 86_399, 999_999)),
        Ok(Duration {
            seconds: 0,
            nanoseconds: -1_000
        })
    );
}

#[test]
fn nanosecond_totals_normalize_toward_zero() {
    assert_eq!(
        Duration::from_total_nanos(-1_500_000_000),
        Ok(Duration {
            seconds: -1,
            nanoseconds: -500_000_000
        })
    );
    assert_eq!(
        Duration::from_total_nanos(i64::MIN as i128 * 1_000_000_000),
        Ok(Duration {
            seconds: i64::MIN,
            nanoseconds: 0
        })
    );
    assert_eq!(
        Duration::from_total_nanos((i64::MAX as i128 + 1) * 1_000_000_000),
        Err(ConversionError::Narrowing)
    );
}

#[test]
fn offsets_read_from_time_differences() {
    assert_eq!(offset_of_delta(&ForeignValue::Delta(0, 3_600, 500)), Ok(UtcOffset { seconds: 3_600 }));
    assert_eq!(offset_of_delta(&ForeignValue::Delta(-1, 86_399, 999_999)), Ok(UtcOffset { seconds: 0 }));
    assert_eq!(offset_of_delta(&ForeignValue::Delta(-1, 0, 0)), Ok(UtcOffset { seconds: -86_400 }));
    assert_eq!(offset_of_delta(&ForeignValue::Delta(2, 0, 0)), Err(ConversionError::Invalid));
    assert_eq!(offset_of_delta(&ForeignValue::Int(0)), Err(ConversionError::WrongShape));
}

#[test]
fn times_with_zones_round_trip() {
    let time = Time::from_hms_micro(8, 30, 0, 0).unwrap();
    let aware = TimeTz {
        time,
        offset: Some(UtcOffset { seconds: 19_800 }),
    };
    let f = aware.to_python().unwrap();
    assert_eq!(f, ForeignValue::Time(8, 30, 0, 0, Some(19_800)));
    assert_eq!(TimeTz::py_try_from(&f), Ok(aware));
    let naive = TimeTz { time, offset: None };
    assert_eq!(TimeTz::py_try_from(&naive.to_python().unwrap()), Ok(naive));
    assert_eq!(Time::py_try_from(&f), Err(ConversionError::WrongShape));
    let far = TimeTz {
        time,
        offset: Some(UtcOffset { seconds: 90_000 }),
    };
    assert_eq!(far.to_python(), Err(ConversionError::Invalid));
}
