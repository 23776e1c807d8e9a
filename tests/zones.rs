use rigetti_pyo3::convert::{PyTryFrom, ToPython};
use rigetti_pyo3::datetime::{Date, DateTime, Time, UtcOffset};
use rigetti_pyo3::value::{ConversionError, ForeignValue};

#[test]
fn offsets_are_checked_on_both_sides() {
    assert_eq!(UtcOffset::from_whole_seconds(3600), Ok(UtcOffset { seconds: 3600 }));
    assert_eq!(UtcOffset::from_whole_seconds(93_599), Ok(UtcOffset { seconds: 93_599 }));
    assert_eq!(UtcOffset::from_whole_seconds(93_600), Err(ConversionError::Invalid));
    assert_eq!(UtcOffset::from_whole_seconds(-93_600), Err(ConversionError::Invalid));
    let day_long = UtcOffset { seconds: 86_400 };
    assert_eq!(day_long.to_python(), Err(ConversionError::Invalid));
    let ok = UtcOffset { seconds: -86_399 };
    assert_eq!(ok.to_python(), Ok(ForeignValue::Offset(-86_399)));
    assert_eq!(UtcOffset::py_try_from(&ForeignValue::Offset(-86_399)), Ok(ok));
}

#[test]
fn naive_and_aware_date_times_keep_their_kind() {
    let date = Date::from_calendar_date(2022, 3, 14).unwrap();
    let time = Time::from_hms_micro(15, 9, 26, 535_897).unwrap();
    let naive = DateTime::Primitive(date, time);
    let f = naive.to_python().unwrap();
    assert_eq!(f, ForeignValue::DateTime(2022, 3, 14, 15, 9, 26, 535_897, None));
    assert_eq!(DateTime::py_try_from(&f), Ok(naive));

    let aware = DateTime::Offset(date, time, UtcOffset { seconds: -18_000 });
    let f = aware.to_python().unwrap();
    assert_eq!(f, ForeignValue::DateTime(2022, 3, 14, 15, 9, 26, 535_897, Some(-18_000)));
    assert_eq!(DateTime::py_try_from(&f), Ok(aware));
}

#[test]
fn date_times_with_bad_parts_fail() {
    assert_eq!(
        DateTime::py_try_from(&ForeignValue::DateTime(2022, 2, 30, 0, 0, 0, 0, None)),
        Err(ConversionError::Invalid)
    );
    assert_eq!(
        DateTime::py_try_from(&ForeignValue::DateTime(2022, 2, 3, 25, 0, 0, 0, None)),
        Err(ConversionError::Invalid)
    );
    assert_eq!(
        DateTime::py_try_from(&ForeignValue::Date(2022, 2, 3)),
        Err(ConversionError::WrongShape)
    );
    let early = DateTime::Primitive(
        Date::from_calendar_date(-5, 1, 1).unwrap(),
        Time::from_hms_micro(0, 0, 0, 0).unwrap(),
    );
    assert_eq!(early.to_python(), Err(ConversionError::Invalid));
}
