//! Calendar dates and times of day, and their conversions.
//!
//! A native date spans years -9999 to 9999; the foreign date type only
//! years 1 to 9999, so converting an earlier date to a foreign one fails.
//! Likewise a native duration counts nanoseconds while a foreign time
//! difference counts microseconds, so a duration with a fraction of a
//! microsecond does not convert.
use vstd::prelude::*;

use crate::convert::{NonNull, PyTryFrom, RoundTrip, ToPython};
use vstd::arithmetic::div_mod::lemma_fundamental_div_mod_converse;

use crate::value::{ConversionError, Foreign, ForeignValue};

verus! {

pub open spec fn is_leap_year(y: int) -> bool {
    (y % 4 == 0 && y % 100 != 0) || y % 400 == 0
}

pub open spec fn days_in_month(y: int, m: int) -> int {
    if m == 2 {
        if is_leap_year(y) {
            29
        } else {
            28
        }
    } else if m == 4 || m == 6 || m == 9 || m == 11 {
        30
    } else {
        31
    }
}

/// Whether the components make a native calendar date.
pub open spec fn valid_date(y: int, m: int, d: int) -> bool {
    &&& -9999 <= y <= 9999
    &&& 1 <= m <= 12
    &&& 1 <= d <= days_in_month(y, m)
}

/// The years the foreign date type can hold.
pub open spec fn foreign_year(y: int) -> bool {
    1 <= y <= 9999
}

/// A calendar date.
#[derive(Debug, Clone, Copy, PartialEq, Eq)]
pub struct Date {
    pub year: i32,
    pub month: u8,
    pub day: u8,
}

impl DeepView for Date {
    type V = Date;

    open spec fn deep_view(&self) -> Date {
        *self
    }
}

/// Whether `y` is a leap year, for `y` within the native range.
fn leap_year(y: i32) -> (r: bool)
    requires
        -9999 <= y <= 9999,
    ensures
        r == is_leap_year(y as int),
{
    let shifted: u32 = (y + 10000) as u32;
    assert(is_leap_year(y as int) == is_leap_year(shifted as int)) by {
        assert((y + 10000) % 4 == y % 4) by (nonlinear_arith);
        assert((y + 10000) % 100 == y % 100) by (nonlinear_arith);
        assert((y + 10000) % 400 == y % 400) by (nonlinear_arith);
    }
    (shifted % 4 == 0 && shifted % 100 != 0) || shifted % 400 == 0
}

impl Date {
    /// Whether this is a calendar date of the native range.
    pub open spec fn wf(&self) -> bool {
        valid_date(self.year as int, self.month as int, self.day as int)
    }

    /// Builds a date from its components, checking that they make one.
    pub fn from_calendar_date(year: i32, month: u8, day: u8) -> (r: Result<Date, ConversionError>)
        ensures
            valid_date(year as int, month as int, day as int) ==> r == Ok::<Date, ConversionError>(
                Date { year, month, day },
            ),
            !valid_date(year as int, month as int, day as int) ==> r == Err::<Date, ConversionError>(
                ConversionError::Invalid,
            ),
            r matches Ok(x) ==> x.wf(),
    {
        if year < -9999 || year > 9999 || month < 1 || month > 12 || day < 1 {
            return Err(ConversionError::Invalid);
        }
        let last: u8 = if month == 2 {
            if leap_year(year) {
                29
            } else {
                28
            }
        } else if month == 4 || month == 6 || month == 9 || month == 11 {
            30
        } else {
            31
        };
        if day > last {
            Err(ConversionError::Invalid)
        } else {
            Ok(Date { year, month, day })
        }
    }
}

impl ToPython for Date {
    open spec fn encode(x: Date) -> Result<Foreign, ConversionError> {
        if valid_date(x.year as int, x.month as int, x.day as int) && foreign_year(x.year as int) {
            Ok(Foreign::Date(x.year as int, x.month as int, x.day as int))
        } else {
            Err(ConversionError::Invalid)
        }
    }

    fn to_python(&self) -> (r: Result<ForeignValue, ConversionError>) {
        match Date::from_calendar_date(self.year, self.month, self.day) {
            Ok(_) => if self.year >= 1 {
                Ok(ForeignValue::Date(self.year, self.month, self.day))
            } else {
                Err(ConversionError::Invalid)
            },
            Err(e) => Err(e),
        }
    }
}

impl PyTryFrom for Date {
    open spec fn decode(v: Foreign) -> Result<Date, ConversionError> {
        match v {
            Foreign::Date(y, m, d) => if valid_date(y, m, d) {
                Ok(Date { year: y as i32, month: m as u8, day: d as u8 })
            } else {
                Err(ConversionError::Invalid)
            },
            _ => Err(ConversionError::WrongShape),
        }
    }

    fn py_try_from(v: &ForeignValue) -> (r: Result<Date, ConversionError>) {
        match v {
            ForeignValue::Date(y, m, d) => Date::from_calendar_date(*y, *m, *d),
            _ => Err(ConversionError::WrongShape),
        }
    }
}

impl RoundTrip for Date {
    proof fn lemma_round_trip(x: Date) {
    }
}

impl NonNull for Date {
    proof fn lemma_not_null(x: Date) {
    }
}

/// Whether the components make a time of day.
pub open spec fn valid_time(h: int, mi: int, s: int, us: int) -> bool {
    &&& 0 <= h < 24
    &&& 0 <= mi < 60
    &&& 0 <= s < 60
    &&& 0 <= us < 1_000_000
}

/// A time of day, to the microsecond.
#[derive(Debug, Clone, Copy, PartialEq, Eq)]
pub struct Time {
    pub hour: u8,
    pub minute: u8,
    pub second: u8,
    pub microsecond: u32,
}

impl DeepView for Time {
    type V = Time;

    open spec fn deep_view(&self) -> Time {
        *self
    }
}

impl Time {
    /// Whether this is a time of day.
    pub open spec fn wf(&self) -> bool {
        valid_time(self.hour as int, self.minute as int, self.second as int, self.microsecond as int)
    }

    /// Builds a time of day from its components, checking that they make
    /// one.
    pub fn from_hms_micro(hour: u8, minute: u8, second: u8, microsecond: u32) -> (r: Result<
        Time,
        ConversionError,
    >)
        ensures
            valid_time(hour as int, minute as int, second as int, microsecond as int) ==> r == Ok::<
                Time,
                ConversionError,
            >(Time { hour, minute, second, microsecond }),
            !valid_time(hour as int, minute as int, second as int, microsecond as int) ==> r == Err::<
                Time,
                ConversionError,
            >(ConversionError::Invalid),
            r matches Ok(x) ==> x.wf(),
    {
        if hour < 24 && minute < 60 && second < 60 && microsecond < 1_000_000 {
            Ok(Time { hour, minute, second, microsecond })
        } else {
            Err(ConversionError::Invalid)
        }
    }
}

impl ToPython for Time {
    open spec fn encode(x: Time) -> Result<Foreign, ConversionError> {
        if valid_time(x.hour as int, x.minute as int, x.second as int, x.microsecond as int) {
            Ok(Foreign::Time(x.hour as int, x.minute as int, x.second as int, x.microsecond as int, None))
        } else {
            Err(ConversionError::Invalid)
        }
    }

    fn to_python(&self) -> (r: Result<ForeignValue, ConversionError>) {
        match Time::from_hms_micro(self.hour, self.minute, self.second, self.microsecond) {
            Ok(_) => Ok(ForeignValue::Time(self.hour, self.minute, self.second, self.microsecond, None)),
            Err(e) => Err(e),
        }
    }
}

impl PyTryFrom for Time {
    open spec fn decode(v: Foreign) -> Result<Time, ConversionError> {
        match v {
            Foreign::Time(h, mi, s, us, None) => if valid_time(h, mi, s, us) {
                Ok(Time { hour: h as u8, minute: mi as u8, second: s as u8, microsecond: us as u32 })
            } else {
                Err(ConversionError::Invalid)
            },
            _ => Err(ConversionError::WrongShape),
        }
    }

    fn py_try_from(v: &ForeignValue) -> (r: Result<Time, ConversionError>) {
        match v {
            ForeignValue::Time(h, mi, s, us, None) => Time::from_hms_micro(*h, *mi, *s, *us),
            _ => Err(ConversionError::WrongShape),
        }
    }
}

impl RoundTrip for Time {
    proof fn lemma_round_trip(x: Time) {
    }
}

impl NonNull for Time {
    proof fn lemma_not_null(x: Time) {
    }
}

/// The offsets, in seconds, a native UTC offset can hold: up to 25:59:59
/// either way.
pub open spec fn valid_offset(s: int) -> bool {
    -93599 <= s <= 93599
}

/// The offsets the foreign time zone type can hold: strictly less than a
/// day either way.
pub open spec fn foreign_offset(s: int) -> bool {
    -86399 <= s <= 86399
}

/// An offset from UTC, in whole seconds.
#[derive(Debug, Clone, Copy, PartialEq, Eq)]
pub struct UtcOffset {
    pub seconds: i32,
}

impl DeepView for UtcOffset {
    type V = UtcOffset;

    open spec fn deep_view(&self) -> UtcOffset {
        *self
    }
}

impl UtcOffset {
    /// Whether the offset is within the native range.
    pub open spec fn wf(&self) -> bool {
        valid_offset(self.seconds as int)
    }

    /// Builds an offset, checking its range.
    pub fn from_whole_seconds(seconds: i32) -> (r: Result<UtcOffset, ConversionError>)
        ensures
            valid_offset(seconds as int) ==> r == Ok::<UtcOffset, ConversionError>(UtcOffset { seconds }),
            !valid_offset(seconds as int) ==> r == Err::<UtcOffset, ConversionError>(
                ConversionError::Invalid,
            ),
            r matches Ok(x) ==> x.wf(),
    {
        if -93599 <= seconds && seconds <= 93599 {
            Ok(UtcOffset { seconds })
        } else {
            Err(ConversionError::Invalid)
        }
    }
}

impl ToPython for UtcOffset {
    open spec fn encode(x: UtcOffset) -> Result<Foreign, ConversionError> {
        if foreign_offset(x.seconds as int) {
            Ok(Foreign::Offset(x.seconds as int))
        } else {
            Err(ConversionError::Invalid)
        }
    }

    fn to_python(&self) -> (r: Result<ForeignValue, ConversionError>) {
        if -86399 <= self.seconds && self.seconds <= 86399 {
            Ok(ForeignValue::Offset(self.seconds))
        } else {
            Err(ConversionError::Invalid)
        }
    }
}

impl PyTryFrom for UtcOffset {
    open spec fn decode(v: Foreign) -> Result<UtcOffset, ConversionError> {
        match v {
            Foreign::Offset(s) => if valid_offset(s) {
                Ok(UtcOffset { seconds: s as i32 })
            } else {
                Err(ConversionError::Invalid)
            },
            _ => Err(ConversionError::WrongShape),
        }
    }

    fn py_try_from(v: &ForeignValue) -> (r: Result<UtcOffset, ConversionError>) {
        match v {
            ForeignValue::Offset(s) => UtcOffset::from_whole_seconds(*s),
            _ => Err(ConversionError::WrongShape),
        }
    }
}

impl RoundTrip for UtcOffset {
    proof fn lemma_round_trip(x: UtcOffset) {
    }
}

impl NonNull for UtcOffset {
    proof fn lemma_not_null(x: UtcOffset) {
    }
}

/// A date and time of day, either naive or at a fixed offset from UTC.
#[derive(Debug, Clone, Copy, PartialEq, Eq)]
pub enum DateTime {
    Primitive(Date, Time),
    Offset(Date, Time, UtcOffset),
}

impl DateTime {
    /// Whether every part is well formed.
    pub open spec fn wf(&self) -> bool {
        match self {
            DateTime::Primitive(d, t) => d.wf() && t.wf(),
            DateTime::Offset(d, t, o) => d.wf() && t.wf() && o.wf(),
        }
    }
}

impl DeepView for DateTime {
    type V = DateTime;

    open spec fn deep_view(&self) -> DateTime {
        *self
    }
}

/// Whether a date and a time can be written as a foreign date-and-time.
pub open spec fn foreign_date_time(d: Date, t: Time) -> bool {
    &&& valid_date(d.year as int, d.month as int, d.day as int)
    &&& foreign_year(d.year as int)
    &&& valid_time(t.hour as int, t.minute as int, t.second as int, t.microsecond as int)
}

impl ToPython for DateTime {
    open spec fn encode(x: DateTime) -> Result<Foreign, ConversionError> {
        match x {
            DateTime::Primitive(d, t) => if foreign_date_time(d, t) {
                Ok(
                    Foreign::DateTime(
                        d.year as int,
                        d.month as int,
                        d.day as int,
                        t.hour as int,
                        t.minute as int,
                        t.second as int,
                        t.microsecond as int,
                        None,
                    ),
                )
            } else {
                Err(ConversionError::Invalid)
            },
            DateTime::Offset(d, t, o) => if foreign_date_time(d, t) && foreign_offset(o.seconds as int) {
                Ok(
                    Foreign::DateTime(
                        d.year as int,
                        d.month as int,
                        d.day as int,
                        t.hour as int,
                        t.minute as int,
                        t.second as int,
                        t.microsecond as int,
                        Some(o.seconds as int),
                    ),
                )
            } else {
                Err(ConversionError::Invalid)
            },
        }
    }

    fn to_python(&self) -> (r: Result<ForeignValue, ConversionError>) {
        let (d, t, tz) = match self {
            DateTime::Primitive(d, t) => (*d, *t, None),
            DateTime::Offset(d, t, o) => {
                if o.seconds < -86399 || o.seconds > 86399 {
                    return Err(ConversionError::Invalid);
                }
                (*d, *t, Some(o.seconds))
            },
        };
        if let Err(e) = d.to_python() {
            return Err(e);
        }
        if let Err(e) = t.to_python() {
            return Err(e);
        }
        Ok(ForeignValue::DateTime(d.year, d.month, d.day, t.hour, t.minute, t.second, t.microsecond, tz))
    }
}

impl PyTryFrom for DateTime {
    open spec fn decode(v: Foreign) -> Result<DateTime, ConversionError> {
        match v {
            Foreign::DateTime(y, m, d, h, mi, s, us, tz) => if valid_date(y, m, d) && valid_time(
                h,
                mi,
                s,
                us,
            ) {
                let date = Date { year: y as i32, month: m as u8, day: d as u8 };
                let time = Time { hour: h as u8, minute: mi as u8, second: s as u8, microsecond: us as u32 };
                match tz {
                    None => Ok(DateTime::Primitive(date, time)),
                    Some(o) => if valid_offset(o) {
                        Ok(DateTime::Offset(date, time, UtcOffset { seconds: o as i32 }))
                    } else {
                        Err(ConversionError::Invalid)
                    },
                }
            } else {
                Err(ConversionError::Invalid)
            },
            _ => Err(ConversionError::WrongShape),
        }
    }

    fn py_try_from(v: &ForeignValue) -> (r: Result<DateTime, ConversionError>) {
        match v {
            ForeignValue::DateTime(y, m, d, h, mi, s, us, tz) => {
                let date = match Date::from_calendar_date(*y, *m, *d) {
                    Ok(date) => date,
                    Err(e) => return Err(e),
                };
                let time = match Time::from_hms_micro(*h, *mi, *s, *us) {
                    Ok(time) => time,
                    Err(e) => return Err(e),
                };
                match tz {
                    None => Ok(DateTime::Primitive(date, time)),
                    Some(o) => match UtcOffset::from_whole_seconds(*o) {
                        Ok(offset) => Ok(DateTime::Offset(date, time, offset)),
                        Err(e) => Err(e),
                    },
                }
            },
            _ => Err(ConversionError::WrongShape),
        }
    }
}

impl RoundTrip for DateTime {
    proof fn lemma_round_trip(x: DateTime) {
    }
}

impl NonNull for DateTime {
    proof fn lemma_not_null(x: DateTime) {
    }
}

/// Microseconds in a day.
pub const MICROS_PER_DAY: u128 = 86_400_000_000;

/// The days a foreign time difference can hold, either way.
pub const MAX_DELTA_DAYS: i128 = 999_999_999;

/// A signed length of time: whole seconds and the nanoseconds beyond them.
/// Both parts have the same sign, and the nanoseconds stay below a second.
#[derive(Debug, Clone, Copy, PartialEq, Eq)]
pub struct Duration {
    pub seconds: i64,
    pub nanoseconds: i32,
}

impl DeepView for Duration {
    type V = Duration;

    open spec fn deep_view(&self) -> Duration {
        *self
    }
}

/// Whether the parts are in their normal form.
pub open spec fn valid_duration(s: int, n: int) -> bool {
    &&& -1_000_000_000 < n < 1_000_000_000
    &&& s > 0 ==> n >= 0
    &&& s < 0 ==> n <= 0
}

/// The whole length in nanoseconds.
pub open spec fn total_nanos(d: Duration) -> int {
    d.seconds * 1_000_000_000 + d.nanoseconds
}

/// The normal form of a length given in nanoseconds: seconds rounded
/// toward zero and the rest, if the seconds fit.
pub open spec fn duration_of_nanos(total: int) -> Option<Duration> {
    let s = if total >= 0 {
        total / 1_000_000_000
    } else {
        -((-total) / 1_000_000_000)
    };
    if i64::MIN <= s <= i64::MAX {
        Some(Duration { seconds: s as i64, nanoseconds: (total - s * 1_000_000_000) as i32 })
    } else {
        None
    }
}

/// Whether the parts are a normalized foreign time difference.
pub open spec fn valid_delta(days: int, s: int, us: int) -> bool {
    &&& -999_999_999 <= days <= 999_999_999
    &&& 0 <= s < 86_400
    &&& 0 <= us < 1_000_000
}

/// The foreign time difference of a length in microseconds: whole days
/// rounded down and the seconds and microseconds left over.
pub open spec fn delta_of_micros(us: int) -> Foreign {
    let rem = us % 86_400_000_000;
    Foreign::Delta(us / 86_400_000_000, rem / 1_000_000, rem % 1_000_000)
}

/// A normal form is the only one with its length.
proof fn lemma_duration_of_total(d: Duration)
    requires
        valid_duration(d.seconds as int, d.nanoseconds as int),
    ensures
        duration_of_nanos(total_nanos(d)) == Some(d),
{
    let t = total_nanos(d);
    if t >= 0 {
        if d.seconds < 0 {
            assert(d.seconds * 1_000_000_000 <= -1_000_000_000) by (nonlinear_arith)
                requires
                    d.seconds < 0,
            ;
        }
        lemma_fundamental_div_mod_converse(t, 1_000_000_000, d.seconds as int, d.nanoseconds as int);
    } else {
        if d.seconds > 0 {
            assert(d.seconds * 1_000_000_000 >= 1_000_000_000) by (nonlinear_arith)
                requires
                    d.seconds > 0,
            ;
        }
        lemma_fundamental_div_mod_converse(
            -t,
            1_000_000_000,
            -(d.seconds as int),
            -(d.nanoseconds as int),
        );
    }
}

impl Duration {
    /// Whether the parts are in their normal form.
    pub open spec fn wf(&self) -> bool {
        valid_duration(self.seconds as int, self.nanoseconds as int)
    }

    /// The normal form of a length in nanoseconds, if its seconds fit.
    pub fn from_total_nanos(total: i128) -> (r: Result<Duration, ConversionError>)
        requires
            total > i128::MIN,
        ensures
            match duration_of_nanos(total as int) {
                Some(d) => r == Ok::<Duration, ConversionError>(d) && valid_duration(
                    d.seconds as int,
                    d.nanoseconds as int,
                ),
                None => r == Err::<Duration, ConversionError>(ConversionError::Narrowing),
            },
            r matches Ok(x) ==> x.wf(),
    {
        let mag: u128 = if total >= 0 {
            total as u128
        } else {
            (-total) as u128
        };
        let q: u128 = mag / 1_000_000_000;
        let rest: u128 = mag % 1_000_000_000;
        let (seconds, nanoseconds): (i128, i128) = if total >= 0 {
            (q as i128, rest as i128)
        } else {
            (-(q as i128), -(rest as i128))
        };
        if seconds < i64::MIN as i128 || seconds > i64::MAX as i128 {
            return Err(ConversionError::Narrowing);
        }
        Ok(Duration { seconds: seconds as i64, nanoseconds: nanoseconds as i32 })
    }
}

impl ToPython for Duration {
    open spec fn encode(x: Duration) -> Result<Foreign, ConversionError> {
        if !valid_duration(x.seconds as int, x.nanoseconds as int) {
            Err(ConversionError::Invalid)
        } else if total_nanos(x) % 1000 != 0 {
            Err(ConversionError::Narrowing)
        } else if !(-999_999_999 <= (total_nanos(x) / 1000) / 86_400_000_000 <= 999_999_999) {
            Err(ConversionError::Narrowing)
        } else {
            Ok(delta_of_micros(total_nanos(x) / 1000))
        }
    }

    fn to_python(&self) -> (r: Result<ForeignValue, ConversionError>) {
        let s = self.seconds;
        let n = self.nanoseconds;
        if n <= -1_000_000_000 || n >= 1_000_000_000 || (s > 0 && n < 0) || (s < 0 && n > 0) {
            return Err(ConversionError::Invalid);
        }
        let total: i128 = s as i128 * 1_000_000_000 + n as i128;
        let mag: u128 = if total >= 0 {
            total as u128
        } else {
            (-total) as u128
        };
        let umicros: u128 = mag / 1000;
        let sub: u128 = mag % 1000;
        let ghost t = total as int;
        proof {
            if t < 0 {
                if sub == 0 {
                    lemma_fundamental_div_mod_converse(t, 1000, -(umicros as int), 0);
                } else {
                    lemma_fundamental_div_mod_converse(
                        t,
                        1000,
                        -(umicros as int) - 1,
                        1000 - sub as int,
                    );
                }
            }
        }
        if sub != 0 {
            return Err(ConversionError::Narrowing);
        }
        let q: u128 = umicros / MICROS_PER_DAY;
        let rest: u128 = umicros % MICROS_PER_DAY;
        let (days, rem): (i128, u128) = if total >= 0 || rest == 0 {
            if total >= 0 {
                (q as i128, rest)
            } else {
                (-(q as i128), 0)
            }
        } else {
            (-(q as i128) - 1, MICROS_PER_DAY - rest)
        };
        proof {
            let us = t / 1000;
            if t < 0 {
                assert(us == -(umicros as int));
                if rest == 0 {
                    lemma_fundamental_div_mod_converse(us, 86_400_000_000, -(q as int), 0);
                } else {
                    lemma_fundamental_div_mod_converse(
                        us,
                        86_400_000_000,
                        -(q as int) - 1,
                        86_400_000_000 - rest as int,
                    );
                }
            }
            assert(days == us / 86_400_000_000);
            assert(rem == us % 86_400_000_000);
        }
        if days < -MAX_DELTA_DAYS || days > MAX_DELTA_DAYS {
            return Err(ConversionError::Narrowing);
        }
        Ok(
            ForeignValue::Delta(
                days as i32,
                (rem / 1_000_000) as i32,
                (rem % 1_000_000) as i32,
            ),
        )
    }
}

impl PyTryFrom for Duration {
    open spec fn decode(v: Foreign) -> Result<Duration, ConversionError> {
        match v {
            Foreign::Delta(days, s, us) => if valid_delta(days, s, us) {
                Ok(
                    duration_of_nanos(
                        (days * 86_400_000_000 + s * 1_000_000 + us) * 1000,
                    )->Some_0,
                )
            } else {
                Err(ConversionError::Invalid)
            },
            _ => Err(ConversionError::WrongShape),
        }
    }

    fn py_try_from(v: &ForeignValue) -> (r: Result<Duration, ConversionError>) {
        match v {
            ForeignValue::Delta(days, s, us) => {
                let (days, s, us) = (*days as i128, *s as i128, *us as i128);
                if days < -MAX_DELTA_DAYS || days > MAX_DELTA_DAYS || s < 0 || s >= 86_400 || us < 0
                    || us >= 1_000_000 {
                    return Err(ConversionError::Invalid);
                }
                let micros: i128 = days * 86_400_000_000 + s * 1_000_000 + us;
                let total: i128 = micros * 1000;
                proof {
                    let t = total as int;
                    assert(-100_000_000_000_000_000_000_000i128 <= t <= 100_000_000_000_000_000_000_000i128)
                        by (nonlinear_arith)
                        requires
                            -999_999_999 <= days <= 999_999_999,
                            0 <= s < 86_400,
                            0 <= us < 1_000_000,
                            t == (days * 86_400_000_000 + s * 1_000_000 + us) * 1000,
                    ;
                    let q = if t >= 0 { t / 1_000_000_000 } else { -((-t) / 1_000_000_000) };
                    assert(i64::MIN <= q <= i64::MAX) by {
                        if t >= 0 {
                            assert(t / 1_000_000_000 <= 100_000_000_000_000) by (nonlinear_arith)
                                requires
                                    0 <= t <= 100_000_000_000_000_000_000_000int,
                            ;
                        } else {
                            assert((-t) / 1_000_000_000 <= 100_000_000_000_000) by (nonlinear_arith)
                                requires
                                    0 < -t <= 100_000_000_000_000_000_000_000int,
                            ;
                        }
                    }
                }
                Duration::from_total_nanos(total)
            },
            _ => Err(ConversionError::WrongShape),
        }
    }
}

impl RoundTrip for Duration {
    proof fn lemma_round_trip(x: Duration) {
        if let Ok(f) = <Duration as ToPython>::encode(x) {
            let t = total_nanos(x);
            let us = t / 1000;
            let rem = us % 86_400_000_000;
            assert(t == us * 1000) by {
                vstd::arithmetic::div_mod::lemma_fundamental_div_mod(t, 1000);
            }
            assert(us == (us / 86_400_000_000) * 86_400_000_000 + rem) by {
                vstd::arithmetic::div_mod::lemma_fundamental_div_mod(us, 86_400_000_000);
            }
            assert(rem == (rem / 1_000_000) * 1_000_000 + rem % 1_000_000) by {
                vstd::arithmetic::div_mod::lemma_fundamental_div_mod(rem, 1_000_000);
            }
            assert(0 <= rem < 86_400_000_000);
            assert(0 <= rem / 1_000_000 < 86_400) by (nonlinear_arith)
                requires
                    0 <= rem < 86_400_000_000,
            ;
            lemma_duration_of_total(x);
        }
    }
}

impl NonNull for Duration {
    proof fn lemma_not_null(x: Duration) {
    }
}

/// The offset a foreign time difference stands for: its length rounded
/// toward zero to whole seconds, which must be a native offset.
pub fn offset_of_delta(delta: &ForeignValue) -> (r: Result<UtcOffset, ConversionError>)
    ensures
        match <Duration as PyTryFrom>::decode(delta@) {
            Ok(d) => if valid_offset(d.seconds as int) {
                r == Ok::<UtcOffset, ConversionError>(UtcOffset { seconds: d.seconds as i32 })
            } else {
                r == Err::<UtcOffset, ConversionError>(ConversionError::Invalid)
            },
            Err(e) => r == Err::<UtcOffset, ConversionError>(e),
        },
        r matches Ok(o) ==> o.wf(),
{
    match Duration::py_try_from(delta) {
        Ok(d) => if -93599 <= d.seconds && d.seconds <= 93599 {
            Ok(UtcOffset { seconds: d.seconds as i32 })
        } else {
            Err(ConversionError::Invalid)
        },
        Err(e) => Err(e),
    }
}

/// A time of day with the offset of its zone, when it is aware of one.
#[derive(Debug, Clone, Copy, PartialEq, Eq)]
pub struct TimeTz {
    pub time: Time,
    pub offset: Option<UtcOffset>,
}

impl DeepView for TimeTz {
    type V = TimeTz;

    open spec fn deep_view(&self) -> TimeTz {
        *self
    }
}

impl TimeTz {
    /// Whether the time and the offset, if any, are well formed.
    pub open spec fn wf(&self) -> bool {
        &&& self.time.wf()
        &&& self.offset matches Some(o) ==> o.wf()
    }
}

impl ToPython for TimeTz {
    open spec fn encode(x: TimeTz) -> Result<Foreign, ConversionError> {
        let t = x.time;
        if !valid_time(t.hour as int, t.minute as int, t.second as int, t.microsecond as int) {
            Err(ConversionError::Invalid)
        } else {
            match x.offset {
                None => Ok(
                    Foreign::Time(t.hour as int, t.minute as int, t.second as int, t.microsecond as int, None),
                ),
                Some(o) => if foreign_offset(o.seconds as int) {
                    Ok(
                        Foreign::Time(
                            t.hour as int,
                            t.minute as int,
                            t.second as int,
                            t.microsecond as int,
                            Some(o.seconds as int),
                        ),
                    )
                } else {
                    Err(ConversionError::Invalid)
                },
            }
        }
    }

    fn to_python(&self) -> (r: Result<ForeignValue, ConversionError>) {
        let t = self.time;
        if let Err(e) = Time::from_hms_micro(t.hour, t.minute, t.second, t.microsecond) {
            return Err(e);
        }
        let tz = match self.offset {
            None => None,
            Some(o) => {
                if o.seconds < -86399 || o.seconds > 86399 {
                    return Err(ConversionError::Invalid);
                }
                Some(o.seconds)
            },
        };
        Ok(ForeignValue::Time(t.hour, t.minute, t.second, t.microsecond, tz))
    }
}

impl PyTryFrom for TimeTz {
    open spec fn decode(v: Foreign) -> Result<TimeTz, ConversionError> {
        match v {
            Foreign::Time(h, mi, s, us, tz) => if valid_time(h, mi, s, us) {
                let time = Time { hour: h as u8, minute: mi as u8, second: s as u8, microsecond: us as u32 };
                match tz {
                    None => Ok(TimeTz { time, offset: None }),
                    Some(o) => if valid_offset(o) {
                        Ok(TimeTz { time, offset: Some(UtcOffset { seconds: o as i32 }) })
                    } else {
                        Err(ConversionError::Invalid)
                    },
                }
            } else {
                Err(ConversionError::Invalid)
            },
            _ => Err(ConversionError::WrongShape),
        }
    }

    fn py_try_from(v: &ForeignValue) -> (r: Result<TimeTz, ConversionError>) {
        match v {
            ForeignValue::Time(h, mi, s, us, tz) => {
                let time = match Time::from_hms_micro(*h, *mi, *s, *us) {
                    Ok(time) => time,
                    Err(e) => return Err(e),
                };
                match tz {
                    None => Ok(TimeTz { time, offset: None }),
                    Some(o) => match UtcOffset::from_whole_seconds(*o) {
                        Ok(offset) => Ok(TimeTz { time, offset: Some(offset) }),
                        Err(e) => Err(e),
                    },
                }
            },
            _ => Err(ConversionError::WrongShape),
        }
    }
}

impl RoundTrip for TimeTz {
    proof fn lemma_round_trip(x: TimeTz) {
    }
}

impl NonNull for TimeTz {
    proof fn lemma_not_null(x: TimeTz) {
    }
}

} // verus!
