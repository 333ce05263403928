//! Date and time axis values: RFC-3339 round trips through both backends,
//! epoch milliseconds, and the calendar fragments.

use chart_js_wrapper::chrono_axis::{chrono_rfc3339_parse, chrono_rfc3339_round_trip,
    chrono_rfc3339_string, ChronoStamp};
use chart_js_wrapper::time_axis::{rfc3339_parse, rfc3339_round_trip, rfc3339_string, CalendarDate,
    EpochMillisStamp, Month, Rfc3339Stamp, TimeOfDay, UtcInstant, Weekday};
use chart_js_wrapper::{wire_string, ScaleType, WithTypeAndSerializer};

#[test]
fn rfc3339_serializes_the_epoch() {
    let t = UtcInstant::new(0);
    assert_eq!(rfc3339_string(&t).unwrap(), "1970-01-01T00:00:00Z");
    let stamp = Rfc3339Stamp(t);
    assert_eq!(wire_string(&stamp).unwrap(), "\"1970-01-01T00:00:00Z\"");
    assert_eq!(Rfc3339Stamp::scale_type(), ScaleType::Time);
}

#[test]
fn rfc3339_round_trip_recovers_the_instant() {
    let t = UtcInstant::new(1_546_300_800_000_000_000);
    let s = rfc3339_string(&t).unwrap();
    assert_eq!(s, "2019-01-01T00:00:00Z");
    assert_eq!(rfc3339_parse(&s).unwrap(), t);
    assert_eq!(rfc3339_round_trip(&t).unwrap(), t);
    let with_nanos = UtcInstant::new(1_546_300_800_123_456_789);
    assert_eq!(rfc3339_round_trip(&with_nanos).unwrap(), with_nanos);
}

#[test]
fn rfc3339_rejects_unrepresentable_instants() {
    // Far beyond year 9999.
    let t = UtcInstant::new(900_000_000_000_000_000_000);
    assert!(rfc3339_string(&t).is_none());
    assert!(rfc3339_round_trip(&t).is_none());
}

#[test]
fn chrono_backend_round_trip_recovers_the_instant() {
    let t = ChronoStamp { unix_seconds: 1_546_300_800, subsec_nanos: 0 };
    let s = chrono_rfc3339_string(&t).unwrap();
    assert_eq!(s, "2019-01-01T00:00:00+00:00");
    assert_eq!(chrono_rfc3339_parse(&s).unwrap(), t);
    assert_eq!(chrono_rfc3339_round_trip(&t).unwrap(), t);
    let with_nanos = ChronoStamp { unix_seconds: 1_546_300_800, subsec_nanos: 123_456_789 };
    assert_eq!(chrono_rfc3339_round_trip(&with_nanos).unwrap(), with_nanos);
    assert_eq!(ChronoStamp::scale_type(), ScaleType::Time);
}

#[test]
fn epoch_millis_floor_toward_minus_infinity() {
    let stamp = EpochMillisStamp(UtcInstant::new(1_500_000_000));
    assert_eq!(wire_string(&stamp).unwrap(), "1500");
    let negative = EpochMillisStamp(UtcInstant::new(-1));
    assert_eq!(wire_string(&negative).unwrap(), "-1");
    let negative_whole = EpochMillisStamp(UtcInstant::new(-2_000_000));
    assert_eq!(wire_string(&negative_whole).unwrap(), "-2");
    assert_eq!(EpochMillisStamp::scale_type(), ScaleType::Time);
}

#[test]
fn calendar_fragments_label_category_axes() {
    assert_eq!(Weekday::scale_type(), ScaleType::Category);
    assert_eq!(wire_string(&Weekday::Monday).unwrap(), "\"Monday\"");
    assert_eq!(wire_string(&Weekday::Sunday).unwrap(), "\"Sunday\"");
    assert_eq!(Month::scale_type(), ScaleType::Category);
    assert_eq!(wire_string(&Month::January).unwrap(), "\"January\"");
    assert_eq!(wire_string(&Month::December).unwrap(), "\"December\"");
}

#[test]
fn time_of_day_is_zero_padded_clock_text() {
    assert_eq!(TimeOfDay::scale_type(), ScaleType::Category);
    let t = TimeOfDay { hour: 9, minute: 5, second: 7 };
    assert_eq!(wire_string(&t).unwrap(), "\"09:05:07\"");
    let bad = TimeOfDay { hour: 24, minute: 0, second: 0 };
    assert!(wire_string(&bad).is_err());
}

#[test]
fn calendar_date_is_rfc3339_full_date() {
    assert_eq!(CalendarDate::scale_type(), ScaleType::Time);
    let d = CalendarDate { year: 2020, month: 1, day: 2 };
    assert_eq!(wire_string(&d).unwrap(), "\"2020-01-02\"");
    let bad = CalendarDate { year: 2020, month: 13, day: 2 };
    assert!(wire_string(&bad).is_err());
}

#[test]
fn chrono_backend_bounds_at_four_digit_years() {
    // 10000-01-01T00:00:00Z: chrono would render a signed five-digit year
    // that its own RFC-3339 parser refuses, so the stamp is unrenderable
    // and no round trip is promised.
    let beyond = ChronoStamp { unix_seconds: 253_402_300_800, subsec_nanos: 0 };
    assert!(wire_string(&beyond).is_err());
    assert!(chrono_rfc3339_round_trip(&beyond).is_none());
    let before = ChronoStamp { unix_seconds: -62_167_219_201, subsec_nanos: 0 };
    assert!(wire_string(&before).is_err());
    // The last and first representable seconds round-trip.
    let last = ChronoStamp { unix_seconds: 253_402_300_799, subsec_nanos: 0 };
    assert_eq!(chrono_rfc3339_string(&last).unwrap(), "9999-12-31T23:59:59+00:00");
    assert_eq!(chrono_rfc3339_round_trip(&last).unwrap(), last);
    let first = ChronoStamp { unix_seconds: -62_167_219_200, subsec_nanos: 0 };
    assert_eq!(chrono_rfc3339_string(&first).unwrap(), "0000-01-01T00:00:00+00:00");
    assert_eq!(chrono_rfc3339_round_trip(&first).unwrap(), first);
}
