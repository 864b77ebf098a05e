use jiff_chrono_conversions::chrono04::{DateTime, FixedOffset, NaiveDate, NaiveDateTime, NaiveTime, Tz, Utc};
use jiff_chrono_conversions::error::ErrorSource;
use jiff_chrono_conversions::jiff02::{Date, Offset, Time, Timestamp, Zone, Zoned};
use jiff_chrono_conversions::{Error, ToChrono, ToJiff, TryToChrono, TryToJiff};

/* Time zone with UTC */

#[test]
fn timezone_utc_roundtrip_chrono_to_jiff_to_chrono() {
    let jiff_tz: Zone = Utc.to_jiff();
    let result: Result<Utc, Error> = jiff_tz.try_to_chrono();
    assert!(result.is_ok());
}

#[test]
fn timezone_utc_roundtrip_jiff_to_chrono_to_jiff() {
    let jiff_tz = Zone::utc();
    let _: Utc = jiff_tz.try_to_chrono().expect("UTC is UTC");
    let roundtripped: Zone = Utc.to_jiff();
    assert_eq!(roundtripped.to_fixed_offset().unwrap(), Offset::utc());
}

/* Date */

#[test]
fn date_roundtrip_on_a_leap_day() {
    let chrono_date = NaiveDate::from_ymd_opt(2024, 2, 29).unwrap();
    let jiff_date: Date = chrono_date.try_to_jiff().unwrap();
    assert_eq!(jiff_date, Date::new(2024, 2, 29).unwrap());
    assert_eq!(jiff_date.to_chrono(), chrono_date);
}

#[test]
fn date_at_the_edges_of_jiff_range_converts() {
    for (y, m, d) in [(-9999, 1, 1), (9999, 12, 31)] {
        let chrono_date = NaiveDate::from_ymd_opt(y, m, d).unwrap();
        let jiff_date: Date = chrono_date.try_to_jiff().unwrap();
        assert_eq!((jiff_date.year(), jiff_date.month(), jiff_date.day()), (y as i16, m as i8, d as i8));
    }
}

#[test]
fn date_with_year_beyond_i16_fails_with_message() {
    let chrono_date = NaiveDate::from_ymd_opt(-262143, 1, 1).unwrap();
    let err = chrono_date.try_to_jiff().unwrap_err();
    assert_eq!(err.message(), "chrono year -262143 is out of range for jiff's i16 year");
    assert!(err.source().is_none());
    let chrono_date = NaiveDate::from_ymd_opt(40000, 6, 1).unwrap();
    let err = chrono_date.try_to_jiff().unwrap_err();
    assert_eq!(err.message(), "chrono year 40000 is out of range for jiff's i16 year");
}

#[test]
fn date_with_year_beyond_jiff_range_fails_with_jiff_error() {
    let chrono_date = NaiveDate::from_ymd_opt(10000, 1, 1).unwrap();
    let err = chrono_date.try_to_jiff().unwrap_err();
    assert!(matches!(err.source(), Some(ErrorSource::Jiff)));
    assert!(!err.message().is_empty());
}

#[test]
fn constructors_reject_days_that_do_not_exist() {
    assert!(NaiveDate::from_ymd_opt(2023, 2, 29).is_none());
    assert!(NaiveDate::from_ymd_opt(-262144, 12, 31).is_none());
    assert!(Date::new(2023, 2, 29).is_err());
    assert!(Date::new(10000, 1, 1).is_err());
}

/* Time */

#[test]
fn time_roundtrip_keeps_components() {
    let chrono_time = NaiveTime::from_hms_nano_opt(13, 30, 5, 123_456_789).unwrap();
    let jiff_time: Time = chrono_time.to_jiff();
    assert_eq!(
        (jiff_time.hour(), jiff_time.minute(), jiff_time.second(), jiff_time.subsec_nanosecond()),
        (13, 30, 5, 123_456_789)
    );
    assert_eq!(jiff_time.to_chrono(), chrono_time);
}

#[test]
fn time_leap_second_normalizes_to_last_second_of_minute() {
    let chrono_time = NaiveTime::from_hms_nano_opt(23, 59, 59, 1_500_000_000).unwrap();
    let jiff_time: Time = chrono_time.to_jiff();
    assert_eq!(jiff_time, Time::new(23, 59, 59, 999_999_999).unwrap());
}

#[test]
fn leap_second_only_in_last_second_of_minute() {
    assert!(NaiveTime::from_hms_nano_opt(10, 0, 58, 1_000_000_000).is_none());
    assert!(NaiveTime::from_hms_nano_opt(10, 0, 59, 2_000_000_000).is_none());
    assert!(Time::new(10, 0, 59, 1_000_000_000).is_err());
}

/* DateTime */

#[test]
fn datetime_roundtrip() {
    let date = NaiveDate::from_ymd_opt(2024, 3, 15).unwrap();
    let time = NaiveTime::from_hms_nano_opt(13, 30, 0, 0).unwrap();
    let chrono_dt = NaiveDateTime::new(date, time);
    let jiff_dt: jiff_chrono_conversions::jiff02::DateTime = chrono_dt.try_to_jiff().unwrap();
    assert_eq!(jiff_dt.date(), &Date::new(2024, 3, 15).unwrap());
    assert_eq!(jiff_dt.time(), &Time::new(13, 30, 0, 0).unwrap());
    assert_eq!(jiff_dt.to_chrono(), chrono_dt);
}

#[test]
fn datetime_outside_jiff_range_fails_like_its_date() {
    let date = NaiveDate::from_ymd_opt(-50000, 1, 1).unwrap();
    let time = NaiveTime::from_hms_nano_opt(0, 0, 0, 0).unwrap();
    let result: Result<jiff_chrono_conversions::jiff02::DateTime, Error> =
        NaiveDateTime::new(date, time).try_to_jiff();
    assert_eq!(
        result.unwrap_err().message(),
        "chrono year -50000 is out of range for jiff's i16 year"
    );
}

/* Timestamp */

#[test]
fn timestamp_before_epoch_moves_nanoseconds_to_chrono_sign() {
    let jiff_ts = Timestamp::new(-2, 999_999_999).unwrap();
    assert_eq!((jiff_ts.as_second(), jiff_ts.subsec_nanosecond()), (-1, -1));
    let chrono_dt: DateTime<Utc> = jiff_ts.to_chrono();
    assert_eq!((chrono_dt.timestamp(), chrono_dt.timestamp_subsec_nanos()), (-2, 999_999_999));
    let back: Timestamp = chrono_dt.try_to_jiff().unwrap();
    assert_eq!(back, jiff_ts);
}

#[test]
fn timestamp_roundtrip_at_jiff_limits() {
    for (s, n) in [(-377_705_023_201, 0), (253_402_207_200, 999_999_999), (0, 0)] {
        let jiff_ts = Timestamp::new(s, n).unwrap();
        let chrono_dt: DateTime<Utc> = jiff_ts.to_chrono();
        let back: Timestamp = chrono_dt.try_to_jiff().unwrap();
        assert_eq!(back, jiff_ts);
    }
}

#[test]
fn timestamp_outside_jiff_range_fails() {
    let chrono_dt = DateTime::<Utc>::from_timestamp(253_402_207_201, 0).unwrap();
    let result: Result<Timestamp, Error> = chrono_dt.try_to_jiff();
    assert!(matches!(result.unwrap_err().source(), Some(ErrorSource::Jiff)));
    let chrono_dt = DateTime::<Utc>::from_timestamp(-377_705_023_202, 999_999_999).unwrap();
    let result: Result<Timestamp, Error> = chrono_dt.try_to_jiff();
    assert!(result.is_err());
}

#[test]
fn timestamp_leap_second_normalizes_to_last_nanosecond_of_second() {
    let chrono_dt = DateTime::<Utc>::from_timestamp(1_483_228_799, 1_000_000_000).unwrap();
    let jiff_ts: Timestamp = chrono_dt.try_to_jiff().unwrap();
    assert_eq!((jiff_ts.as_second(), jiff_ts.subsec_nanosecond()), (1_483_228_799, 999_999_999));
    let chrono_dt = DateTime::<Utc>::from_timestamp(-1, 1_500_000_000).unwrap();
    let jiff_ts: Timestamp = chrono_dt.try_to_jiff().unwrap();
    assert_eq!((jiff_ts.as_second(), jiff_ts.subsec_nanosecond()), (0, -1));
}

#[test]
fn chrono_rejects_leap_second_outside_last_second_of_minute() {
    assert!(DateTime::<Utc>::from_timestamp(1_483_228_798, 1_000_000_000).is_none());
    assert!(DateTime::<Utc>::from_timestamp(8_210_266_876_800, 0).is_none());
}

/* Offset */

#[test]
fn offset_roundtrip() {
    let chrono_offset = FixedOffset::east_opt(-86_399).unwrap();
    let jiff_offset: Offset = chrono_offset.to_jiff();
    assert_eq!(jiff_offset.seconds(), -86_399);
    let back: FixedOffset = jiff_offset.try_to_chrono().unwrap();
    assert_eq!(back, chrono_offset);
}

#[test]
fn offset_outside_chrono_range_fails() {
    let jiff_offset = Offset::from_seconds(86_400).unwrap();
    let err = TryToChrono::<FixedOffset>::try_to_chrono(&jiff_offset).unwrap_err();
    assert_eq!(err.message(), "Value out of range for target type");
    assert!(matches!(err.source(), Some(ErrorSource::OutOfRange(_))));
    assert!(Offset::from_seconds(93_600).is_err());
    assert!(FixedOffset::east_opt(86_400).is_none());
}

/* DateTime with fixed offset */

#[test]
fn zoned_fixed_roundtrip() {
    let utc = DateTime::<Utc>::from_timestamp(1_710_509_400, 5).unwrap();
    let chrono_dt = utc.with_timezone(FixedOffset::east_opt(3_600).unwrap());
    let zoned: Zoned = chrono_dt.try_to_jiff().unwrap();
    assert_eq!(zoned.offset().seconds(), 3_600);
    assert_eq!(zoned.timestamp(), &Timestamp::new(1_710_509_400, 5).unwrap());
    assert_eq!(zoned.time_zone().iana_name(), None);
    let back: DateTime<FixedOffset> = zoned.try_to_chrono().unwrap();
    assert_eq!(back, chrono_dt);
}

#[test]
fn zoned_with_offset_outside_chrono_range_fails() {
    let zone = Zone::fixed(Offset::from_seconds(90_000).unwrap());
    let zoned = Timestamp::new(0, 0).unwrap().to_zoned(zone);
    let result: Result<DateTime<FixedOffset>, Error> = zoned.try_to_chrono();
    assert_eq!(result.unwrap_err().message(), "Value out of range for target type");
}

#[test]
fn zoned_equal_when_same_instant() {
    let instant = Timestamp::new(1_710_509_400, 5).unwrap();
    let in_utc = Timestamp::new(1_710_509_400, 5).unwrap().to_zoned(Zone::utc());
    let east = instant.to_zoned(Zone::fixed(Offset::from_seconds(3_600).unwrap()));
    assert_eq!(in_utc, east);
    let later = Timestamp::new(1_710_509_400, 6).unwrap().to_zoned(Zone::utc());
    assert_ne!(in_utc, later);
}

#[test]
fn zoned_zero_offset_gets_utc_zone() {
    let utc = DateTime::<Utc>::from_timestamp(0, 0).unwrap();
    let chrono_dt = utc.with_timezone(FixedOffset::east_opt(0).unwrap());
    let zoned: Zoned = chrono_dt.try_to_jiff().unwrap();
    assert_eq!(zoned.time_zone().iana_name(), Some("UTC"));
}

/* DateTime with UTC */

#[test]
fn zoned_utc_roundtrip() {
    let chrono_dt = DateTime::<Utc>::from_timestamp(-1_000, 250).unwrap();
    let zoned: Zoned = chrono_dt.try_to_jiff().unwrap();
    assert_eq!(zoned.offset(), &Offset::utc());
    assert_eq!(zoned.time_zone().iana_name(), Some("UTC"));
    let back: DateTime<Utc> = zoned.to_chrono();
    assert_eq!(back, chrono_dt);
}

#[test]
fn zoned_utc_outside_jiff_range_fails() {
    let chrono_dt = DateTime::<Utc>::from_timestamp(-400_000_000_000, 0).unwrap();
    let result: Result<Zoned, Error> = chrono_dt.try_to_jiff();
    assert!(result.is_err());
}

/* Time zones */

#[test]
fn timezone_fixedoffset_roundtrip() {
    let chrono_offset = FixedOffset::east_opt(-18_000).unwrap();
    let jiff_tz: Zone = chrono_offset.to_jiff();
    let back: FixedOffset = jiff_tz.try_to_chrono().unwrap();
    assert_eq!(back, chrono_offset);
}

#[test]
fn timezone_non_utc_offset_fails_to_convert_to_utc() {
    let jiff_tz = Zone::fixed(Offset::from_seconds(3_600).unwrap());
    let err = TryToChrono::<Utc>::try_to_chrono(&jiff_tz).unwrap_err();
    assert_eq!(err.message(), "time zone is not UTC");
}

#[test]
fn timezone_without_iana_name_fails_to_convert_to_tz() {
    let jiff_tz = Zone::fixed(Offset::from_seconds(3_600).unwrap());
    let err = TryToChrono::<Tz>::try_to_chrono(&jiff_tz).unwrap_err();
    assert_eq!(err.message(), "time zone has no IANA name");
    assert!(err.source().is_none());
}

#[test]
fn timezone_utc_converts_to_tz_utc() {
    let tz: Tz = Zone::utc().try_to_chrono().unwrap();
    assert_eq!(tz.name(), "UTC");
}

#[test]
fn unknown_time_zone_names_are_rejected() {
    assert!(Tz::parse("Not/AZone").is_err());
    assert!(matches!(Zone::get("Not/AZone").unwrap_err().source(), Some(ErrorSource::Jiff)));
}

#[test]
fn timezone_named_roundtrip() {
    let tz = Tz::parse("Europe/Amsterdam").unwrap();
    let jiff_tz: Zone = tz.try_to_jiff().unwrap();
    assert_eq!(jiff_tz.iana_name(), Some("Europe/Amsterdam"));
    assert!(jiff_tz.to_fixed_offset().is_none());
    let back: Tz = jiff_tz.try_to_chrono().unwrap();
    assert_eq!(back, tz);
    assert_ne!(back, Tz::parse("Europe/Berlin").unwrap());
    let err = TryToChrono::<FixedOffset>::try_to_chrono(&jiff_tz).unwrap_err();
    assert_eq!(err.message(), "time zone is not a fixed offset");
    let err = TryToChrono::<Utc>::try_to_chrono(&jiff_tz).unwrap_err();
    assert_eq!(err.message(), "time zone is not UTC");
}

#[test]
fn zoned_named_roundtrip() {
    let utc = DateTime::<Utc>::from_timestamp(1_720_493_204, 0).unwrap();
    let chrono_dt = utc.with_timezone(Tz::parse("America/New_York").unwrap());
    let zoned: Zoned = chrono_dt.try_to_jiff().unwrap();
    assert_eq!(zoned.offset().seconds(), -4 * 3_600);
    assert_eq!(zoned.timestamp(), &Timestamp::new(1_720_493_204, 0).unwrap());
    let back: DateTime<Tz> = zoned.try_to_chrono().unwrap();
    assert_eq!(back, chrono_dt);
    assert_eq!(back.timezone().name(), "America/New_York");
}

/* Errors */

#[test]
fn error_constructors_keep_message_and_source() {
    let e = Error::new("plain");
    assert_eq!(e.message(), "plain");
    assert!(e.source().is_none());
    let e = Error::with_source("caused", ErrorSource::OutOfRange(jiff_chrono_conversions::error::OutOfRangeError));
    assert_eq!(e.message(), "caused");
    assert!(matches!(e.source(), Some(ErrorSource::OutOfRange(_))));
}

#[test]
fn timezone_name_unknown_to_chrono_tz_fails_with_parse_error() {
    let jiff_tz = Zone::get("Factory").unwrap();
    assert_eq!(jiff_tz.iana_name(), Some("Factory"));
    let err = TryToChrono::<Tz>::try_to_chrono(&jiff_tz).unwrap_err();
    assert_eq!(err.message(), "failed to parse timezone");
    assert!(matches!(err.source(), Some(ErrorSource::TimeZoneParse(_))));
}

#[test]
fn decimal_year_in_message_for_extreme_years() {
    for (year, text) in [(-32_769, "-32769"), (32_768, "32768"), (262_142, "262142")] {
        let d = NaiveDate::from_ymd_opt(year, 1, 1).unwrap();
        let err = TryToJiff::<Date>::try_to_jiff(&d).unwrap_err();
        assert_eq!(err.message(), format!("chrono year {text} is out of range for jiff's i16 year"));
    }
    let d = NaiveDate::from_ymd_opt(-32_768, 1, 1).unwrap();
    let err = TryToJiff::<Date>::try_to_jiff(&d).unwrap_err();
    assert!(matches!(err.source(), Some(ErrorSource::Jiff)));
}

#[test]
fn timezone_lookup_ignores_ascii_case_and_keeps_the_name() {
    let jiff_tz = Zone::get("europe/AMSTERDAM").unwrap();
    assert_eq!(jiff_tz.iana_name(), Some("Europe/Amsterdam"));
    let utc = Zone::get("utc").unwrap();
    assert_eq!(utc.iana_name(), Some("UTC"));
    assert_eq!(utc.to_fixed_offset(), Some(Offset::utc()));
}
