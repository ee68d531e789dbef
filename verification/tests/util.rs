use igc_parser::error::IGCError;
use igc_parser::records::util::{Coordinate, Date, Latitude, Longitude, Time};

#[test]
fn from_seconds_since_midnight() {
    let time = Time::from_seconds_since_midnight(0).unwrap();
    assert_eq!(time, Time { h: 0, m: 0, s: 0 });

    let time = Time::from_seconds_since_midnight(3600).unwrap();
    assert_eq!(time, Time { h: 1, m: 0, s: 0 });

    let time = Time::from_seconds_since_midnight(3661).unwrap();
    assert_eq!(time, Time { h: 1, m: 1, s: 1 });

    let time = Time::from_seconds_since_midnight(86399).unwrap();
    assert_eq!(time, Time { h: 23, m: 59, s: 59 });

    assert!(Time::from_seconds_since_midnight(86400).is_err());

    let time = Time::from_seconds_since_midnight(45296).unwrap();
    assert_eq!(time, Time { h: 12, m: 34, s: 56 });
}

#[test]
fn seconds_since_midnight() {
    let time = Time { h: 0, m: 0, s: 0 };
    assert_eq!(time.seconds_since_midnight(), 0);

    let time = Time { h: 1, m: 0, s: 0 };
    assert_eq!(time.seconds_since_midnight(), 3600);

    let time = Time { h: 1, m: 1, s: 1 };
    assert_eq!(time.seconds_since_midnight(), 3661);

    let time = Time { h: 23, m: 59, s: 59 };
    assert_eq!(time.seconds_since_midnight(), 86399);
}

#[test]
fn from_hms() {
    let time = Time::from_hms(0, 0, 0).unwrap();
    assert_eq!(time, Time { h: 0, m: 0, s: 0 });

    let time = Time::from_hms(1, 0, 0).unwrap();
    assert_eq!(time, Time { h: 1, m: 0, s: 0 });

    let time = Time::from_hms(1, 1, 1).unwrap();
    assert_eq!(time, Time { h: 1, m: 1, s: 1 });

    let time = Time::from_hms(23, 59, 59).unwrap();
    assert_eq!(time, Time { h: 23, m: 59, s: 59 });

    assert!(Time::from_hms(24, 0, 0).is_err());
    assert!(Time::from_hms(0, 60, 0).is_err());
    assert!(Time::from_hms(0, 0, 60).is_err());
}

#[test]
fn add_hours() {
    let mut time = Time { h: 0, m: 0, s: 0 };
    time.add_hours(1);
    assert_eq!(time, Time { h: 1, m: 0, s: 0 });

    let mut time = Time { h: 1, m: 0, s: 0 };
    time.add_hours(1);
    assert_eq!(time, Time { h: 2, m: 0, s: 0 });

    let mut time = Time { h: 23, m: 59, s: 59 };
    time.add_hours(1);
    assert_eq!(time, Time { h: 0, m: 59, s: 59 });

    let mut time = Time { h: 23, m: 59, s: 59 };
    time.add_hours(2);
    assert_eq!(time, Time { h: 1, m: 59, s: 59 });

    let mut time = Time { h: 23, m: 59, s: 59 };
    time.add_hours(24);
    assert_eq!(time, Time { h: 23, m: 59, s: 59 });
}

#[test]
fn date() {
    let date = Date::parse("010203").unwrap();
    assert_eq!(date, Date { d: 1, m: 2, y: 3 });

    let date = Date::parse("311212").unwrap();
    assert_eq!(date, Date { d: 31, m: 12, y: 12 });

    assert!(Date::parse("000000").is_err());
    assert!(Date::parse("320000").is_err());
    assert!(Date::parse("123123").is_err());
    assert!(Date::parse("003200").is_err());
    assert!(Date::parse("0102A3").is_err());
}

#[test]
fn add_hours_wraps_without_overflow() {
    let mut time = Time { h: 23, m: 1, s: 2 };
    time.add_hours(255);
    assert_eq!(time, Time { h: ((23 + 255) % 24) as u8, m: 1, s: 2 });

    let mut time = Time { h: 255, m: 0, s: 0 };
    time.add_hours(255);
    assert_eq!(time.h, (510 % 24) as u8);
}

#[test]
fn time_is_decoded_from_six_digits() {
    assert_eq!(Time::parse("160240"), Ok(Time { h: 16, m: 2, s: 40 }));
    assert_eq!(Time::parse("000000"), Ok(Time { h: 0, m: 0, s: 0 }));
    assert_eq!(Time::parse("235959"), Ok(Time { h: 23, m: 59, s: 59 }));
}

#[test]
fn time_round_trips_through_seconds() {
    for text in ["000000", "000001", "010000", "123456", "235959", "160240"] {
        let time = Time::parse(text).unwrap();
        let seconds = time.seconds_since_midnight();
        assert!(seconds < 86400);
        assert_eq!(Time::from_seconds_since_midnight(seconds), Ok(time));
    }
    for seconds in [0u32, 59, 60, 3599, 3600, 45296, 86399] {
        let time = Time::from_seconds_since_midnight(seconds).unwrap();
        assert_eq!(time.seconds_since_midnight(), seconds);
    }
}

#[test]
fn time_of_another_length_is_refused() {
    for text in ["", "1", "16024", "1602400", "16:02:40", "160240 "] {
        assert_eq!(
            Time::parse(text),
            Err(IGCError::TimeInitError(format!("\"{}\" is not 6 characters long", text)))
        );
    }
}

#[test]
fn time_out_of_range_is_refused() {
    assert_eq!(
        Time::parse("240000"),
        Err(IGCError::TimeInitError(
            "24 hours are too many, there must be less than 24 hours".to_string()
        ))
    );
    assert_eq!(
        Time::parse("006000"),
        Err(IGCError::TimeInitError(
            "60 minutes are too many, there must be less 60 minutes".to_string()
        ))
    );
    assert_eq!(
        Time::parse("000099"),
        Err(IGCError::TimeInitError(
            "99 seconds are too many, there must be less 60 seconds".to_string()
        ))
    );
    assert_eq!(
        Time::from_seconds_since_midnight(86400),
        Err(IGCError::TimeInitError("86400 seconds is too large to fit in 24 hours".to_string()))
    );
    assert_eq!(
        Time::from_seconds_since_midnight(4294967295),
        Err(IGCError::TimeInitError(
            "4294967295 seconds is too large to fit in 24 hours".to_string()
        ))
    );
    assert_eq!(
        Time::from_hms(255, 0, 0),
        Err(IGCError::TimeInitError(
            "255 hours are too many, there must be less than 24 hours".to_string()
        ))
    );
}

#[test]
fn time_with_other_characters_is_refused() {
    for text in ["16024A", "1 0240", "16-240", "ab0240", "1602é0"] {
        assert_eq!(
            Time::parse(text),
            Err(IGCError::TimeInitError(format!("unable to parse \"{}\" as numbers", text)))
        );
    }
}

#[test]
fn a_sign_is_refused_in_unsigned_fields() {
    for text in ["+1+2+3", "+10203", "1+0203", "0102+3", "-10203", "+ 0203"] {
        assert_eq!(
            Time::parse(text),
            Err(IGCError::TimeInitError(format!("unable to parse \"{}\" as numbers", text)))
        );
        assert_eq!(
            Date::parse(text),
            Err(IGCError::DateInitError(format!("'{}' can not be parsed as a number", text)))
        );
    }
    assert_eq!(
        Latitude::parse("+407121N"),
        Err(IGCError::CoordinateInitError("unable to parse \"+407121N\"".to_string()))
    );
    assert_eq!(
        Latitude::parse("54+7121N"),
        Err(IGCError::CoordinateInitError("unable to parse \"54+7121N\"".to_string()))
    );
    assert_eq!(
        Longitude::parse("+0249342W"),
        Err(IGCError::CoordinateInitError("unable to parse '+0249342W'".to_string()))
    );
    assert_eq!(
        Longitude::parse("002+9342W"),
        Err(IGCError::CoordinateInitError("unable to parse '002+9342W'".to_string()))
    );
}

#[test]
fn date_failures_are_classified() {
    assert_eq!(
        Date::parse("01020"),
        Err(IGCError::DateInitError("'01020' is not the correct length for a date".to_string()))
    );
    assert_eq!(
        Date::parse("0102A3"),
        Err(IGCError::DateInitError("'0102A3' can not be parsed as a number".to_string()))
    );
    assert_eq!(
        Date::parse("321399"),
        Err(IGCError::DateInitError("32/13-99 is not a valid date".to_string()))
    );
    assert_eq!(
        Date::parse("000100"),
        Err(IGCError::DateInitError("0/1-0 is not a valid date".to_string()))
    );
    assert_eq!(Date::parse("311299"), Ok(Date { d: 31, m: 12, y: 99 }));
    assert_eq!(Date::parse("010100"), Ok(Date { d: 1, m: 1, y: 0 }));
    assert_eq!(Date::parse("310299"), Ok(Date { d: 31, m: 2, y: 99 }));
}

#[test]
fn latitude_is_decoded() {
    let latitude = Latitude::parse("5407121N").unwrap();
    assert_eq!(latitude, Latitude { degrees: 54, minutes_thousandths: 7121, is_north: true });
    assert_eq!(latitude.minutes_thousandths as f32 / 1000.0, 7.121);

    let latitude = Latitude::parse("3835269S").unwrap();
    assert_eq!(latitude, Latitude { degrees: 38, minutes_thousandths: 35269, is_north: false });

    assert_eq!(
        Latitude::parse("9000000N"),
        Ok(Latitude { degrees: 90, minutes_thousandths: 0, is_north: true })
    );
    assert_eq!(
        Latitude::parse("0099999S"),
        Ok(Latitude { degrees: 0, minutes_thousandths: 99999, is_north: false })
    );
}

#[test]
fn latitude_needs_north_or_south() {
    for hemisphere in ["E", "W", "n", "s", " ", "0", "X", "é"] {
        let text = format!("5407121{}", hemisphere);
        assert_eq!(
            Latitude::parse(&text),
            Err(IGCError::CoordinateInitError(format!(
                "'{}' is not a valid latitude compass direction",
                hemisphere
            )))
        );
    }
}

#[test]
fn latitude_failures_are_classified() {
    assert_eq!(
        Latitude::parse("5407121"),
        Err(IGCError::CoordinateInitError(
            "'5407121' is not the correct length for a latitude".to_string()
        ))
    );
    assert_eq!(
        Latitude::parse("5407121NN"),
        Err(IGCError::CoordinateInitError(
            "'5407121NN' is not the correct length for a latitude".to_string()
        ))
    );
    assert_eq!(
        Latitude::parse("54O7121N"),
        Err(IGCError::CoordinateInitError("unable to parse \"54O7121N\"".to_string()))
    );
    assert_eq!(
        Latitude::parse("5407.21N"),
        Err(IGCError::CoordinateInitError("unable to parse \"5407.21N\"".to_string()))
    );
    assert_eq!(
        Latitude::parse("95O7121X"),
        Err(IGCError::CoordinateInitError(
            "'95O7121X' has more than 90 degrees of latitude".to_string()
        ))
    );
    assert_eq!(
        Latitude::parse("9100000N"),
        Err(IGCError::CoordinateInitError(
            "'9100000N' has more than 90 degrees of latitude".to_string()
        ))
    );
}

#[test]
fn longitude_is_decoded() {
    let longitude = Longitude::parse("00249342W").unwrap();
    assert_eq!(longitude, Longitude { degrees: 2, minutes_thousandths: 49342, is_east: false });
    assert_eq!(longitude.minutes_thousandths as f32 / 1000.0, 49.342);

    let longitude = Longitude::parse("17609420E").unwrap();
    assert_eq!(longitude, Longitude { degrees: 176, minutes_thousandths: 9420, is_east: true });

    assert_eq!(
        Longitude::parse("18000000E"),
        Ok(Longitude { degrees: 180, minutes_thousandths: 0, is_east: true })
    );
}

#[test]
fn longitude_needs_east_or_west() {
    for hemisphere in ["N", "S", "e", "w", " ", "1", "Q"] {
        let text = format!("00249342{}", hemisphere);
        assert_eq!(
            Longitude::parse(&text),
            Err(IGCError::CoordinateInitError(format!(
                "'{}' is not a valid longitude compass direction",
                hemisphere
            )))
        );
    }
}

#[test]
fn longitude_failures_are_classified() {
    assert_eq!(
        Longitude::parse("0249342W"),
        Err(IGCError::CoordinateInitError(
            "'0249342W' is not the correct length for a longitude".to_string()
        ))
    );
    assert_eq!(
        Longitude::parse("0024934XW"),
        Err(IGCError::CoordinateInitError("unable to parse '0024934XW'".to_string()))
    );
    assert_eq!(
        Longitude::parse("25600000W"),
        Err(IGCError::CoordinateInitError("unable to parse '25600000W'".to_string()))
    );
    assert_eq!(
        Longitude::parse("1810000ZZ"),
        Err(IGCError::CoordinateInitError(
            "'1810000ZZ' has more than 180 degrees of longitude".to_string()
        ))
    );
    assert_eq!(
        Longitude::parse("18100000W"),
        Err(IGCError::CoordinateInitError(
            "'18100000W' has more than 180 degrees of longitude".to_string()
        ))
    );
}

#[test]
fn coordinate_is_latitude_then_longitude() {
    assert_eq!(
        Coordinate::parse("5407121N00249342W"),
        Ok(Coordinate {
            latitude: Latitude { degrees: 54, minutes_thousandths: 7121, is_north: true },
            longitude: Longitude { degrees: 2, minutes_thousandths: 49342, is_east: false },
        })
    );
    assert_eq!(
        Coordinate::parse("5407121N00249342"),
        Err(IGCError::CoordinateInitError(
            "'5407121N00249342' is not the correct length for a coordinate".to_string()
        ))
    );
    assert_eq!(
        Coordinate::parse("5407121X00249342W"),
        Err(IGCError::CoordinateInitError(
            "'X' is not a valid latitude compass direction".to_string()
        ))
    );
    assert_eq!(
        Coordinate::parse("5407121N00249342X"),
        Err(IGCError::CoordinateInitError(
            "'X' is not a valid longitude compass direction".to_string()
        ))
    );
    assert_eq!(
        Coordinate::parse("54O7121X0024934ZX"),
        Err(IGCError::CoordinateInitError("unable to parse \"54O7121X\"".to_string()))
    );
}
