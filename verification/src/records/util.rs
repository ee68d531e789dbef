use crate::error::{outcome_view, IGCError, IGCErrorView};
use crate::text::{
    all_digits, decimal_text, digits_value, is_digit, message, parse_u8, parse_unsigned,
    parse_unsigned_field, push_decimal,
};
use vstd::prelude::*;

verus! {

/// A message that starts with a number.
fn number_message(n: u32, after: &str) -> (m: String)
    ensures
        m@ == decimal_text(n as nat) + after@,
{
    let mut m = String::new();
    push_decimal(&mut m, n);
    m.append(after);
    m
}

/// A time of day.
#[derive(Debug, Clone, Copy, PartialEq, Eq, Structural)]
pub struct Time {
    pub h: u8,
    pub m: u8,
    pub s: u8,
}

impl View for Time {
    type V = Time;

    open spec fn view(&self) -> Time {
        *self
    }
}

impl Time {
    /// Whether the hour is below 24 and the minute and the second are below 60.
    pub open spec fn is_valid(&self) -> bool {
        self.h < 24 && self.m < 60 && self.s < 60
    }

    /// The time with the given hour, minute and second, or the failure that
    /// names the first of them that is too large.
    pub open spec fn spec_from_hms(h: u8, m: u8, s: u8) -> Result<Time, IGCErrorView> {
        if h > 23 {
            Err(
                IGCErrorView::TimeInitError(
                    decimal_text(h as nat)
                        + " hours are too many, there must be less than 24 hours"@,
                ),
            )
        } else if m > 59 {
            Err(
                IGCErrorView::TimeInitError(
                    decimal_text(m as nat)
                        + " minutes are too many, there must be less 60 minutes"@,
                ),
            )
        } else if s > 59 {
            Err(
                IGCErrorView::TimeInitError(
                    decimal_text(s as nat)
                        + " seconds are too many, there must be less 60 seconds"@,
                ),
            )
        } else {
            Ok(Time { h, m, s })
        }
    }

    /// The number of seconds from midnight to this time.
    pub open spec fn spec_seconds_since_midnight(&self) -> nat {
        (3600 * self.h + 60 * self.m + self.s) as nat
    }

    /// The time that lies `s` seconds after midnight, for `s` within one day.
    pub open spec fn spec_from_seconds_since_midnight(s: u32) -> Result<Time, IGCErrorView> {
        if s >= 86400 {
            Err(
                IGCErrorView::TimeInitError(
                    decimal_text(s as nat) + " seconds is too large to fit in 24 hours"@,
                ),
            )
        } else {
            Ok(Time { h: (s / 3600) as u8, m: ((s % 3600) / 60) as u8, s: (s % 60) as u8 })
        }
    }

    /// What a six-character field `HHMMSS` decodes to.
    pub open spec fn spec_parse(line: Seq<char>) -> Result<Time, IGCErrorView> {
        if line.len() != 6 {
            Err(IGCErrorView::TimeInitError("\""@ + line + "\" is not 6 characters long"@))
        } else {
            match (
                parse_unsigned(line.subrange(0, 2), 255),
                parse_unsigned(line.subrange(2, 4), 255),
                parse_unsigned(line.subrange(4, 6), 255),
            ) {
                (Some(h), Some(m), Some(s)) => Time::spec_from_hms(h as u8, m as u8, s as u8),
                _ => Err(
                    IGCErrorView::TimeInitError("unable to parse \""@ + line + "\" as numbers"@),
                ),
            }
        }
    }

    /// Decodes a six-character field `HHMMSS`.
    pub fn parse(line: &str) -> (r: Result<Time, IGCError>)
        ensures
            outcome_view(r) == Time::spec_parse(line@),
            r matches Ok(t) ==> t.is_valid(),
    {
        if line.unicode_len() != 6 {
            return Err(IGCError::TimeInitError(message("\"", line, "\" is not 6 characters long")));
        }
        match (
            parse_u8(line.substring_char(0, 2)),
            parse_u8(line.substring_char(2, 4)),
            parse_u8(line.substring_char(4, 6)),
        ) {
            (Some(h), Some(m), Some(s)) => Time::from_hms(h, m, s),
            _ => Err(IGCError::TimeInitError(message("unable to parse \"", line, "\" as numbers"))),
        }
    }

    /// Builds a time from its parts, refusing an hour above 23 and a minute
    /// or second above 59.
    pub fn from_hms(h: u8, m: u8, s: u8) -> (r: Result<Time, IGCError>)
        ensures
            outcome_view(r) == Time::spec_from_hms(h, m, s),
            r is Ok <==> h <= 23 && m <= 59 && s <= 59,
            r matches Ok(t) ==> t == (Time { h, m, s }) && t.is_valid(),
    {
        if h > 23 {
            return Err(
                IGCError::TimeInitError(
                    number_message(
                        h as u32,
                        " hours are too many, there must be less than 24 hours",
                    ),
                ),
            );
        }
        if m > 59 {
            return Err(
                IGCError::TimeInitError(
                    number_message(m as u32, " minutes are too many, there must be less 60 minutes"),
                ),
            );
        }
        if s > 59 {
            return Err(
                IGCError::TimeInitError(
                    number_message(s as u32, " seconds are too many, there must be less 60 seconds"),
                ),
            );
        }
        Ok(Time { h, m, s })
    }

    /// The time that lies `s` seconds after midnight; a failure from 86400 on.
    pub fn from_seconds_since_midnight(s: u32) -> (r: Result<Time, IGCError>)
        ensures
            outcome_view(r) == Time::spec_from_seconds_since_midnight(s),
            r is Ok <==> s < 86400,
            r matches Ok(t) ==> t.is_valid() && t.spec_seconds_since_midnight() == s,
    {
        if s >= 86400 {
            return Err(
                IGCError::TimeInitError(
                    number_message(s, " seconds is too large to fit in 24 hours"),
                ),
            );
        }
        Time::from_hms((s / 3600) as u8, ((s % 3600) / 60) as u8, (s % 60) as u8)
    }

    /// The number of seconds from midnight to this time.
    pub fn seconds_since_midnight(&self) -> (seconds: u32)
        ensures
            seconds == self.spec_seconds_since_midnight(),
            self.is_valid() ==> seconds < 86400,
    {
        3600 * (self.h as u32) + 60 * (self.m as u32) + (self.s as u32)
    }

    /// Moves the time `h` hours on. The hour wraps round at 24; the minute
    /// and the second stay.
    pub fn add_hours(&mut self, h: u8)
        ensures
            final(self).h == (old(self).h + h) % 24,
            final(self).m == old(self).m,
            final(self).s == old(self).s,
    {
        let sum: u16 = self.h as u16 + h as u16;
        self.h = (sum % 24) as u8;
    }
}

/// A valid time is recovered from its count of seconds since midnight.
pub proof fn lemma_time_seconds_round_trip(t: Time)
    requires
        t.is_valid(),
    ensures
        t.spec_seconds_since_midnight() < 86400,
        Time::spec_from_seconds_since_midnight(t.spec_seconds_since_midnight() as u32) == Ok::<
            Time,
            IGCErrorView,
        >(t),
{
}

/// A count of seconds within one day is recovered from the time it gives.
pub proof fn lemma_seconds_time_round_trip(s: u32)
    requires
        s < 86400,
    ensures
        Time::spec_from_seconds_since_midnight(s) matches Ok(t) && t.is_valid()
            && t.spec_seconds_since_midnight() == s,
{
}

/// Six decimal digits that spell an hour below 24, a minute below 60 and a
/// second below 60 decode to that time, and the time is recovered from its
/// count of seconds since midnight.
pub proof fn lemma_time_parse_round_trip(line: Seq<char>)
    requires
        line.len() == 6,
        all_digits(line),
        digits_value(line.subrange(0, 2)) < 24,
        digits_value(line.subrange(2, 4)) < 60,
        digits_value(line.subrange(4, 6)) < 60,
    ensures
        Time::spec_parse(line) matches Ok(t) && t.h == digits_value(line.subrange(0, 2)) && t.m
            == digits_value(line.subrange(2, 4)) && t.s == digits_value(line.subrange(4, 6))
            && Time::spec_from_seconds_since_midnight(t.spec_seconds_since_midnight() as u32)
            == Ok::<Time, IGCErrorView>(t),
{
    assert(all_digits(line.subrange(0, 2))) by {
        assert forall|i: int| 0 <= i < 2 implies is_digit(
            #[trigger] line.subrange(0, 2)[i],
        ) by {
            assert(line.subrange(0, 2)[i] == line[i]);
        }
    }
    assert(all_digits(line.subrange(2, 4))) by {
        assert forall|i: int| 0 <= i < 2 implies is_digit(
            #[trigger] line.subrange(2, 4)[i],
        ) by {
            assert(line.subrange(2, 4)[i] == line[i + 2]);
        }
    }
    assert(all_digits(line.subrange(4, 6))) by {
        assert forall|i: int| 0 <= i < 2 implies is_digit(
            #[trigger] line.subrange(4, 6)[i],
        ) by {
            assert(line.subrange(4, 6)[i] == line[i + 4]);
        }
    }
}

/// A text that is not six characters long is no time.
pub proof fn lemma_time_parse_needs_six_characters(line: Seq<char>)
    requires
        line.len() != 6,
    ensures
        Time::spec_parse(line) is Err,
{
}

/// A calendar date with a two-digit year.
#[derive(Debug, Clone, Copy, PartialEq, Eq, Structural)]
pub struct Date {
    pub d: u8,
    pub m: u8,
    pub y: u8,
}

impl View for Date {
    type V = Date;

    open spec fn view(&self) -> Date {
        *self
    }
}

impl Date {
    /// Whether the day lies in 1..=31, the month in 1..=12 and the year in
    /// 0..=99. Days are not held against the length of the month.
    pub open spec fn is_valid(&self) -> bool {
        1 <= self.d <= 31 && 1 <= self.m <= 12 && self.y <= 99
    }

    /// The words that name a date whose day or month is out of range.
    pub open spec fn invalid_message(d: u8, m: u8, y: u8) -> Seq<char> {
        decimal_text(d as nat) + "/"@ + decimal_text(m as nat) + "-"@ + decimal_text(y as nat)
            + " is not a valid date"@
    }

    /// What a six-character field `DDMMYY` decodes to.
    pub open spec fn spec_parse(line: Seq<char>) -> Result<Date, IGCErrorView> {
        if line.len() != 6 {
            Err(
                IGCErrorView::DateInitError(
                    "'"@ + line + "' is not the correct length for a date"@,
                ),
            )
        } else {
            match (
                parse_unsigned(line.subrange(0, 2), 255),
                parse_unsigned(line.subrange(2, 4), 255),
                parse_unsigned(line.subrange(4, 6), 255),
            ) {
                (Some(d), Some(m), Some(y)) => {
                    if 1 <= d <= 31 && 1 <= m <= 12 {
                        Ok(Date { d: d as u8, m: m as u8, y: y as u8 })
                    } else {
                        Err(
                            IGCErrorView::DateInitError(
                                Date::invalid_message(d as u8, m as u8, y as u8),
                            ),
                        )
                    }
                },
                _ => Err(
                    IGCErrorView::DateInitError("'"@ + line + "' can not be parsed as a number"@),
                ),
            }
        }
    }

    /// Decodes a six-character field `DDMMYY`.
    pub fn parse(line: &str) -> (r: Result<Date, IGCError>)
        ensures
            outcome_view(r) == Date::spec_parse(line@),
            r matches Ok(date) ==> date.is_valid(),
    {
        if line.unicode_len() != 6 {
            return Err(
                IGCError::DateInitError(
                    message("'", line, "' is not the correct length for a date"),
                ),
            );
        }
        match (
            parse_u8(line.substring_char(0, 2)),
            parse_u8(line.substring_char(2, 4)),
            parse_u8(line.substring_char(4, 6)),
        ) {
            (Some(d), Some(m), Some(y)) => {
                if 1 <= d && d <= 31 && 1 <= m && m <= 12 {
                    proof {
                        lemma_short_field_bound(line@.subrange(4, 6), 255);
                    }
                    Ok(Date { d, m, y })
                } else {
                    let mut text = String::new();
                    push_decimal(&mut text, d as u32);
                    text.append("/");
                    push_decimal(&mut text, m as u32);
                    text.append("-");
                    push_decimal(&mut text, y as u32);
                    text.append(" is not a valid date");
                    Err(IGCError::DateInitError(text))
                }
            },
            _ => Err(
                IGCError::DateInitError(message("'", line, "' can not be parsed as a number")),
            ),
        }
    }
}

/// A run of `n` decimal digits is worth less than ten to the power `n`;
/// stated here for runs of up to five digits.
pub proof fn lemma_digits_value_bound(digits: Seq<char>)
    requires
        all_digits(digits),
        digits.len() <= 5,
    ensures
        digits.len() == 0 ==> digits_value(digits) == 0,
        digits.len() == 1 ==> digits_value(digits) <= 9,
        digits.len() == 2 ==> digits_value(digits) <= 99,
        digits.len() == 3 ==> digits_value(digits) <= 999,
        digits.len() == 4 ==> digits_value(digits) <= 9999,
        digits.len() == 5 ==> digits_value(digits) <= 99999,
    decreases digits.len(),
{
    if digits.len() > 0 {
        assert(is_digit(digits.last()));
        assert(all_digits(digits.drop_last())) by {
            assert forall|i: int| 0 <= i < digits.drop_last().len() implies is_digit(
                #[trigger] digits.drop_last()[i],
            ) by {
                assert(digits.drop_last()[i] == digits[i]);
            }
        }
        lemma_digits_value_bound(digits.drop_last());
    }
}

/// A decimal field of two characters is worth at most 99.
pub proof fn lemma_short_field_bound(field: Seq<char>, max: nat)
    requires
        field.len() == 2,
    ensures
        parse_unsigned(field, max) matches Some(v) ==> v <= 99,
{
    if parse_unsigned(field, max) is Some {
        lemma_digits_value_bound(field);
    }
}

/// A geographic latitude: whole degrees, thousandths of a minute of arc, and
/// the hemisphere.
#[derive(Debug, Clone, Copy, PartialEq, Eq, Structural)]
pub struct Latitude {
    pub degrees: u8,
    /// The minutes of arc, in thousandths: 7121 stands for 7.121 minutes.
    pub minutes_thousandths: u32,
    pub is_north: bool,
}

impl View for Latitude {
    type V = Latitude;

    open spec fn view(&self) -> Latitude {
        *self
    }
}

impl Latitude {
    /// Whether the degrees are at most 90 and the minutes have five digits.
    pub open spec fn is_valid(&self) -> bool {
        self.degrees <= 90 && self.minutes_thousandths <= 99999
    }

    /// What an eight-character field `DDMMmmmH` decodes to: two digits of
    /// degrees, at most 90, five digits of minutes in thousandths, and `N`
    /// or `S`. The first of them, from the left, that does not hold gives
    /// the failure.
    pub open spec fn spec_parse(line: Seq<char>) -> Result<Latitude, IGCErrorView> {
        if line.len() != 8 {
            Err(
                IGCErrorView::CoordinateInitError(
                    "'"@ + line + "' is not the correct length for a latitude"@,
                ),
            )
        } else {
            match parse_unsigned(line.subrange(0, 2), 255) {
                None => Err(IGCErrorView::CoordinateInitError("unable to parse \""@ + line + "\""@)),
                Some(degrees) => {
                    if degrees > 90 {
                        Err(
                            IGCErrorView::CoordinateInitError(
                                "'"@ + line + "' has more than 90 degrees of latitude"@,
                            ),
                        )
                    } else {
                        match parse_unsigned(line.subrange(2, 7), 99999) {
                            None => Err(
                                IGCErrorView::CoordinateInitError(
                                    "unable to parse \""@ + line + "\""@,
                                ),
                            ),
                            Some(minutes) => {
                                if line[7] == 'N' || line[7] == 'S' {
                                    Ok(
                                        Latitude {
                                            degrees: degrees as u8,
                                            minutes_thousandths: minutes as u32,
                                            is_north: line[7] == 'N',
                                        },
                                    )
                                } else {
                                    Err(
                                        IGCErrorView::CoordinateInitError(
                                            "'"@ + line.subrange(7, 8)
                                                + "' is not a valid latitude compass direction"@,
                                        ),
                                    )
                                }
                            },
                        }
                    }
                },
            }
        }
    }

    /// Decodes an eight-character latitude field.
    pub fn parse(line: &str) -> (r: Result<Latitude, IGCError>)
        ensures
            outcome_view(r) == Latitude::spec_parse(line@),
            r matches Ok(latitude) ==> latitude.is_valid(),
    {
        if line.unicode_len() != 8 {
            return Err(
                IGCError::CoordinateInitError(
                    message("'", line, "' is not the correct length for a latitude"),
                ),
            );
        }
        let degrees = match parse_u8(line.substring_char(0, 2)) {
            Some(degrees) => degrees,
            None => {
                return Err(
                    IGCError::CoordinateInitError(message("unable to parse \"", line, "\"")),
                );
            },
        };
        if degrees > 90 {
            return Err(
                IGCError::CoordinateInitError(
                    message("'", line, "' has more than 90 degrees of latitude"),
                ),
            );
        }
        let minutes = match parse_unsigned_field(line.substring_char(2, 7), 99999) {
            Some(minutes) => minutes,
            None => {
                return Err(
                    IGCError::CoordinateInitError(message("unable to parse \"", line, "\"")),
                );
            },
        };
        let hemisphere = line.get_char(7);
        let is_north = if hemisphere == 'N' {
            true
        } else if hemisphere == 'S' {
            false
        } else {
            return Err(
                IGCError::CoordinateInitError(
                    message(
                        "'",
                        line.substring_char(7, 8),
                        "' is not a valid latitude compass direction",
                    ),
                ),
            );
        };
        Ok(Latitude { degrees, minutes_thousandths: minutes, is_north })
    }
}

/// A geographic longitude: whole degrees, thousandths of a minute of arc,
/// and the hemisphere.
#[derive(Debug, Clone, Copy, PartialEq, Eq, Structural)]
pub struct Longitude {
    pub degrees: u8,
    /// The minutes of arc, in thousandths: 49342 stands for 49.342 minutes.
    pub minutes_thousandths: u32,
    pub is_east: bool,
}

impl View for Longitude {
    type V = Longitude;

    open spec fn view(&self) -> Longitude {
        *self
    }
}

impl Longitude {
    /// Whether the degrees are at most 180 and the minutes have five digits.
    pub open spec fn is_valid(&self) -> bool {
        self.degrees <= 180 && self.minutes_thousandths <= 99999
    }

    /// What a nine-character field `DDDMMmmmH` decodes to: three digits of
    /// degrees, at most 180, five digits of minutes in thousandths, and
    /// `E` or `W`. The first of them, from the left, that does not hold
    /// gives the failure.
    pub open spec fn spec_parse(line: Seq<char>) -> Result<Longitude, IGCErrorView> {
        if line.len() != 9 {
            Err(
                IGCErrorView::CoordinateInitError(
                    "'"@ + line + "' is not the correct length for a longitude"@,
                ),
            )
        } else {
            match parse_unsigned(line.subrange(0, 3), 255) {
                None => Err(IGCErrorView::CoordinateInitError("unable to parse '"@ + line + "'"@)),
                Some(degrees) => {
                    if degrees > 180 {
                        Err(
                            IGCErrorView::CoordinateInitError(
                                "'"@ + line + "' has more than 180 degrees of longitude"@,
                            ),
                        )
                    } else {
                        match parse_unsigned(line.subrange(3, 8), 99999) {
                            None => Err(
                                IGCErrorView::CoordinateInitError(
                                    "unable to parse '"@ + line + "'"@,
                                ),
                            ),
                            Some(minutes) => {
                                if line[8] == 'E' || line[8] == 'W' {
                                    Ok(
                                        Longitude {
                                            degrees: degrees as u8,
                                            minutes_thousandths: minutes as u32,
                                            is_east: line[8] == 'E',
                                        },
                                    )
                                } else {
                                    Err(
                                        IGCErrorView::CoordinateInitError(
                                            "'"@ + line.subrange(8, 9)
                                                + "' is not a valid longitude compass direction"@,
                                        ),
                                    )
                                }
                            },
                        }
                    }
                },
            }
        }
    }

    /// Decodes a nine-character longitude field.
    pub fn parse(line: &str) -> (r: Result<Longitude, IGCError>)
        ensures
            outcome_view(r) == Longitude::spec_parse(line@),
            r matches Ok(longitude) ==> longitude.is_valid(),
    {
        if line.unicode_len() != 9 {
            return Err(
                IGCError::CoordinateInitError(
                    message("'", line, "' is not the correct length for a longitude"),
                ),
            );
        }
        let degrees = match parse_u8(line.substring_char(0, 3)) {
            Some(degrees) => degrees,
            None => {
                return Err(
                    IGCError::CoordinateInitError(message("unable to parse '", line, "'")),
                );
            },
        };
        if degrees > 180 {
            return Err(
                IGCError::CoordinateInitError(
                    message("'", line, "' has more than 180 degrees of longitude"),
                ),
            );
        }
        let minutes = match parse_unsigned_field(line.substring_char(3, 8), 99999) {
            Some(minutes) => minutes,
            None => {
                return Err(
                    IGCError::CoordinateInitError(message("unable to parse '", line, "'")),
                );
            },
        };
        let hemisphere = line.get_char(8);
        let is_east = if hemisphere == 'E' {
            true
        } else if hemisphere == 'W' {
            false
        } else {
            return Err(
                IGCError::CoordinateInitError(
                    message(
                        "'",
                        line.substring_char(8, 9),
                        "' is not a valid longitude compass direction",
                    ),
                ),
            );
        };
        Ok(Longitude { degrees, minutes_thousandths: minutes, is_east })
    }
}

/// A position: a latitude and a longitude.
#[derive(Debug, Clone, Copy, PartialEq, Eq, Structural)]
pub struct Coordinate {
    pub latitude: Latitude,
    pub longitude: Longitude,
}

impl View for Coordinate {
    type V = Coordinate;

    open spec fn view(&self) -> Coordinate {
        *self
    }
}

impl Coordinate {
    /// Whether both parts are valid.
    pub open spec fn is_valid(&self) -> bool {
        self.latitude.is_valid() && self.longitude.is_valid()
    }

    /// What a seventeen-character field decodes to: eight characters of
    /// latitude, then nine of longitude.
    pub open spec fn spec_parse(line: Seq<char>) -> Result<Coordinate, IGCErrorView> {
        if line.len() != 17 {
            Err(
                IGCErrorView::CoordinateInitError(
                    "'"@ + line + "' is not the correct length for a coordinate"@,
                ),
            )
        } else {
            match Latitude::spec_parse(line.subrange(0, 8)) {
                Err(e) => Err(e),
                Ok(latitude) => match Longitude::spec_parse(line.subrange(8, 17)) {
                    Err(e) => Err(e),
                    Ok(longitude) => Ok(Coordinate { latitude, longitude }),
                },
            }
        }
    }

    /// Decodes a seventeen-character coordinate field.
    pub fn parse(line: &str) -> (r: Result<Coordinate, IGCError>)
        ensures
            outcome_view(r) == Coordinate::spec_parse(line@),
            r matches Ok(coordinate) ==> coordinate.is_valid(),
    {
        if line.unicode_len() != 17 {
            return Err(
                IGCError::CoordinateInitError(
                    message("'", line, "' is not the correct length for a coordinate"),
                ),
            );
        }
        let latitude = match Latitude::parse(line.substring_char(0, 8)) {
            Ok(latitude) => latitude,
            Err(e) => {
                return Err(e);
            },
        };
        let longitude = match Longitude::parse(line.substring_char(8, 17)) {
            Ok(longitude) => longitude,
            Err(e) => {
                return Err(e);
            },
        };
        Ok(Coordinate { latitude, longitude })
    }
}

/// A latitude whose hemisphere character is missing or is neither `N` nor
/// `S` is refused.
pub proof fn lemma_latitude_needs_north_or_south(line: Seq<char>)
    requires
        line.len() < 8 || (line[7] != 'N' && line[7] != 'S'),
    ensures
        Latitude::spec_parse(line) is Err,
{
}

/// A longitude whose hemisphere character is missing or is neither `E` nor
/// `W` is refused.
pub proof fn lemma_longitude_needs_east_or_west(line: Seq<char>)
    requires
        line.len() < 9 || (line[8] != 'E' && line[8] != 'W'),
    ensures
        Longitude::spec_parse(line) is Err,
{
}

/// A coordinate is refused when the hemisphere character of its latitude, in
/// column 7, is neither `N` nor `S`, and when that of its longitude, in
/// column 16, is neither `E` nor `W`.
pub proof fn lemma_coordinate_needs_hemispheres(line: Seq<char>)
    requires
        line.len() == 17,
        (line[7] != 'N' && line[7] != 'S') || (line[16] != 'E' && line[16] != 'W'),
    ensures
        Coordinate::spec_parse(line) is Err,
{
    if line[7] != 'N' && line[7] != 'S' {
        assert(line.subrange(0, 8)[7] == line[7]);
        lemma_latitude_needs_north_or_south(line.subrange(0, 8));
    } else {
        assert(line.subrange(8, 17)[8] == line[16]);
        lemma_longitude_needs_east_or_west(line.subrange(8, 17));
    }
}

} // verus!
