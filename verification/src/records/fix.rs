use crate::error::{outcome_view, IGCError, IGCErrorView};
use crate::records::util::{Coordinate, Time};
use crate::text::{columns_from, first_is, message, parse_i16, parse_signed};
use vstd::prelude::*;

verus! {

/// A B record: one sample of position and altitude.
#[derive(Debug, Clone, PartialEq, Eq)]
pub struct Fix {
    pub timestamp: Time,
    pub coordinates: Coordinate,
    pub pressure_alt: i16,
    /// The GPS altitude; absent where the record marks it as not valid.
    pub gps_alt: Option<i16>,
    pub extension: String,
}

/// The mathematical value of a [`Fix`].
pub struct FixView {
    pub timestamp: Time,
    pub coordinates: Coordinate,
    pub pressure_alt: i16,
    pub gps_alt: Option<i16>,
    pub extension: Seq<char>,
}

impl View for Fix {
    type V = FixView;

    open spec fn view(&self) -> FixView {
        FixView {
            timestamp: self.timestamp,
            coordinates: self.coordinates,
            pressure_alt: self.pressure_alt,
            gps_alt: self.gps_alt,
            extension: self.extension@,
        }
    }
}

impl Fix {
    /// Whether the validity flag of a B line, in column 24, is `A` or `V`.
    pub open spec fn has_validity_flag(line: Seq<char>) -> bool {
        line[24] == 'A' || line[24] == 'V'
    }

    /// The GPS altitude of a B line of at least 35 characters whose
    /// validity flag is `A` or `V`. With `A` it is the signed number in
    /// columns 30 to 34; with `V` there is none, whatever those columns
    /// hold.
    pub open spec fn spec_gps_alt(line: Seq<char>) -> Result<Option<i16>, IGCErrorView> {
        if line[24] == 'A' {
            match parse_signed(line.subrange(30, 35), -32768, 32767) {
                Some(altitude) => Ok(Some(altitude as i16)),
                None => Err(
                    IGCErrorView::FixInitError("\""@ + line + "\" could not parse GPS altitude"@),
                ),
            }
        } else {
            Ok(None)
        }
    }

    /// What a B line decodes to: the time in columns 1 to 6, the coordinate
    /// in columns 7 to 23, the validity flag in column 24, the pressure
    /// altitude in columns 25 to 29, the GPS altitude in columns 30 to 34,
    /// then the rest of the line. The fields are decoded from left to
    /// right; the first that fails gives the failure.
    pub open spec fn spec_parse(line: Seq<char>) -> Result<FixView, IGCErrorView> {
        if line.len() < 35 {
            Err(IGCErrorView::FixInitError("\""@ + line + "\" is too short to be parsed as a fix"@))
        } else if line[0] != 'B' {
            Err(
                IGCErrorView::FixInitError(
                    "\""@ + line
                        + "\" does not start with B and can therefore not be parsed as a B record (Fix)"@,
                ),
            )
        } else {
            match Time::spec_parse(line.subrange(1, 7)) {
                Err(e) => Err(e),
                Ok(timestamp) => match Coordinate::spec_parse(line.subrange(7, 24)) {
                    Err(e) => Err(e),
                    Ok(coordinates) => if !Fix::has_validity_flag(line) {
                        Err(
                            IGCErrorView::FixInitError(
                                "\""@ + line + "\" does not have A or V in GPS validity field"@,
                            ),
                        )
                    } else {
                        match parse_signed(line.subrange(25, 30), -32768, 32767) {
                            None => Err(
                                IGCErrorView::FixInitError(
                                    "\""@ + line + "\" could not parse pressure altitude"@,
                                ),
                            ),
                            Some(pressure_alt) => match Fix::spec_gps_alt(line) {
                                Err(e) => Err(e),
                                Ok(gps_alt) => Ok(
                                    FixView {
                                        timestamp,
                                        coordinates,
                                        pressure_alt: pressure_alt as i16,
                                        gps_alt,
                                        extension: line.skip(35),
                                    },
                                ),
                            },
                        }
                    },
                },
            }
        }
    }

    /// Decodes a B line.
    pub fn parse(line: &str) -> (r: Result<Fix, IGCError>)
        ensures
            outcome_view(r) == Fix::spec_parse(line@),
            r matches Ok(fix) ==> fix.timestamp.is_valid() && fix.coordinates.is_valid(),
    {
        if line.unicode_len() < 35 {
            return Err(
                IGCError::FixInitError(message("\"", line, "\" is too short to be parsed as a fix")),
            );
        }
        if !first_is(line, 'B') {
            return Err(
                IGCError::FixInitError(
                    message(
                        "\"",
                        line,
                        "\" does not start with B and can therefore not be parsed as a B record (Fix)",
                    ),
                ),
            );
        }
        let timestamp = match Time::parse(line.substring_char(1, 7)) {
            Ok(timestamp) => timestamp,
            Err(e) => {
                return Err(e);
            },
        };
        let coordinates = match Coordinate::parse(line.substring_char(7, 24)) {
            Ok(coordinates) => coordinates,
            Err(e) => {
                return Err(e);
            },
        };
        let validity = line.get_char(24);
        if validity != 'A' && validity != 'V' {
            return Err(
                IGCError::FixInitError(
                    message("\"", line, "\" does not have A or V in GPS validity field"),
                ),
            );
        }
        let pressure_alt = match parse_i16(line.substring_char(25, 30)) {
            Some(altitude) => altitude,
            None => {
                return Err(
                    IGCError::FixInitError(
                        message("\"", line, "\" could not parse pressure altitude"),
                    ),
                );
            },
        };
        let gps_alt = if validity == 'A' {
            match parse_i16(line.substring_char(30, 35)) {
                Some(altitude) => Some(altitude),
                None => {
                    return Err(
                        IGCError::FixInitError(
                            message("\"", line, "\" could not parse GPS altitude"),
                        ),
                    );
                },
            }
        } else {
            None
        };
        Ok(Fix { timestamp, coordinates, pressure_alt, gps_alt, extension: columns_from(line, 35) })
    }
}

/// The line that has `field` in columns 30 to 34 and is `line` elsewhere.
pub open spec fn with_gps_alt_field(line: Seq<char>, field: Seq<char>) -> Seq<char> {
    line.subrange(0, 30) + field + line.skip(35)
}

/// A fix whose validity flag is `V` has no GPS altitude, and what columns 30
/// to 34 hold has no part in what the line decodes to: with any other five
/// characters there, a line that decodes gives the same fix, and a line that
/// is refused is refused still.
pub proof fn lemma_fix_void_gps_alt(line: Seq<char>, field: Seq<char>)
    requires
        line.len() >= 35,
        line[24] == 'V',
        field.len() == 5,
    ensures
        Fix::spec_parse(line) matches Ok(fix) ==> fix.gps_alt is None,
        Fix::spec_parse(line) matches Ok(fix) ==> Fix::spec_parse(with_gps_alt_field(line, field))
            == Ok::<FixView, IGCErrorView>(fix),
        Fix::spec_parse(line) is Err ==> Fix::spec_parse(with_gps_alt_field(line, field)) is Err,
{
    let other = with_gps_alt_field(line, field);
    assert(other.len() == line.len());
    assert(other[0] == line[0]);
    assert(other[24] == line[24]);
    assert(other.subrange(1, 7) =~= line.subrange(1, 7));
    assert(other.subrange(7, 24) =~= line.subrange(7, 24));
    assert(other.subrange(25, 30) =~= line.subrange(25, 30));
    assert(other.skip(35) =~= line.skip(35));
}

} // verus!
