use crate::error::{outcome_view, IGCError, IGCErrorView};
use crate::text::{message, parse_u16, parse_unsigned};
use vstd::prelude::*;

verus! {

/// Whether positions come from plain or from differential GPS.
#[derive(Debug, Clone, Copy, PartialEq, Eq, Structural)]
pub enum DiffGPSQualifier {
    GPS,
    DGPS,
}

/// A D record: the kind of GPS in use and the id of the DGPS station.
#[derive(Debug, Clone, Copy, PartialEq, Eq, Structural)]
pub struct DiffGPS {
    pub qualifier: DiffGPSQualifier,
    pub dgps_station_id: u16,
}

impl View for DiffGPS {
    type V = DiffGPS;

    open spec fn view(&self) -> DiffGPS {
        *self
    }
}

impl DiffGPS {
    /// What a D line decodes to. The line has six characters: the letter,
    /// the qualifier (`1` for GPS, `2` for DGPS) and four characters of
    /// station id.
    pub open spec fn spec_parse(line: Seq<char>) -> Result<DiffGPS, IGCErrorView> {
        if line.len() != 6 {
            Err(
                IGCErrorView::DiffGPSInitError(
                    "'"@ + line
                        + " is not long enough to be parsed as a differential GPS record'"@,
                ),
            )
        } else {
            match parse_unsigned(line.subrange(1, 2), 65535) {
                None => Err(
                    IGCErrorView::DiffGPSInitError(
                        "'"@ + line + "''s qualifier can not be parsed as a valid number"@,
                    ),
                ),
                Some(qualifier) => {
                    if qualifier != 1 && qualifier != 2 {
                        Err(
                            IGCErrorView::DiffGPSInitError(
                                "'"@ + line + "''s qualifier must be either 1 or 2"@,
                            ),
                        )
                    } else {
                        match parse_unsigned(line.subrange(2, 6), 65535) {
                            None => Err(
                                IGCErrorView::DiffGPSInitError(
                                    "'"@ + line
                                        + "''s DGPS station ID can not be parsed as a valid number"@,
                                ),
                            ),
                            Some(station) => Ok(
                                DiffGPS {
                                    qualifier: if qualifier == 1 {
                                        DiffGPSQualifier::GPS
                                    } else {
                                        DiffGPSQualifier::DGPS
                                    },
                                    dgps_station_id: station as u16,
                                },
                            ),
                        }
                    }
                },
            }
        }
    }

    /// Decodes a D line.
    pub fn parse(line: &str) -> (r: Result<DiffGPS, IGCError>)
        ensures
            outcome_view(r) == DiffGPS::spec_parse(line@),
    {
        if line.unicode_len() != 6 {
            return Err(
                IGCError::DiffGPSInitError(
                    message(
                        "'",
                        line,
                        " is not long enough to be parsed as a differential GPS record'",
                    ),
                ),
            );
        }
        let qualifier = match parse_u16(line.substring_char(1, 2)) {
            Some(qualifier) => qualifier,
            None => {
                return Err(
                    IGCError::DiffGPSInitError(
                        message("'", line, "''s qualifier can not be parsed as a valid number"),
                    ),
                );
            },
        };
        let qualifier = if qualifier == 1 {
            DiffGPSQualifier::GPS
        } else if qualifier == 2 {
            DiffGPSQualifier::DGPS
        } else {
            return Err(
                IGCError::DiffGPSInitError(
                    message("'", line, "''s qualifier must be either 1 or 2"),
                ),
            );
        };
        let dgps_station_id = match parse_u16(line.substring_char(2, 6)) {
            Some(dgps_station_id) => dgps_station_id,
            None => {
                return Err(
                    IGCError::DiffGPSInitError(
                        message(
                            "'",
                            line,
                            "''s DGPS station ID can not be parsed as a valid number",
                        ),
                    ),
                );
            },
        };
        Ok(DiffGPS { qualifier, dgps_station_id })
    }
}

} // verus!
