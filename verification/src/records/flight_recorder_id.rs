use crate::error::{outcome_view, IGCError, IGCErrorView};
use crate::text::{columns, columns_from, message};
use vstd::prelude::*;

verus! {

/// An A record: who made the flight recorder, and which one it is.
#[derive(Debug, Clone, PartialEq, Eq)]
pub struct FlightRecorderID {
    pub manufacturer: String,
    pub id: String,
    pub extension: String,
}

/// The mathematical value of a [`FlightRecorderID`].
pub struct FlightRecorderIDView {
    pub manufacturer: Seq<char>,
    pub id: Seq<char>,
    pub extension: Seq<char>,
}

impl View for FlightRecorderID {
    type V = FlightRecorderIDView;

    open spec fn view(&self) -> FlightRecorderIDView {
        FlightRecorderIDView {
            manufacturer: self.manufacturer@,
            id: self.id@,
            extension: self.extension@,
        }
    }
}

impl FlightRecorderID {
    /// What an A line decodes to: the manufacturer in columns 1 to 3, the
    /// recorder's id in columns 4 to 6, and the rest of the line.
    pub open spec fn spec_parse(line: Seq<char>) -> Result<FlightRecorderIDView, IGCErrorView> {
        if line.len() < 7 {
            Err(IGCErrorView::FRIDInitError("'"@ + line + "' is too short for an A record"@))
        } else {
            Ok(
                FlightRecorderIDView {
                    manufacturer: line.subrange(1, 4),
                    id: line.subrange(4, 7),
                    extension: line.skip(7),
                },
            )
        }
    }

    /// Decodes an A line.
    pub fn parse(line: &str) -> (r: Result<FlightRecorderID, IGCError>)
        ensures
            outcome_view(r) == FlightRecorderID::spec_parse(line@),
    {
        if line.unicode_len() < 7 {
            return Err(IGCError::FRIDInitError(message("'", line, "' is too short for an A record")));
        }
        Ok(
            FlightRecorderID {
                manufacturer: columns(line, 1, 4),
                id: columns(line, 4, 7),
                extension: columns_from(line, 7),
            },
        )
    }
}

} // verus!
