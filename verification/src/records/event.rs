use crate::error::{outcome_view, IGCError, IGCErrorView};
use crate::records::util::Time;
use crate::text::{columns, columns_from, message, same_text};
use vstd::prelude::*;

verus! {

/// An E record: something that happened at a given time.
#[derive(Debug, Clone, PartialEq, Eq)]
pub struct Event {
    pub time: Time,
    pub event_type: String,
    pub extension: String,
}

/// The mathematical value of an [`Event`].
pub struct EventView {
    pub time: Time,
    pub event_type: Seq<char>,
    pub extension: Seq<char>,
}

impl View for Event {
    type V = EventView;

    open spec fn view(&self) -> EventView {
        EventView { time: self.time, event_type: self.event_type@, extension: self.extension@ }
    }
}

impl Event {
    /// What an E line decodes to: the time in columns 1 to 6, the three
    /// letters of the event's type, then the rest of the line.
    pub open spec fn spec_parse(line: Seq<char>) -> Result<EventView, IGCErrorView> {
        if line.len() < 10 {
            Err(
                IGCErrorView::EventInitError(
                    "'"@ + line + "' is too short to be parsed as an event record"@,
                ),
            )
        } else {
            match Time::spec_parse(line.subrange(1, 7)) {
                Err(e) => Err(e),
                Ok(time) => Ok(
                    EventView {
                        time,
                        event_type: line.subrange(7, 10),
                        extension: line.skip(10),
                    },
                ),
            }
        }
    }

    /// Decodes an E line.
    pub fn parse(line: &str) -> (r: Result<Event, IGCError>)
        ensures
            outcome_view(r) == Event::spec_parse(line@),
            r matches Ok(event) ==> event.time.is_valid(),
    {
        if line.unicode_len() < 10 {
            return Err(
                IGCError::EventInitError(
                    message("'", line, "' is too short to be parsed as an event record"),
                ),
            );
        }
        let time = match Time::parse(line.substring_char(1, 7)) {
            Ok(time) => time,
            Err(e) => {
                return Err(e);
            },
        };
        Ok(Event { time, event_type: columns(line, 7, 10), extension: columns_from(line, 10) })
    }

    /// Whether the pilot marked this event: its type is `PEV`.
    pub fn is_pev(&self) -> (r: bool)
        ensures
            r == (self.event_type@ == "PEV"@),
    {
        same_text(self.event_type.as_str(), "PEV")
    }
}

} // verus!
