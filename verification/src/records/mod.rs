use crate::error::{outcome_view, IGCError, IGCErrorView};
use crate::records::comment::{Comment, CommentView};
use crate::records::data_fix::{DataFix, DataFixView};
use crate::records::diff_gps::DiffGPS;
use crate::records::event::{Event, EventView};
use crate::records::extension::{Extension, ExtensionView};
use crate::records::file_header::{FileHeader, FileHeaderView};
use crate::records::fix::{Fix, FixView};
use crate::records::flight_recorder_id::{FlightRecorderID, FlightRecorderIDView};
use crate::records::satellite::{Satellite, SatelliteView};
use crate::records::security::{Security, SecurityView};
use crate::records::task_info::{TaskInfo, TaskInfoView};
use crate::text::{first_char, message};
use vstd::prelude::*;

/// L records: free-text comments.
pub mod comment;
/// K records: data sampled less often than fixes.
pub mod data_fix;
/// D records: differential GPS.
pub mod diff_gps;
/// E records: events.
pub mod event;
/// I and J records: declarations of additional fields.
pub mod extension;
/// H records: the file's header.
pub mod file_header;
/// B records: fixes.
pub mod fix;
/// A records: the identity of the flight recorder.
pub mod flight_recorder_id;
/// F records: the satellites in use.
pub mod satellite;
/// G records: the security code.
pub mod security;
/// C records: the declared task.
pub mod task_info;
/// Clock times, calendar dates and coordinates.
pub mod util;

verus! {

/// One decoded line. The variant is the letter with which the line begins.
#[derive(Debug, Clone, PartialEq, Eq)]
pub enum Record {
    A(FlightRecorderID),
    B(Fix),
    C(TaskInfo),
    D(DiffGPS),
    E(Event),
    F(Satellite),
    G(Security),
    H(FileHeader),
    I(Extension),
    J(Extension),
    K(DataFix),
    L(Comment),
}

/// The mathematical value of a [`Record`].
pub enum RecordView {
    A(FlightRecorderIDView),
    B(FixView),
    C(TaskInfoView),
    D(DiffGPS),
    E(EventView),
    F(SatelliteView),
    G(SecurityView),
    H(FileHeaderView),
    I(ExtensionView),
    J(ExtensionView),
    K(DataFixView),
    L(CommentView),
}

impl View for Record {
    type V = RecordView;

    open spec fn view(&self) -> RecordView {
        match self {
            Record::A(record) => RecordView::A(record@),
            Record::B(record) => RecordView::B(record@),
            Record::C(record) => RecordView::C(record@),
            Record::D(record) => RecordView::D(record@),
            Record::E(record) => RecordView::E(record@),
            Record::F(record) => RecordView::F(record@),
            Record::G(record) => RecordView::G(record@),
            Record::H(record) => RecordView::H(record@),
            Record::I(record) => RecordView::I(record@),
            Record::J(record) => RecordView::J(record@),
            Record::K(record) => RecordView::K(record@),
            Record::L(record) => RecordView::L(record@),
        }
    }
}

impl RecordView {
    /// The letter of the record's kind.
    pub open spec fn letter(self) -> char {
        match self {
            RecordView::A(_) => 'A',
            RecordView::B(_) => 'B',
            RecordView::C(_) => 'C',
            RecordView::D(_) => 'D',
            RecordView::E(_) => 'E',
            RecordView::F(_) => 'F',
            RecordView::G(_) => 'G',
            RecordView::H(_) => 'H',
            RecordView::I(_) => 'I',
            RecordView::J(_) => 'J',
            RecordView::K(_) => 'K',
            RecordView::L(_) => 'L',
        }
    }
}

/// Whether a line begins with one of the letters `A` to `L`, which select
/// the kinds of record.
pub open spec fn has_valid_start(line: Seq<char>) -> bool {
    line.len() > 0 && 'A' <= line[0] && line[0] <= 'L'
}

impl Record {
    /// What a line decodes to: what the decoder of its first letter makes
    /// of the whole line, under the variant of that letter. A line without
    /// a first character, or with one that is no letter from `A` to `L`, is
    /// refused.
    pub open spec fn spec_parse(line: Seq<char>) -> Result<RecordView, IGCErrorView> {
        if line.len() == 0 {
            Err(IGCErrorView::RecordInitError("'"@ + line + "' could not get first character"@))
        } else if line[0] == 'A' {
            match FlightRecorderID::spec_parse(line) {
                Ok(record) => Ok(RecordView::A(record)),
                Err(e) => Err(e),
            }
        } else if line[0] == 'B' {
            match Fix::spec_parse(line) {
                Ok(record) => Ok(RecordView::B(record)),
                Err(e) => Err(e),
            }
        } else if line[0] == 'C' {
            match TaskInfo::spec_parse(line) {
                Ok(record) => Ok(RecordView::C(record)),
                Err(e) => Err(e),
            }
        } else if line[0] == 'D' {
            match DiffGPS::spec_parse(line) {
                Ok(record) => Ok(RecordView::D(record)),
                Err(e) => Err(e),
            }
        } else if line[0] == 'E' {
            match Event::spec_parse(line) {
                Ok(record) => Ok(RecordView::E(record)),
                Err(e) => Err(e),
            }
        } else if line[0] == 'F' {
            match Satellite::spec_parse(line) {
                Ok(record) => Ok(RecordView::F(record)),
                Err(e) => Err(e),
            }
        } else if line[0] == 'G' {
            match Security::spec_parse(line) {
                Ok(record) => Ok(RecordView::G(record)),
                Err(e) => Err(e),
            }
        } else if line[0] == 'H' {
            match FileHeader::spec_parse(line) {
                Ok(record) => Ok(RecordView::H(record)),
                Err(e) => Err(e),
            }
        } else if line[0] == 'I' {
            match Extension::spec_parse(line) {
                Ok(record) => Ok(RecordView::I(record)),
                Err(e) => Err(e),
            }
        } else if line[0] == 'J' {
            match Extension::spec_parse(line) {
                Ok(record) => Ok(RecordView::J(record)),
                Err(e) => Err(e),
            }
        } else if line[0] == 'K' {
            match DataFix::spec_parse(line) {
                Ok(record) => Ok(RecordView::K(record)),
                Err(e) => Err(e),
            }
        } else if line[0] == 'L' {
            match Comment::spec_parse(line) {
                Ok(record) => Ok(RecordView::L(record)),
                Err(e) => Err(e),
            }
        } else {
            Err(
                IGCErrorView::RecordInitError(
                    "'"@ + line + "' does not have a valid starting letter"@,
                ),
            )
        }
    }

    /// Decodes one line, without its line ending.
    pub fn parse(line: &str) -> (r: Result<Record, IGCError>)
        ensures
            outcome_view(r) == Record::spec_parse(line@),
            r matches Ok(record) ==> has_valid_start(line@) && record@.letter() == line@[0],
            !has_valid_start(line@) ==> r matches Err(IGCError::RecordInitError(_)),
    {
        match first_char(line) {
            None => Err(
                IGCError::RecordInitError(message("'", line, "' could not get first character")),
            ),
            Some('A') => match FlightRecorderID::parse(line) {
                Ok(record) => Ok(Record::A(record)),
                Err(e) => Err(e),
            },
            Some('B') => match Fix::parse(line) {
                Ok(record) => Ok(Record::B(record)),
                Err(e) => Err(e),
            },
            Some('C') => match TaskInfo::parse(line) {
                Ok(record) => Ok(Record::C(record)),
                Err(e) => Err(e),
            },
            Some('D') => match DiffGPS::parse(line) {
                Ok(record) => Ok(Record::D(record)),
                Err(e) => Err(e),
            },
            Some('E') => match Event::parse(line) {
                Ok(record) => Ok(Record::E(record)),
                Err(e) => Err(e),
            },
            Some('F') => match Satellite::parse(line) {
                Ok(record) => Ok(Record::F(record)),
                Err(e) => Err(e),
            },
            Some('G') => match Security::parse(line) {
                Ok(record) => Ok(Record::G(record)),
                Err(e) => Err(e),
            },
            Some('H') => match FileHeader::parse(line) {
                Ok(record) => Ok(Record::H(record)),
                Err(e) => Err(e),
            },
            Some('I') => match Extension::parse(line) {
                Ok(record) => Ok(Record::I(record)),
                Err(e) => Err(e),
            },
            Some('J') => match Extension::parse(line) {
                Ok(record) => Ok(Record::J(record)),
                Err(e) => Err(e),
            },
            Some('K') => match DataFix::parse(line) {
                Ok(record) => Ok(Record::K(record)),
                Err(e) => Err(e),
            },
            Some('L') => match Comment::parse(line) {
                Ok(record) => Ok(Record::L(record)),
                Err(e) => Err(e),
            },
            Some(_) => Err(
                IGCError::RecordInitError(
                    message("'", line, "' does not have a valid starting letter"),
                ),
            ),
        }
    }
}

/// A line that decodes gives the variant of its first letter, which is one
/// of `A` to `L`.
pub proof fn lemma_record_variant_is_first_letter(line: Seq<char>)
    requires
        Record::spec_parse(line) is Ok,
    ensures
        has_valid_start(line),
        Record::spec_parse(line)->Ok_0.letter() == line[0],
{
}

/// A line that does not begin with a letter from `A` to `L` is refused as a
/// record, not as a record of some kind.
pub proof fn lemma_record_needs_valid_start(line: Seq<char>)
    requires
        !has_valid_start(line),
    ensures
        Record::spec_parse(line) matches Err(IGCErrorView::RecordInitError(_)),
{
}

} // verus!
