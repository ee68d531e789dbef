use crate::collector::{
    collect, comment_vec_of, data_fix_vec_of, differential_gps_records_of, events_of,
    file_header_vec_of, first_unknown_line, fixes_of, fr_ids_of, i_extension_vec_of,
    j_extension_vec_of, satellite_vec_of, security_vec_of, task_info_of, Outcomes, Selection,
};
use crate::error::{outcome_view, outcomes_view, IGCError, IGCErrorView};
use crate::records::comment::{Comment, CommentView};
use crate::records::data_fix::{DataFix, DataFixView};
use crate::records::diff_gps::DiffGPS;
use crate::records::event::{Event, EventView};
use crate::records::extension::{Extension, ExtensionView};
use crate::records::file_header::{FileHeader, FileHeaderView};
use crate::records::fix::{Fix, FixView};
use crate::records::flight_recorder_id::{FlightRecorderID, FlightRecorderIDView};
use crate::records::satellite::{Satellite, SatelliteView};
use crate::records::security::{Security, SecurityView};
use crate::records::task_info::{TaskInfo, TaskInfoView};
use crate::text::lines_of;
use vstd::prelude::*;

verus! {

/// A whole file, decoded: for each kind of record the outcomes of the lines
/// of that kind, in the order of the lines.
#[derive(Debug, Clone)]
pub struct IGCFile {
    fr_ids: Vec<Result<FlightRecorderID, IGCError>>,
    fixes: Vec<Result<Fix, IGCError>>,
    task_info: Vec<Result<TaskInfo, IGCError>>,
    differential_gps_records: Vec<Result<DiffGPS, IGCError>>,
    events: Vec<Result<Event, IGCError>>,
    satellite_vec: Vec<Result<Satellite, IGCError>>,
    security_vec: Vec<Result<Security, IGCError>>,
    file_header_vec: Vec<Result<FileHeader, IGCError>>,
    i_extension_vec: Vec<Result<Extension, IGCError>>,
    j_extension_vec: Vec<Result<Extension, IGCError>>,
    data_fix_vec: Vec<Result<DataFix, IGCError>>,
    comment_vec: Vec<Result<Comment, IGCError>>,
}

/// The mathematical value of an [`IGCFile`].
pub struct IGCFileView {
    pub fr_ids: Seq<Result<FlightRecorderIDView, IGCErrorView>>,
    pub fixes: Seq<Result<FixView, IGCErrorView>>,
    pub task_info: Seq<Result<TaskInfoView, IGCErrorView>>,
    pub differential_gps_records: Seq<Result<DiffGPS, IGCErrorView>>,
    pub events: Seq<Result<EventView, IGCErrorView>>,
    pub satellite_vec: Seq<Result<SatelliteView, IGCErrorView>>,
    pub security_vec: Seq<Result<SecurityView, IGCErrorView>>,
    pub file_header_vec: Seq<Result<FileHeaderView, IGCErrorView>>,
    pub i_extension_vec: Seq<Result<ExtensionView, IGCErrorView>>,
    pub j_extension_vec: Seq<Result<ExtensionView, IGCErrorView>>,
    pub data_fix_vec: Seq<Result<DataFixView, IGCErrorView>>,
    pub comment_vec: Seq<Result<CommentView, IGCErrorView>>,
}

impl View for IGCFile {
    type V = IGCFileView;

    closed spec fn view(&self) -> IGCFileView {
        IGCFileView {
            fr_ids: outcomes_view(self.fr_ids@),
            fixes: outcomes_view(self.fixes@),
            task_info: outcomes_view(self.task_info@),
            differential_gps_records: outcomes_view(self.differential_gps_records@),
            events: outcomes_view(self.events@),
            satellite_vec: outcomes_view(self.satellite_vec@),
            security_vec: outcomes_view(self.security_vec@),
            file_header_vec: outcomes_view(self.file_header_vec@),
            i_extension_vec: outcomes_view(self.i_extension_vec@),
            j_extension_vec: outcomes_view(self.j_extension_vec@),
            data_fix_vec: outcomes_view(self.data_fix_vec@),
            comment_vec: outcomes_view(self.comment_vec@),
        }
    }
}

impl IGCFile {
    /// What the text of a file decodes to. A line that does not begin with
    /// a letter from `A` to `L` fails the whole file, with a failure that
    /// quotes the first such line. Otherwise each line is an outcome among
    /// those of its kind, a failed one where the kind's decoder refuses it.
    pub open spec fn spec_parse(content: Seq<char>) -> Result<IGCFileView, IGCErrorView> {
        let lines = lines_of(content);
        match first_unknown_line(lines) {
            Some(i) => Err(
                IGCErrorView::IGCFileInitError(lines[i] + " does not have a valid start letter"@),
            ),
            None => Ok(
                IGCFileView {
                    fr_ids: fr_ids_of(lines),
                    fixes: fixes_of(lines),
                    task_info: task_info_of(lines),
                    differential_gps_records: differential_gps_records_of(lines),
                    events: events_of(lines),
                    satellite_vec: satellite_vec_of(lines),
                    security_vec: security_vec_of(lines),
                    file_header_vec: file_header_vec_of(lines),
                    i_extension_vec: i_extension_vec_of(lines),
                    j_extension_vec: j_extension_vec_of(lines),
                    data_fix_vec: data_fix_vec_of(lines),
                    comment_vec: comment_vec_of(lines),
                },
            ),
        }
    }

    /// Decodes the text of a whole file.
    pub fn parse(content: &str) -> (r: Result<IGCFile, IGCError>)
        ensures
            outcome_view(r) == IGCFile::spec_parse(content@),
    {
        match collect(content, Selection::all()) {
            Err(error) => Err(error),
            Ok(outcomes) => {
                let Outcomes {
                    fr_ids,
                    fixes,
                    task_info,
                    differential_gps_records,
                    events,
                    satellite_vec,
                    security_vec,
                    file_header_vec,
                    i_extension_vec,
                    j_extension_vec,
                    data_fix_vec,
                    comment_vec,
                } = outcomes;
                Ok(
                    IGCFile {
                        fr_ids: fr_ids.unwrap(),
                        fixes: fixes.unwrap(),
                        task_info: task_info.unwrap(),
                        differential_gps_records: differential_gps_records.unwrap(),
                        events: events.unwrap(),
                        satellite_vec: satellite_vec.unwrap(),
                        security_vec: security_vec.unwrap(),
                        file_header_vec: file_header_vec.unwrap(),
                        i_extension_vec: i_extension_vec.unwrap(),
                        j_extension_vec: j_extension_vec.unwrap(),
                        data_fix_vec: data_fix_vec.unwrap(),
                        comment_vec: comment_vec.unwrap(),
                    },
                )
            },
        }
    }

    /// The outcomes of the A lines, in the order of the lines.
    pub fn get_fr_ids(&self) -> (outcomes: &Vec<Result<FlightRecorderID, IGCError>>)
        ensures
            outcomes_view(outcomes@) == self@.fr_ids,
    {
        &self.fr_ids
    }

    /// The outcomes of the B lines, in the order of the lines.
    pub fn get_fixes(&self) -> (outcomes: &Vec<Result<Fix, IGCError>>)
        ensures
            outcomes_view(outcomes@) == self@.fixes,
    {
        &self.fixes
    }

    /// The outcomes of the C lines, in the order of the lines.
    pub fn get_task_info(&self) -> (outcomes: &Vec<Result<TaskInfo, IGCError>>)
        ensures
            outcomes_view(outcomes@) == self@.task_info,
    {
        &self.task_info
    }

    /// The outcomes of the D lines, in the order of the lines.
    pub fn get_differential_gps_records(&self) -> (outcomes: &Vec<Result<DiffGPS, IGCError>>)
        ensures
            outcomes_view(outcomes@) == self@.differential_gps_records,
    {
        &self.differential_gps_records
    }

    /// The outcomes of the E lines, in the order of the lines.
    pub fn get_events(&self) -> (outcomes: &Vec<Result<Event, IGCError>>)
        ensures
            outcomes_view(outcomes@) == self@.events,
    {
        &self.events
    }

    /// The outcomes of the F lines, in the order of the lines.
    pub fn get_satellite_vec(&self) -> (outcomes: &Vec<Result<Satellite, IGCError>>)
        ensures
            outcomes_view(outcomes@) == self@.satellite_vec,
    {
        &self.satellite_vec
    }

    /// The outcomes of the G lines, in the order of the lines.
    pub fn get_security_vec(&self) -> (outcomes: &Vec<Result<Security, IGCError>>)
        ensures
            outcomes_view(outcomes@) == self@.security_vec,
    {
        &self.security_vec
    }

    /// The outcomes of the H lines, in the order of the lines.
    pub fn get_file_header_vec(&self) -> (outcomes: &Vec<Result<FileHeader, IGCError>>)
        ensures
            outcomes_view(outcomes@) == self@.file_header_vec,
    {
        &self.file_header_vec
    }

    /// The outcomes of the I lines, in the order of the lines.
    pub fn get_i_extension_vec(&self) -> (outcomes: &Vec<Result<Extension, IGCError>>)
        ensures
            outcomes_view(outcomes@) == self@.i_extension_vec,
    {
        &self.i_extension_vec
    }

    /// The outcomes of the J lines, in the order of the lines.
    pub fn get_j_extension_vec(&self) -> (outcomes: &Vec<Result<Extension, IGCError>>)
        ensures
            outcomes_view(outcomes@) == self@.j_extension_vec,
    {
        &self.j_extension_vec
    }

    /// The outcomes of the K lines, in the order of the lines.
    pub fn get_data_fix_vec(&self) -> (outcomes: &Vec<Result<DataFix, IGCError>>)
        ensures
            outcomes_view(outcomes@) == self@.data_fix_vec,
    {
        &self.data_fix_vec
    }

    /// The outcomes of the L lines, in the order of the lines.
    pub fn get_comment_vec(&self) -> (outcomes: &Vec<Result<Comment, IGCError>>)
        ensures
            outcomes_view(outcomes@) == self@.comment_vec,
    {
        &self.comment_vec
    }
}

} // verus!
