use crate::error::{outcome_view, IGCError, IGCErrorView};
use crate::records::util::{Coordinate, Date, Time};
use crate::text::{all_digits, columns_from, is_all_digits, message};
use vstd::prelude::*;

verus! {

/// A point of the declared task.
#[derive(Debug, Clone, PartialEq, Eq)]
pub struct TaskPoint {
    pub coordinate: Coordinate,
    pub name: Option<String>,
}

/// The mathematical value of a [`TaskPoint`].
pub struct TaskPointView {
    pub coordinate: Coordinate,
    pub name: Option<Seq<char>>,
}

impl View for TaskPoint {
    type V = TaskPointView;

    open spec fn view(&self) -> TaskPointView {
        TaskPointView {
            coordinate: self.coordinate,
            name: match self.name {
                Some(name) => Some(name@),
                None => None,
            },
        }
    }
}

impl TaskPoint {
    /// What a C line that names a point decodes to: the coordinate in
    /// columns 1 to 17, then the name, if anything follows.
    pub open spec fn spec_parse(line: Seq<char>) -> Result<TaskPointView, IGCErrorView> {
        if line.len() < 18 {
            Err(
                IGCErrorView::TaskInfoInitError(
                    "'"@ + line + "' is too short to be a task point record"@,
                ),
            )
        } else {
            match Coordinate::spec_parse(line.subrange(1, 18)) {
                Err(e) => Err(e),
                Ok(coordinate) => Ok(
                    TaskPointView {
                        coordinate,
                        name: if line.len() == 18 {
                            None
                        } else {
                            Some(line.skip(18))
                        },
                    },
                ),
            }
        }
    }

    /// Decodes a C line that names a point of the task.
    pub fn parse(line: &str) -> (r: Result<TaskPoint, IGCError>)
        ensures
            outcome_view(r) == TaskPoint::spec_parse(line@),
            r matches Ok(point) ==> point.coordinate.is_valid(),
    {
        let n = line.unicode_len();
        if n < 18 {
            return Err(
                IGCError::TaskInfoInitError(
                    message("'", line, "' is too short to be a task point record"),
                ),
            );
        }
        let coordinate = match Coordinate::parse(line.substring_char(1, 18)) {
            Ok(coordinate) => coordinate,
            Err(e) => {
                return Err(e);
            },
        };
        let name = if n == 18 {
            None
        } else {
            Some(columns_from(line, 18))
        };
        Ok(TaskPoint { coordinate, name })
    }
}

/// When the task was declared.
#[derive(Debug, Clone, PartialEq, Eq)]
pub struct DeclarationTime {
    pub date: Date,
    pub time: Time,
    pub extra: String,
}

/// The mathematical value of a [`DeclarationTime`].
pub struct DeclarationTimeView {
    pub date: Date,
    pub time: Time,
    pub extra: Seq<char>,
}

impl View for DeclarationTime {
    type V = DeclarationTimeView;

    open spec fn view(&self) -> DeclarationTimeView {
        DeclarationTimeView { date: self.date, time: self.time, extra: self.extra@ }
    }
}

impl DeclarationTime {
    /// What a C line that dates the declaration decodes to: the date in
    /// columns 1 to 6, the time in columns 7 to 12, then the rest of the
    /// line, be it nothing.
    pub open spec fn spec_parse(line: Seq<char>) -> Result<DeclarationTimeView, IGCErrorView> {
        if line.len() < 13 {
            Err(
                IGCErrorView::TaskInfoInitError(
                    "'"@ + line + "' is too short to be a declaration time record"@,
                ),
            )
        } else {
            match Date::spec_parse(line.subrange(1, 7)) {
                Err(e) => Err(e),
                Ok(date) => match Time::spec_parse(line.subrange(7, 13)) {
                    Err(e) => Err(e),
                    Ok(time) => Ok(DeclarationTimeView { date, time, extra: line.skip(13) }),
                },
            }
        }
    }

    /// Decodes a C line that dates the declaration of the task.
    pub fn parse(line: &str) -> (r: Result<DeclarationTime, IGCError>)
        ensures
            outcome_view(r) == DeclarationTime::spec_parse(line@),
            r matches Ok(declared) ==> declared.date.is_valid() && declared.time.is_valid(),
    {
        if line.unicode_len() < 13 {
            return Err(
                IGCError::TaskInfoInitError(
                    message("'", line, "' is too short to be a declaration time record"),
                ),
            );
        }
        let date = match Date::parse(line.substring_char(1, 7)) {
            Ok(date) => date,
            Err(e) => {
                return Err(e);
            },
        };
        let time = match Time::parse(line.substring_char(7, 13)) {
            Ok(time) => time,
            Err(e) => {
                return Err(e);
            },
        };
        Ok(DeclarationTime { date, time, extra: columns_from(line, 13) })
    }

    /// What follows the date and the time of the declaration.
    pub fn get_extra(&self) -> (extra: String)
        ensures
            extra@ == self@.extra,
    {
        self.extra.clone()
    }
}

/// A C record: the time of the task's declaration, or one of its points.
#[derive(Debug, Clone, PartialEq, Eq)]
pub enum TaskInfo {
    TaskPoint(TaskPoint),
    DeclarationTime(DeclarationTime),
}

/// The mathematical value of a [`TaskInfo`].
pub enum TaskInfoView {
    TaskPoint(TaskPointView),
    DeclarationTime(DeclarationTimeView),
}

impl View for TaskInfo {
    type V = TaskInfoView;

    open spec fn view(&self) -> TaskInfoView {
        match self {
            TaskInfo::TaskPoint(point) => TaskInfoView::TaskPoint(point@),
            TaskInfo::DeclarationTime(declared) => TaskInfoView::DeclarationTime(declared@),
        }
    }
}

impl TaskInfo {
    /// Whether a C line of at least 18 characters dates the declaration:
    /// its columns 1 to 16 hold decimal digits only.
    pub open spec fn is_declaration_time(line: Seq<char>) -> bool {
        all_digits(line.subrange(1, 17))
    }

    /// What a C line decodes to. A line whose columns 1 to 16 are all
    /// decimal digits dates the declaration; any other names a point.
    pub open spec fn spec_parse(line: Seq<char>) -> Result<TaskInfoView, IGCErrorView> {
        if line.len() < 18 {
            Err(
                IGCErrorView::TaskInfoInitError(
                    "'"@ + line + "' is too short to be parsed as kind of task info record"@,
                ),
            )
        } else if TaskInfo::is_declaration_time(line) {
            match DeclarationTime::spec_parse(line) {
                Ok(declared) => Ok(TaskInfoView::DeclarationTime(declared)),
                Err(e) => Err(e),
            }
        } else {
            match TaskPoint::spec_parse(line) {
                Ok(point) => Ok(TaskInfoView::TaskPoint(point)),
                Err(e) => Err(e),
            }
        }
    }

    /// Decodes a C line.
    pub fn parse(line: &str) -> (r: Result<TaskInfo, IGCError>)
        ensures
            outcome_view(r) == TaskInfo::spec_parse(line@),
    {
        if line.unicode_len() < 18 {
            return Err(
                IGCError::TaskInfoInitError(
                    message("'", line, "' is too short to be parsed as kind of task info record"),
                ),
            );
        }
        if is_all_digits(line.substring_char(1, 17)) {
            match DeclarationTime::parse(line) {
                Ok(declared) => Ok(TaskInfo::DeclarationTime(declared)),
                Err(e) => Err(e),
            }
        } else {
            match TaskPoint::parse(line) {
                Ok(point) => Ok(TaskInfo::TaskPoint(point)),
                Err(e) => Err(e),
            }
        }
    }
}

} // verus!
