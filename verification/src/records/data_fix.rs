use crate::error::{outcome_view, IGCError, IGCErrorView};
use crate::records::util::Time;
use crate::text::{columns_from, message};
use vstd::prelude::*;

verus! {

/// A K record: data that is logged less often than fixes.
#[derive(Debug, Clone, PartialEq, Eq)]
pub struct DataFix {
    pub time: Time,
    pub content: String,
}

/// The mathematical value of a [`DataFix`].
pub struct DataFixView {
    pub time: Time,
    pub content: Seq<char>,
}

impl View for DataFix {
    type V = DataFixView;

    open spec fn view(&self) -> DataFixView {
        DataFixView { time: self.time, content: self.content@ }
    }
}

impl DataFix {
    /// What a K line decodes to: the time in columns 1 to 6, then the rest
    /// of the line.
    pub open spec fn spec_parse(line: Seq<char>) -> Result<DataFixView, IGCErrorView> {
        if line.len() < 7 {
            Err(
                IGCErrorView::DataFixInitError(
                    "'"@ + line + "' is too short to be parsed as a data fix"@,
                ),
            )
        } else {
            match Time::spec_parse(line.subrange(1, 7)) {
                Err(e) => Err(e),
                Ok(time) => Ok(DataFixView { time, content: line.skip(7) }),
            }
        }
    }

    /// Decodes a K line.
    pub fn parse(line: &str) -> (r: Result<DataFix, IGCError>)
        ensures
            outcome_view(r) == DataFix::spec_parse(line@),
            r matches Ok(data_fix) ==> data_fix.time.is_valid(),
    {
        if line.unicode_len() < 7 {
            return Err(
                IGCError::DataFixInitError(
                    message("'", line, "' is too short to be parsed as a data fix"),
                ),
            );
        }
        let time = match Time::parse(line.substring_char(1, 7)) {
            Ok(time) => time,
            Err(e) => {
                return Err(e);
            },
        };
        Ok(DataFix { time, content: columns_from(line, 7) })
    }
}

} // verus!
