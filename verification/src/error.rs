use vstd::prelude::*;

verus! {

/// A classified decoding failure. Every variant carries a human-readable
/// message that quotes the offending text.
#[derive(Debug, Clone, PartialEq, Eq)]
pub enum IGCError {
    TimeInitError(String),
    DateInitError(String),
    FixInitError(String),
    RecordInitError(String),
    CoordinateInitError(String),
    FRIDInitError(String),
    TaskInfoInitError(String),
    DiffGPSInitError(String),
    EventInitError(String),
    SatelliteInitError(String),
    SecurityInitError(String),
    FileHeaderInitError(String),
    ExtensionInitError(String),
    CommentInitError(String),
    DataFixInitError(String),
    IGCFileInitError(String),
}

/// The mathematical value of an [`IGCError`]: the same classification, with
/// the message as a sequence of characters.
pub enum IGCErrorView {
    TimeInitError(Seq<char>),
    DateInitError(Seq<char>),
    FixInitError(Seq<char>),
    RecordInitError(Seq<char>),
    CoordinateInitError(Seq<char>),
    FRIDInitError(Seq<char>),
    TaskInfoInitError(Seq<char>),
    DiffGPSInitError(Seq<char>),
    EventInitError(Seq<char>),
    SatelliteInitError(Seq<char>),
    SecurityInitError(Seq<char>),
    FileHeaderInitError(Seq<char>),
    ExtensionInitError(Seq<char>),
    CommentInitError(Seq<char>),
    DataFixInitError(Seq<char>),
    IGCFileInitError(Seq<char>),
}

impl View for IGCError {
    type V = IGCErrorView;

    open spec fn view(&self) -> IGCErrorView {
        match self {
            IGCError::TimeInitError(m) => IGCErrorView::TimeInitError(m@),
            IGCError::DateInitError(m) => IGCErrorView::DateInitError(m@),
            IGCError::FixInitError(m) => IGCErrorView::FixInitError(m@),
            IGCError::RecordInitError(m) => IGCErrorView::RecordInitError(m@),
            IGCError::CoordinateInitError(m) => IGCErrorView::CoordinateInitError(m@),
            IGCError::FRIDInitError(m) => IGCErrorView::FRIDInitError(m@),
            IGCError::TaskInfoInitError(m) => IGCErrorView::TaskInfoInitError(m@),
            IGCError::DiffGPSInitError(m) => IGCErrorView::DiffGPSInitError(m@),
            IGCError::EventInitError(m) => IGCErrorView::EventInitError(m@),
            IGCError::SatelliteInitError(m) => IGCErrorView::SatelliteInitError(m@),
            IGCError::SecurityInitError(m) => IGCErrorView::SecurityInitError(m@),
            IGCError::FileHeaderInitError(m) => IGCErrorView::FileHeaderInitError(m@),
            IGCError::ExtensionInitError(m) => IGCErrorView::ExtensionInitError(m@),
            IGCError::CommentInitError(m) => IGCErrorView::CommentInitError(m@),
            IGCError::DataFixInitError(m) => IGCErrorView::DataFixInitError(m@),
            IGCError::IGCFileInitError(m) => IGCErrorView::IGCFileInitError(m@),
        }
    }
}

impl IGCErrorView {
    /// The message that the failure carries.
    pub open spec fn message(self) -> Seq<char> {
        match self {
            IGCErrorView::TimeInitError(m) => m,
            IGCErrorView::DateInitError(m) => m,
            IGCErrorView::FixInitError(m) => m,
            IGCErrorView::RecordInitError(m) => m,
            IGCErrorView::CoordinateInitError(m) => m,
            IGCErrorView::FRIDInitError(m) => m,
            IGCErrorView::TaskInfoInitError(m) => m,
            IGCErrorView::DiffGPSInitError(m) => m,
            IGCErrorView::EventInitError(m) => m,
            IGCErrorView::SatelliteInitError(m) => m,
            IGCErrorView::SecurityInitError(m) => m,
            IGCErrorView::FileHeaderInitError(m) => m,
            IGCErrorView::ExtensionInitError(m) => m,
            IGCErrorView::CommentInitError(m) => m,
            IGCErrorView::DataFixInitError(m) => m,
            IGCErrorView::IGCFileInitError(m) => m,
        }
    }

    /// The words that introduce the message when the failure is rendered.
    pub open spec fn heading(self) -> Seq<char> {
        match self {
            IGCErrorView::TimeInitError(_) => "Error initializing time: "@,
            IGCErrorView::DateInitError(_) => "Error initializing date: "@,
            IGCErrorView::FixInitError(_) => "Error initializing fix: "@,
            IGCErrorView::RecordInitError(_) => "Error initializing record: "@,
            IGCErrorView::CoordinateInitError(_) => "Error initializing coordinate: "@,
            IGCErrorView::FRIDInitError(_) => "Error initializing flight recorder ID: "@,
            IGCErrorView::TaskInfoInitError(_) => "Error initializing task info: "@,
            IGCErrorView::DiffGPSInitError(_) => "Error initializing GPS: "@,
            IGCErrorView::EventInitError(_) => "Error initializing event: "@,
            IGCErrorView::SatelliteInitError(_) => "Error initializing satellite: "@,
            IGCErrorView::SecurityInitError(_) => "Error initializing security: "@,
            IGCErrorView::FileHeaderInitError(_) => "Error initializing file header: "@,
            IGCErrorView::ExtensionInitError(_) => "Error initializing extension: "@,
            IGCErrorView::CommentInitError(_) => "Error initializing comment: "@,
            IGCErrorView::DataFixInitError(_) => "Error initializing data fix: "@,
            IGCErrorView::IGCFileInitError(_) => "Error initializing IGC file: "@,
        }
    }
}

impl IGCError {
    /// The message that the failure carries.
    pub fn message(&self) -> (m: &str)
        ensures
            m@ == self@.message(),
    {
        match self {
            IGCError::TimeInitError(m) => m.as_str(),
            IGCError::DateInitError(m) => m.as_str(),
            IGCError::FixInitError(m) => m.as_str(),
            IGCError::RecordInitError(m) => m.as_str(),
            IGCError::CoordinateInitError(m) => m.as_str(),
            IGCError::FRIDInitError(m) => m.as_str(),
            IGCError::TaskInfoInitError(m) => m.as_str(),
            IGCError::DiffGPSInitError(m) => m.as_str(),
            IGCError::EventInitError(m) => m.as_str(),
            IGCError::SatelliteInitError(m) => m.as_str(),
            IGCError::SecurityInitError(m) => m.as_str(),
            IGCError::FileHeaderInitError(m) => m.as_str(),
            IGCError::ExtensionInitError(m) => m.as_str(),
            IGCError::CommentInitError(m) => m.as_str(),
            IGCError::DataFixInitError(m) => m.as_str(),
            IGCError::IGCFileInitError(m) => m.as_str(),
        }
    }

    /// Renders the failure: the heading of its class, then its message.
    pub fn to_string(&self) -> (text: String)
        ensures
            text@ == self@.heading() + self@.message(),
    {
        let heading = match self {
            IGCError::TimeInitError(_) => "Error initializing time: ",
            IGCError::DateInitError(_) => "Error initializing date: ",
            IGCError::FixInitError(_) => "Error initializing fix: ",
            IGCError::RecordInitError(_) => "Error initializing record: ",
            IGCError::CoordinateInitError(_) => "Error initializing coordinate: ",
            IGCError::FRIDInitError(_) => "Error initializing flight recorder ID: ",
            IGCError::TaskInfoInitError(_) => "Error initializing task info: ",
            IGCError::DiffGPSInitError(_) => "Error initializing GPS: ",
            IGCError::EventInitError(_) => "Error initializing event: ",
            IGCError::SatelliteInitError(_) => "Error initializing satellite: ",
            IGCError::SecurityInitError(_) => "Error initializing security: ",
            IGCError::FileHeaderInitError(_) => "Error initializing file header: ",
            IGCError::ExtensionInitError(_) => "Error initializing extension: ",
            IGCError::CommentInitError(_) => "Error initializing comment: ",
            IGCError::DataFixInitError(_) => "Error initializing data fix: ",
            IGCError::IGCFileInitError(_) => "Error initializing IGC file: ",
        };
        let mut text = String::from_str(heading);
        text.append(self.message());
        text
    }
}

/// The mathematical value of a decoding outcome.
pub open spec fn outcome_view<T: View>(outcome: Result<T, IGCError>) -> Result<T::V, IGCErrorView> {
    match outcome {
        Ok(value) => Ok(value@),
        Err(error) => Err(error@),
    }
}

/// The mathematical value of a sequence of decoding outcomes.
pub open spec fn outcomes_view<T: View>(outcomes: Seq<Result<T, IGCError>>) -> Seq<
    Result<T::V, IGCErrorView>,
> {
    outcomes.map_values(|outcome: Result<T, IGCError>| outcome_view(outcome))
}

} // verus!
