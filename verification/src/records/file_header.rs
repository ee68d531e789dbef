use crate::error::{outcome_view, IGCError, IGCErrorView};
use crate::records::util::Date;
use crate::text::{message, parse_u16, parse_unsigned, same_text, starts_with};
use vstd::prelude::*;

verus! {

/// An H record: one entry of the file's header.
#[derive(Debug, Clone, PartialEq, Eq)]
pub enum FileHeader {
    /// The date of the flight.
    Date(Date),
    /// The accuracy of the fixes, in metres.
    FixAccuracy(u16),
    /// The pilot in charge.
    PilotInCharge(String),
    /// The second member of the crew.
    SecondPilot(String),
    /// The type of the glider.
    GliderType(String),
    /// The registration of the glider.
    GliderID(String),
    /// The geodetic datum of the GPS.
    GPSDatum(String),
    /// The version of the recorder's firmware.
    Firmware(String),
    /// The version of the recorder's hardware.
    Hardware(String),
    /// The maker and model of the recorder.
    LoggerType(String),
    /// The GPS receiver.
    GPSManufacturer(String),
    /// The pressure sensor.
    PressureSensor(String),
    /// The competition number.
    CompetitionID(String),
    /// The competition class.
    CompetitionClass(String),
}

/// The mathematical value of a [`FileHeader`].
pub enum FileHeaderView {
    Date(Date),
    FixAccuracy(u16),
    PilotInCharge(Seq<char>),
    SecondPilot(Seq<char>),
    GliderType(Seq<char>),
    GliderID(Seq<char>),
    GPSDatum(Seq<char>),
    Firmware(Seq<char>),
    Hardware(Seq<char>),
    LoggerType(Seq<char>),
    GPSManufacturer(Seq<char>),
    PressureSensor(Seq<char>),
    CompetitionID(Seq<char>),
    CompetitionClass(Seq<char>),
}

impl View for FileHeader {
    type V = FileHeaderView;

    open spec fn view(&self) -> FileHeaderView {
        match self {
            FileHeader::Date(date) => FileHeaderView::Date(*date),
            FileHeader::FixAccuracy(accuracy) => FileHeaderView::FixAccuracy(*accuracy),
            FileHeader::PilotInCharge(text) => FileHeaderView::PilotInCharge(text@),
            FileHeader::SecondPilot(text) => FileHeaderView::SecondPilot(text@),
            FileHeader::GliderType(text) => FileHeaderView::GliderType(text@),
            FileHeader::GliderID(text) => FileHeaderView::GliderID(text@),
            FileHeader::GPSDatum(text) => FileHeaderView::GPSDatum(text@),
            FileHeader::Firmware(text) => FileHeaderView::Firmware(text@),
            FileHeader::Hardware(text) => FileHeaderView::Hardware(text@),
            FileHeader::LoggerType(text) => FileHeaderView::LoggerType(text@),
            FileHeader::GPSManufacturer(text) => FileHeaderView::GPSManufacturer(text@),
            FileHeader::PressureSensor(text) => FileHeaderView::PressureSensor(text@),
            FileHeader::CompetitionID(text) => FileHeaderView::CompetitionID(text@),
            FileHeader::CompetitionClass(text) => FileHeaderView::CompetitionClass(text@),
        }
    }
}

/// What follows the words `header_name` in a line that begins with them; a
/// failure for a line that is shorter than they are or begins otherwise.
pub open spec fn header_content(line: Seq<char>, header_name: Seq<char>) -> Result<
    Seq<char>,
    IGCErrorView,
> {
    if line.len() < header_name.len() {
        Err(
            IGCErrorView::FileHeaderInitError(
                "'"@ + line + "' is too short to hold the words of its file header"@,
            ),
        )
    } else if !header_name.is_prefix_of(line) {
        Err(
            IGCErrorView::FileHeaderInitError(
                "'"@ + line + "' does not spell out the words of its file header"@,
            ),
        )
    } else {
        Ok(line.skip(header_name.len() as int))
    }
}

/// The text of a file header: what follows the words `header_name`, with
/// which the line must begin.
pub fn get_file_header_with_string_content<'a>(line: &'a str, header_name: &str) -> (r: Result<
    &'a str,
    IGCError,
>)
    ensures
        outcome_view(r) == header_content(line@, header_name@),
{
    let n = line.unicode_len();
    let k = header_name.unicode_len();
    if n < k {
        return Err(
            IGCError::FileHeaderInitError(
                message("'", line, "' is too short to hold the words of its file header"),
            ),
        );
    }
    if !starts_with(line, header_name) {
        return Err(
            IGCError::FileHeaderInitError(
                message("'", line, "' does not spell out the words of its file header"),
            ),
        );
    }
    Ok(line.substring_char(k, n))
}

/// The text of a file header as an owned string.
fn header_text(line: &str, header_name: &str) -> (r: Result<String, IGCError>)
    ensures
        outcome_view(r) == header_content(line@, header_name@),
{
    match get_file_header_with_string_content(line, header_name) {
        Ok(content) => Ok(String::from_str(content)),
        Err(e) => Err(e),
    }
}

impl FileHeader {
    /// The words with which a header of the GPS datum begins: the tag, the
    /// three characters that the line has in columns 5 to 7 (the number of
    /// the datum, taken as it stands), and `GPSDATUM:`.
    pub open spec fn datum_header_name(line: Seq<char>) -> Seq<char> {
        "HFDTM"@ + line.subrange(5, 8) + "GPSDATUM:"@
    }

    /// What an H line decodes to. The first five characters are the tag
    /// that selects the entry. A date is six characters behind the tag, and
    /// nothing else; a fix accuracy is a line of eight characters whose
    /// last two are a number. Every other entry is text behind fixed words,
    /// which the line must spell out.
    pub open spec fn spec_parse(line: Seq<char>) -> Result<FileHeaderView, IGCErrorView> {
        if line.len() < 5 {
            Err(
                IGCErrorView::FileHeaderInitError(
                    "'"@ + line + "' is too short to be parsed as a file header"@,
                ),
            )
        } else {
            let tag = line.subrange(0, 5);
            if tag == "HFDTE"@ {
                if line.len() != 11 {
                    Err(
                        IGCErrorView::FileHeaderInitError(
                            "'"@ + line
                                + "' does not have the correct length to be parsed as a file header date"@,
                        ),
                    )
                } else {
                    match Date::spec_parse(line.subrange(5, 11)) {
                        Ok(date) => Ok(FileHeaderView::Date(date)),
                        Err(e) => Err(e),
                    }
                }
            } else if tag == "HFFXA"@ {
                if line.len() != 8 {
                    Err(
                        IGCErrorView::FileHeaderInitError(
                            "'"@ + line
                                + "' does not have the correct length to be parsed as a file header fix accuracy"@,
                        ),
                    )
                } else {
                    match parse_unsigned(line.subrange(6, 8), 65535) {
                        Some(accuracy) => Ok(FileHeaderView::FixAccuracy(accuracy as u16)),
                        None => Err(
                            IGCErrorView::FileHeaderInitError(
                                "'"@ + line + "' can not be parsed as a fix accuracy number"@,
                            ),
                        ),
                    }
                }
            } else if tag == "HFPLT"@ {
                match header_content(line, "HFPLTPILOTINCHARGE:"@) {
                    Ok(text) => Ok(FileHeaderView::PilotInCharge(text)),
                    Err(e) => Err(e),
                }
            } else if tag == "HFCM2"@ {
                match header_content(line, "HFCM2CREW2:"@) {
                    Ok(text) => Ok(FileHeaderView::SecondPilot(text)),
                    Err(e) => Err(e),
                }
            } else if tag == "HFGTY"@ {
                match header_content(line, "HFGTYGLIDERTYPE:"@) {
                    Ok(text) => Ok(FileHeaderView::GliderType(text)),
                    Err(e) => Err(e),
                }
            } else if tag == "HFGID"@ {
                match header_content(line, "HFGIDGLIDERID:"@) {
                    Ok(text) => Ok(FileHeaderView::GliderID(text)),
                    Err(e) => Err(e),
                }
            } else if tag == "HFDTM"@ {
                if line.len() < 8 {
                    Err(
                        IGCErrorView::FileHeaderInitError(
                            "'"@ + line + "' is too short to hold the words of its file header"@,
                        ),
                    )
                } else {
                    match header_content(line, FileHeader::datum_header_name(line)) {
                        Ok(text) => Ok(FileHeaderView::GPSDatum(text)),
                        Err(e) => Err(e),
                    }
                }
            } else if tag == "HFRFW"@ {
                match header_content(line, "HFRFWFIRMWAREVERSION:"@) {
                    Ok(text) => Ok(FileHeaderView::Firmware(text)),
                    Err(e) => Err(e),
                }
            } else if tag == "HFRHW"@ {
                match header_content(line, "HFRHWHARDWAREVERSION:"@) {
                    Ok(text) => Ok(FileHeaderView::Hardware(text)),
                    Err(e) => Err(e),
                }
            } else if tag == "HFFTY"@ {
                match header_content(line, "HFFTYFRTYPE:"@) {
                    Ok(text) => Ok(FileHeaderView::LoggerType(text)),
                    Err(e) => Err(e),
                }
            } else if tag == "HFGPS"@ {
                match header_content(line, "HFGPS"@) {
                    Ok(text) => Ok(FileHeaderView::GPSManufacturer(text)),
                    Err(e) => Err(e),
                }
            } else if tag == "HFPRS"@ {
                match header_content(line, "HFPRSPRESSALTSENSOR:"@) {
                    Ok(text) => Ok(FileHeaderView::PressureSensor(text)),
                    Err(e) => Err(e),
                }
            } else if tag == "HFCID"@ {
                match header_content(line, "HFCIDCOMPETITIONID:"@) {
                    Ok(text) => Ok(FileHeaderView::CompetitionID(text)),
                    Err(e) => Err(e),
                }
            } else if tag == "HFCCL"@ {
                match header_content(line, "HFCCLCOMPETITIONCLASS:"@) {
                    Ok(text) => Ok(FileHeaderView::CompetitionClass(text)),
                    Err(e) => Err(e),
                }
            } else {
                Err(
                    IGCErrorView::FileHeaderInitError(
                        "'"@ + line + "' does not have a valid file header start"@,
                    ),
                )
            }
        }
    }

    /// Decodes an H line.
    pub fn parse(line: &str) -> (r: Result<FileHeader, IGCError>)
        ensures
            outcome_view(r) == FileHeader::spec_parse(line@),
    {
        let n = line.unicode_len();
        if n < 5 {
            return Err(
                IGCError::FileHeaderInitError(
                    message("'", line, "' is too short to be parsed as a file header"),
                ),
            );
        }
        let tag = line.substring_char(0, 5);
        if same_text(tag, "HFDTE") {
            if n != 11 {
                return Err(
                    IGCError::FileHeaderInitError(
                        message(
                            "'",
                            line,
                            "' does not have the correct length to be parsed as a file header date",
                        ),
                    ),
                );
            }
            match Date::parse(line.substring_char(5, 11)) {
                Ok(date) => Ok(FileHeader::Date(date)),
                Err(e) => Err(e),
            }
        } else if same_text(tag, "HFFXA") {
            if n != 8 {
                return Err(
                    IGCError::FileHeaderInitError(
                        message(
                            "'",
                            line,
                            "' does not have the correct length to be parsed as a file header fix accuracy",
                        ),
                    ),
                );
            }
            match parse_u16(line.substring_char(6, 8)) {
                Some(accuracy) => Ok(FileHeader::FixAccuracy(accuracy)),
                None => Err(
                    IGCError::FileHeaderInitError(
                        message("'", line, "' can not be parsed as a fix accuracy number"),
                    ),
                ),
            }
        } else if same_text(tag, "HFPLT") {
            match header_text(line, "HFPLTPILOTINCHARGE:") {
                Ok(text) => Ok(FileHeader::PilotInCharge(text)),
                Err(e) => Err(e),
            }
        } else if same_text(tag, "HFCM2") {
            match header_text(line, "HFCM2CREW2:") {
                Ok(text) => Ok(FileHeader::SecondPilot(text)),
                Err(e) => Err(e),
            }
        } else if same_text(tag, "HFGTY") {
            match header_text(line, "HFGTYGLIDERTYPE:") {
                Ok(text) => Ok(FileHeader::GliderType(text)),
                Err(e) => Err(e),
            }
        } else if same_text(tag, "HFGID") {
            match header_text(line, "HFGIDGLIDERID:") {
                Ok(text) => Ok(FileHeader::GliderID(text)),
                Err(e) => Err(e),
            }
        } else if same_text(tag, "HFDTM") {
            if n < 8 {
                return Err(
                    IGCError::FileHeaderInitError(
                        message("'", line, "' is too short to hold the words of its file header"),
                    ),
                );
            }
            let header_name = message("HFDTM", line.substring_char(5, 8), "GPSDATUM:");
            match header_text(line, header_name.as_str()) {
                Ok(text) => Ok(FileHeader::GPSDatum(text)),
                Err(e) => Err(e),
            }
        } else if same_text(tag, "HFRFW") {
            match header_text(line, "HFRFWFIRMWAREVERSION:") {
                Ok(text) => Ok(FileHeader::Firmware(text)),
                Err(e) => Err(e),
            }
        } else if same_text(tag, "HFRHW") {
            match header_text(line, "HFRHWHARDWAREVERSION:") {
                Ok(text) => Ok(FileHeader::Hardware(text)),
                Err(e) => Err(e),
            }
        } else if same_text(tag, "HFFTY") {
            match header_text(line, "HFFTYFRTYPE:") {
                Ok(text) => Ok(FileHeader::LoggerType(text)),
                Err(e) => Err(e),
            }
        } else if same_text(tag, "HFGPS") {
            match header_text(line, "HFGPS") {
                Ok(text) => Ok(FileHeader::GPSManufacturer(text)),
                Err(e) => Err(e),
            }
        } else if same_text(tag, "HFPRS") {
            match header_text(line, "HFPRSPRESSALTSENSOR:") {
                Ok(text) => Ok(FileHeader::PressureSensor(text)),
                Err(e) => Err(e),
            }
        } else if same_text(tag, "HFCID") {
            match header_text(line, "HFCIDCOMPETITIONID:") {
                Ok(text) => Ok(FileHeader::CompetitionID(text)),
                Err(e) => Err(e),
            }
        } else if same_text(tag, "HFCCL") {
            match header_text(line, "HFCCLCOMPETITIONCLASS:") {
                Ok(text) => Ok(FileHeader::CompetitionClass(text)),
                Err(e) => Err(e),
            }
        } else {
            Err(
                IGCError::FileHeaderInitError(
                    message("'", line, "' does not have a valid file header start"),
                ),
            )
        }
    }
}

} // verus!
