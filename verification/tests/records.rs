use igc_parser::error::IGCError;
use igc_parser::records::comment::Comment;
use igc_parser::records::data_fix::DataFix;
use igc_parser::records::diff_gps::{DiffGPS, DiffGPSQualifier};
use igc_parser::records::event::Event;
use igc_parser::records::extension::{Extension, ExtensionType};
use igc_parser::records::file_header::{get_file_header_with_string_content, FileHeader};
use igc_parser::records::fix::Fix;
use igc_parser::records::flight_recorder_id::FlightRecorderID;
use igc_parser::records::satellite::Satellite;
use igc_parser::records::security::Security;
use igc_parser::records::task_info::{DeclarationTime, TaskInfo, TaskPoint};
use igc_parser::records::util::{Coordinate, Date, Latitude, Longitude, Time};
use igc_parser::records::Record;

#[test]
fn diff_gps() {
    let diff_gps = DiffGPS::parse("D21234").unwrap();
    assert_eq!(diff_gps.dgps_station_id, 1234);
    assert_eq!(diff_gps.qualifier, DiffGPSQualifier::DGPS);

    let diff_gps = DiffGPS::parse("D11234").unwrap();
    assert_eq!(diff_gps.qualifier, DiffGPSQualifier::GPS);

    assert!(DiffGPS::parse("DA1234").is_err());
    assert!(DiffGPS::parse("D31234").is_err());
    assert!(DiffGPS::parse("D112A4").is_err());
}

#[test]
fn event_is_parsed_correctly() {
    let event = Event::parse("E160245PEV").unwrap();
    assert_eq!(event.time, Time::from_hms(16, 2, 45).unwrap());
    assert_eq!(event.extension, "".to_string());
    assert_eq!(event.event_type, "PEV".to_string());
    assert!(event.is_pev());
}

#[test]
fn extension_test() {
    let s = "I023638FXA3940SIU";
    let extension = Extension::parse(s).unwrap();
    assert_eq!(extension.extension_type, ExtensionType::I);
    assert_eq!(extension.number_of_extensions, 2);
    assert_eq!(extension.extensions, vec![(36, 38, "FXA".into()), (39, 40, "SIU".into())]);

    // negative, too short
    let s = "I0";
    assert!(Extension::parse(s).is_err());

    // negative, valid start, invalid end
    let s = "I0236A8FXA3940SIU";
    assert!(Extension::parse(s).is_err());

    // negative, invalid start, valid end
    let s = "I0A3638FXA3940SIU";
    assert!(Extension::parse(s).is_err());

    // negative
    let s = "A0A3638FXA3940SIU";
    assert!(Extension::parse(s).is_err());
}

#[test]
fn fix_parsed_correctly() {
    //          0         1         2         3         4         5         6
    //          0123456789012345678901234567890123456789012345678901234567890123456
    let line = "B0941395152202N00032723WA001140015000854106968064092190039002770100";
    let record = Record::parse(line).unwrap();
    if let Record::B(fix) = record {
        let Fix { timestamp, coordinates, pressure_alt, gps_alt, extension } = fix;

        let true_coordinate = Coordinate {
            latitude: Latitude { degrees: 51, minutes_thousandths: 52202, is_north: true },
            longitude: Longitude { degrees: 0, minutes_thousandths: 32723, is_east: false },
        };

        assert_eq!(Time::from_hms(9, 41, 39).unwrap(), timestamp);
        assert_eq!(true_coordinate, coordinates);
        assert_eq!(coordinates.latitude.minutes_thousandths as f32 / 1000., 52.202);
        assert_eq!(coordinates.longitude.minutes_thousandths as f32 / 1000., 32.723);
        assert_eq!(pressure_alt, 114);
        assert_eq!(gps_alt, Some(150));
        assert_eq!(extension, String::from("00854106968064092190039002770100"));
    } else {
        assert!(false)
    }
}

#[test]
fn fr_id_parsed_correctly() {
    let frid = FlightRecorderID::parse("AMMMNNNTEXTSTRING").unwrap();
    assert_eq!(frid.manufacturer, "MMM".to_string());
    assert_eq!(frid.id, "NNN".to_string());
    assert_eq!(frid.extension, "TEXTSTRING".to_string());
}

#[test]
fn example_file_can_be_parsed_without_errors() {
    let content = "AXXXABC FLIGHT:1
HFFXA035
HFDTE160701
HFPLTPILOTINCHARGE: Bloggs Bill D
HFCM2CREW2: Smith-Barry John A
HFGTYGLIDERTYPE: Schleicher ASH-25
HFGIDGLIDERID: ABCD-1234
HFDTM100GPSDATUM: WGS-1984
HFRFWFIRMWAREVERSION:6.4
HFRHWHARDWAREVERSION:3.0
HFFTYFRTYPE: Manufacturer, Model
HFGPSMarconiCanada: Superstar,12ch, max10000m
HFPRSPRESSALTSENSOR: Sensyn, XYZ1111, max11000m
HFCIDCOMPETITIONID: XYZ-78910
HFCCLCOMPETITIONCLASS:15m Motor Glider
I033638FXA3940SIU4143ENL
J010812HDT
C150701213841160701000102 500K Tri
C5111359N00101899W Lasham Clubhouse
C5110179N00102644W Lasham Start S, Start
C5209092N00255227W Sarnesfield, TP1
C5230147N00017612W Norman Cross, TP2
C5110179N00102644W Lasham Start S, Finish
C5111359N00101899W Lasham Clubhouse
F160240040609123624221821
B1602405407121N00249342WA002800042120509950
D20331
E160245PEV
B1602455107126N00149300WA002880042919509020
B1602505107134N00149283WA002900043221009015
B1602555107140N00149221WA002900043020009012
F1603000609123624221821
B1603005107150N00149202WA002910043225608009
E160305PEVCRLF
B1603055107180N00149185WA002910043521008015
B1603105107212N00149174WA002930043519608024
K16024800090
B1602485107220N00149150WA004940043619008018
B1602525107330N00149127WA004960043919508015
LXXXRURITANIAN STANDARD NATIONALS DAY 1
LXXXFLIGHT TIME: 4:14:25, TASK SPEED:58.48KTS
GREJNGJERJKNJKRE31895478537H43982FJN9248F942389T433T
GJNJK2489IERGNV3089IVJE9GO398535J3894N358954983O0934
GSKTO5427FGTNUT5621WKTC6714FT8957FGMKJ134527FGTR6751
GK2489IERGNV3089IVJE39GO398535J3894N358954983FTGY546
G12560DJUWT28719GTAOL5628FGWNIST78154INWTOLP7815FITN";
    content.lines().for_each(|line| {
        let rec = Record::parse(line);
        if rec.is_err() {
            println!("{line}");
            rec.unwrap();
        }
    })
}

#[test]
fn satellite_record_parsed_correctly() {
    let sat_record = Satellite::parse("F160240040609123624221821").unwrap();
    assert_eq!(sat_record.time, Time::from_hms(16, 2, 40).unwrap());
    assert_eq!(sat_record.satellite_ids.len(), 9);
}

#[test]
fn security_parsed_correctly() {
    let sec = Security::parse("GREJNGJERJKNJKRE31895478537H43982FJN9248F942389T433T").unwrap();
    assert_eq!(
        sec.security_code,
        "REJNGJERJKNJKRE31895478537H43982FJN9248F942389T433T".to_string()
    )
}

#[test]
fn declaration_time_parsed_correctly() {
    if let Ok(TaskInfo::DeclarationTime(decl_time)) = TaskInfo::parse("C070323213339000000000103")
    {
        assert_eq!(decl_time.time, Time::from_hms(21, 33, 39).unwrap());
        assert_eq!(decl_time.date, Date { d: 7, m: 3, y: 23 })
    } else {
        assert!(false)
    }
}

#[test]
fn task_point_parsed_correctly() {
    if let Ok(TaskInfo::TaskPoint(task_point)) =
        TaskInfo::parse("C3835269S17609420ETASA Taupo Start A")
    {
        assert_eq!(
            task_point.coordinate.latitude,
            Latitude { degrees: 38, minutes_thousandths: 35269, is_north: false }
        );
        assert_eq!(task_point.coordinate.latitude.minutes_thousandths as f32 / 1000., 35.269);

        assert_eq!(
            task_point.coordinate.longitude,
            Longitude { degrees: 176, minutes_thousandths: 9420, is_east: true }
        );
        assert_eq!(task_point.coordinate.longitude.minutes_thousandths as f32 / 1000., 9.42);

        assert_eq!(task_point.name.unwrap(), String::from("TASA Taupo Start A"))
    } else {
        assert!(false)
    }
}

#[test]
fn differential_gps_line_is_decoded() {
    assert_eq!(
        Record::parse("D21234"),
        Ok(Record::D(DiffGPS { qualifier: DiffGPSQualifier::DGPS, dgps_station_id: 1234 }))
    );
    assert_eq!(
        DiffGPS::parse("D31234"),
        Err(IGCError::DiffGPSInitError("'D31234''s qualifier must be either 1 or 2".to_string()))
    );
    assert_eq!(
        DiffGPS::parse("D01234"),
        Err(IGCError::DiffGPSInitError("'D01234''s qualifier must be either 1 or 2".to_string()))
    );
    assert_eq!(
        DiffGPS::parse("DA1234"),
        Err(IGCError::DiffGPSInitError(
            "'DA1234''s qualifier can not be parsed as a valid number".to_string()
        ))
    );
    assert_eq!(
        DiffGPS::parse("D112A4"),
        Err(IGCError::DiffGPSInitError(
            "'D112A4''s DGPS station ID can not be parsed as a valid number".to_string()
        ))
    );
    assert_eq!(
        DiffGPS::parse("D2123"),
        Err(IGCError::DiffGPSInitError(
            "'D2123 is not long enough to be parsed as a differential GPS record'".to_string()
        ))
    );
    assert!(DiffGPS::parse("D212345").is_err());
    assert_eq!(
        DiffGPS::parse("D2+123"),
        Err(IGCError::DiffGPSInitError(
            "'D2+123''s DGPS station ID can not be parsed as a valid number".to_string()
        ))
    );
    assert_eq!(
        DiffGPS::parse("D+1234"),
        Err(IGCError::DiffGPSInitError(
            "'D+1234''s qualifier can not be parsed as a valid number".to_string()
        ))
    );
    assert_eq!(
        DiffGPS::parse("D10000"),
        Ok(DiffGPS { qualifier: DiffGPSQualifier::GPS, dgps_station_id: 0 })
    );
    assert_eq!(
        DiffGPS::parse("D29999"),
        Ok(DiffGPS { qualifier: DiffGPSQualifier::DGPS, dgps_station_id: 9999 })
    );
}

#[test]
fn fix_line_is_decoded_by_columns() {
    let fix = Fix::parse("B1602405407121N00249342WA002800042120509950").unwrap();
    assert_eq!(fix.timestamp, Time { h: 16, m: 2, s: 40 });
    assert_eq!(
        fix.coordinates.latitude,
        Latitude { degrees: 54, minutes_thousandths: 7121, is_north: true }
    );
    assert_eq!(fix.coordinates.latitude.minutes_thousandths as f32 / 1000., 7.121);
    assert_eq!(
        fix.coordinates.longitude,
        Longitude { degrees: 2, minutes_thousandths: 49342, is_east: false }
    );
    assert_eq!(fix.coordinates.longitude.minutes_thousandths as f32 / 1000., 49.342);
    assert_eq!(fix.pressure_alt, 280);
    assert_eq!(fix.gps_alt, Some(421));
    assert_eq!(fix.extension, "20509950".to_string());
}

#[test]
fn fix_without_extension_is_decoded() {
    let fix = Fix::parse("B1602405407121N00249342WA0028000421").unwrap();
    assert_eq!(fix.pressure_alt, 280);
    assert_eq!(fix.gps_alt, Some(421));
    assert_eq!(fix.extension, "".to_string());
}

#[test]
fn void_fix_has_no_gps_altitude() {
    let valid = Fix::parse("B1602405407121N00249342WA002800042120509950").unwrap();
    for field in ["00421", "99999", "ABCDE", "     ", "-----", "ééééé"] {
        let line = format!("B1602405407121N00249342WV00280{}20509950", field);
        let fix = Fix::parse(&line).unwrap();
        assert_eq!(fix.gps_alt, None);
        assert_eq!(fix.pressure_alt, 280);
        assert_eq!(fix.timestamp, valid.timestamp);
        assert_eq!(fix.coordinates, valid.coordinates);
        assert_eq!(fix.extension, valid.extension);
    }
}

#[test]
fn fix_altitudes_may_be_negative() {
    let fix = Fix::parse("B1602405407121N00249342WA-0012-0034").unwrap();
    assert_eq!(fix.pressure_alt, -12);
    assert_eq!(fix.gps_alt, Some(-34));
    let fix = Fix::parse("B1602405407121N00249342WA32767-0000").unwrap();
    assert_eq!(fix.pressure_alt, 32767);
    assert_eq!(fix.gps_alt, Some(0));
}

#[test]
fn fix_failures_are_classified() {
    let short = "B1602405407121N00249342WA002800042";
    assert_eq!(
        Fix::parse(short),
        Err(IGCError::FixInitError(format!("\"{}\" is too short to be parsed as a fix", short)))
    );
    let other = "X1602405407121N00249342WA0028000421";
    assert_eq!(
        Fix::parse(other),
        Err(IGCError::FixInitError(format!(
            "\"{}\" does not start with B and can therefore not be parsed as a B record (Fix)",
            other
        )))
    );
    assert_eq!(
        Fix::parse("B2502405407121N00249342WA0028000421"),
        Err(IGCError::TimeInitError(
            "25 hours are too many, there must be less than 24 hours".to_string()
        ))
    );
    assert_eq!(
        Fix::parse("B1602405407121Q00249342WA0028000421"),
        Err(IGCError::CoordinateInitError(
            "'Q' is not a valid latitude compass direction".to_string()
        ))
    );
    let flag = "B1602405407121N00249342WX0028000421";
    assert_eq!(
        Fix::parse(flag),
        Err(IGCError::FixInitError(format!(
            "\"{}\" does not have A or V in GPS validity field",
            flag
        )))
    );
    let gps = "B1602405407121N00249342WA002800042X";
    assert_eq!(
        Fix::parse(gps),
        Err(IGCError::FixInitError(format!("\"{}\" could not parse GPS altitude", gps)))
    );
    let pressure = "B1602405407121N00249342WA0028X00421";
    assert_eq!(
        Fix::parse(pressure),
        Err(IGCError::FixInitError(format!("\"{}\" could not parse pressure altitude", pressure)))
    );
    let both = "B1602405407121N00249342WA0028X0042X";
    assert_eq!(
        Fix::parse(both),
        Err(IGCError::FixInitError(format!("\"{}\" could not parse pressure altitude", both)))
    );
    let all = "B1602405407121N00249342WX0028X0042X";
    assert_eq!(
        Fix::parse(all),
        Err(IGCError::FixInitError(format!(
            "\"{}\" does not have A or V in GPS validity field",
            all
        )))
    );
    let void = "B1602405407121N00249342WV0028X0042X";
    assert_eq!(
        Fix::parse(void),
        Err(IGCError::FixInitError(format!("\"{}\" could not parse pressure altitude", void)))
    );
    let large = "B1602405407121N00249342WA3276800421";
    assert_eq!(
        Fix::parse(large),
        Err(IGCError::FixInitError(format!("\"{}\" could not parse pressure altitude", large)))
    );
}

#[test]
fn flight_recorder_id_needs_seven_characters() {
    assert_eq!(
        FlightRecorderID::parse("AMMMNN"),
        Err(IGCError::FRIDInitError("'AMMMNN' is too short for an A record".to_string()))
    );
    assert_eq!(
        FlightRecorderID::parse("AMMMNNN"),
        Ok(FlightRecorderID {
            manufacturer: "MMM".to_string(),
            id: "NNN".to_string(),
            extension: "".to_string(),
        })
    );
}

#[test]
fn columns_are_counted_in_characters() {
    let frid = FlightRecorderID::parse("AÄÖÜNNNé").unwrap();
    assert_eq!(frid.manufacturer, "ÄÖÜ".to_string());
    assert_eq!(frid.id, "NNN".to_string());
    assert_eq!(frid.extension, "é".to_string());
    assert!(Record::parse("Bééééééééééééééééééééééééééééééééééé").is_err());
    assert!(Record::parse("é").is_err());
}

#[test]
fn extension_length_follows_the_count() {
    for line in ["I013638FXA3", "I013638FX", "I023638FXA", "I003638FXA", "J0136", "I99"] {
        assert_eq!(
            Extension::parse(line),
            Err(IGCError::ExtensionInitError(format!(
                "'{}' does not have the correct length according to number of extensions",
                line
            )))
        );
    }
    assert_eq!(
        Extension::parse("I00"),
        Ok(Extension {
            extension_type: ExtensionType::I,
            number_of_extensions: 0,
            extensions: vec![],
        })
    );
    assert_eq!(
        Extension::parse("J010812HDT"),
        Ok(Extension {
            extension_type: ExtensionType::J,
            number_of_extensions: 1,
            extensions: vec![(8, 12, "HDT".to_string())],
        })
    );
    let mut long = String::from("I40");
    for _ in 0..40 {
        long.push_str("3638FXA");
    }
    let extension = Extension::parse(&long).unwrap();
    assert_eq!(extension.number_of_extensions, 40);
    assert_eq!(extension.extensions.len(), 40);
    assert_eq!(extension.extensions[39], (36, 38, "FXA".to_string()));
    long.push('X');
    assert!(Extension::parse(&long).is_err());
}

#[test]
fn extension_failures_are_classified() {
    assert_eq!(
        Extension::parse(""),
        Err(IGCError::ExtensionInitError(
            "'' does not start with a valid prefix for an extension".to_string()
        ))
    );
    assert_eq!(
        Extension::parse("A0A3638FXA3940SIU"),
        Err(IGCError::ExtensionInitError(
            "'A0A3638FXA3940SIU' does not start with a valid prefix for an extension".to_string()
        ))
    );
    assert_eq!(
        Extension::parse("I0"),
        Err(IGCError::ExtensionInitError(
            "'I0' is too short to be parsed as a fix extension".to_string()
        ))
    );
    assert_eq!(
        Extension::parse("I0A3638FXA3940SIU"),
        Err(IGCError::ExtensionInitError(
            "'I0A3638FXA3940SIU' does not have a valid number of extensions field".to_string()
        ))
    );
    assert_eq!(
        Extension::parse("I0236A8FXA3940SIU"),
        Err(IGCError::ExtensionInitError(
            "'I0236A8FXA3940SIU' has invalid start/end characters".to_string()
        ))
    );
    assert_eq!(
        Extension::parse("I+13638FXA"),
        Err(IGCError::ExtensionInitError(
            "'I+13638FXA' does not have a valid number of extensions field".to_string()
        ))
    );
    assert_eq!(
        Extension::parse("I01+638FXA"),
        Err(IGCError::ExtensionInitError(
            "'I01+638FXA' has invalid start/end characters".to_string()
        ))
    );
    assert_eq!(
        Extension::parse("I023638FXA39X0SIU"),
        Err(IGCError::ExtensionInitError(
            "'I023638FXA39X0SIU' has invalid start/end characters".to_string()
        ))
    );
}

#[test]
fn event_failures_are_classified() {
    assert_eq!(
        Event::parse("E160245PE"),
        Err(IGCError::EventInitError(
            "'E160245PE' is too short to be parsed as an event record".to_string()
        ))
    );
    assert_eq!(
        Event::parse("E1602X5PEV"),
        Err(IGCError::TimeInitError("unable to parse \"1602X5\" as numbers".to_string()))
    );
    let event = Event::parse("E160305PEVCRLF").unwrap();
    assert!(event.is_pev());
    assert_eq!(event.extension, "CRLF".to_string());
    let event = Event::parse("E160305ATSCRLF").unwrap();
    assert!(!event.is_pev());
    let event = Event { time: Time { h: 0, m: 0, s: 0 }, event_type: "PEVX".into(), extension: "".into() };
    assert!(!event.is_pev());
    let event = Event { time: Time { h: 0, m: 0, s: 0 }, event_type: "PE".into(), extension: "".into() };
    assert!(!event.is_pev());
}

#[test]
fn satellite_ids_are_pairs_of_characters() {
    let satellite = Satellite::parse("F160240040609123624221821").unwrap();
    assert_eq!(
        satellite.satellite_ids,
        vec!["04", "06", "09", "12", "36", "24", "22", "18", "21"]
    );
    let satellite = Satellite::parse("F16024004060").unwrap();
    assert_eq!(satellite.satellite_ids, vec!["04", "06", "0"]);
    let satellite = Satellite::parse("F160240").unwrap();
    assert_eq!(satellite.satellite_ids.len(), 0);
    assert_eq!(
        Satellite::parse("F16024"),
        Err(IGCError::SatelliteInitError(
            "'F16024' is too short to be parsed as a satellite record".to_string()
        ))
    );
    assert!(matches!(Satellite::parse("F16026004"), Err(IGCError::TimeInitError(_))));
}

#[test]
fn security_and_comment_and_data_fix() {
    assert_eq!(Security::parse("G"), Ok(Security { security_code: "".to_string() }));
    assert_eq!(
        Security::parse(""),
        Err(IGCError::SecurityInitError("'' is too short to be a security tag".to_string()))
    );
    assert_eq!(Security::parse("GX"), Ok(Security { security_code: "X".to_string() }));
    assert_eq!(
        Comment::parse(""),
        Err(IGCError::CommentInitError("'' is too short to be a comment".to_string()))
    );
    assert_eq!(Comment::parse("L"), Ok(Comment { content: "".to_string() }));
    assert_eq!(
        Comment::parse("LXXXFLIGHT TIME: 4:14:25"),
        Ok(Comment { content: "XXXFLIGHT TIME: 4:14:25".to_string() })
    );
    assert_eq!(
        DataFix::parse("K16024800090"),
        Ok(DataFix { time: Time { h: 16, m: 2, s: 48 }, content: "00090".to_string() })
    );
    assert_eq!(
        DataFix::parse("K16024"),
        Err(IGCError::DataFixInitError(
            "'K16024' is too short to be parsed as a data fix".to_string()
        ))
    );
    assert!(matches!(DataFix::parse("K996024"), Err(IGCError::TimeInitError(_))));
}

#[test]
fn task_info_is_told_apart_by_its_digits() {
    let declared = TaskInfo::parse("C150701213841160701000102 500K Tri").unwrap();
    match declared {
        TaskInfo::DeclarationTime(declared) => {
            assert_eq!(declared.date, Date { d: 15, m: 7, y: 1 });
            assert_eq!(declared.time, Time { h: 21, m: 38, s: 41 });
            assert_eq!(declared.get_extra(), "160701000102 500K Tri".to_string());
        }
        TaskInfo::TaskPoint(_) => panic!("a declaration time was expected"),
    }
    let point = TaskInfo::parse("C5111359N00101899W").unwrap();
    match point {
        TaskInfo::TaskPoint(point) => {
            assert_eq!(point.name, None);
            assert_eq!(point.coordinate.latitude.degrees, 51);
        }
        TaskInfo::DeclarationTime(_) => panic!("a task point was expected"),
    }
    assert_eq!(
        TaskInfo::parse("C5111359N0010189"),
        Err(IGCError::TaskInfoInitError(
            "'C5111359N0010189' is too short to be parsed as kind of task info record".to_string()
        ))
    );
    for line in ["C15070121384116070", "C150701213841160701", "C1507012138411607010001"] {
        match TaskInfo::parse(line) {
            Ok(TaskInfo::DeclarationTime(declared)) => {
                assert_eq!(declared.date, Date { d: 15, m: 7, y: 1 });
                assert_eq!(declared.time, Time { h: 21, m: 38, s: 41 });
                assert_eq!(declared.get_extra(), line[13..].to_string());
            }
            _ => panic!("a declaration time was expected"),
        }
    }
    match DeclarationTime::parse("C150701213841") {
        Ok(declared) => assert_eq!(declared.get_extra(), "".to_string()),
        Err(_) => panic!("a declaration time was expected"),
    }
    assert_eq!(
        DeclarationTime::parse("C15070121384"),
        Err(IGCError::TaskInfoInitError(
            "'C15070121384' is too short to be a declaration time record".to_string()
        ))
    );
    assert_eq!(
        TaskPoint::parse("C5111359N0010189"),
        Err(IGCError::TaskInfoInitError(
            "'C5111359N0010189' is too short to be a task point record".to_string()
        ))
    );
    assert!(matches!(
        DeclarationTime::parse("C320701213841160701000102"),
        Err(IGCError::DateInitError(_))
    ));
    assert!(matches!(
        DeclarationTime::parse("C150701253841160701000102"),
        Err(IGCError::TimeInitError(_))
    ));
    assert!(matches!(
        TaskInfo::parse("C5111359X00101899W Lasham"),
        Err(IGCError::CoordinateInitError(_))
    ));
}

#[test]
fn file_headers_are_decoded() {
    assert_eq!(FileHeader::parse("HFDTE160701"), Ok(FileHeader::Date(Date { d: 16, m: 7, y: 1 })));
    assert_eq!(FileHeader::parse("HFFXA035"), Ok(FileHeader::FixAccuracy(35)));
    assert_eq!(
        FileHeader::parse("HFPLTPILOTINCHARGE: Bloggs Bill D"),
        Ok(FileHeader::PilotInCharge(" Bloggs Bill D".to_string()))
    );
    assert_eq!(
        FileHeader::parse("HFCM2CREW2: Smith-Barry John A"),
        Ok(FileHeader::SecondPilot(" Smith-Barry John A".to_string()))
    );
    assert_eq!(
        FileHeader::parse("HFGTYGLIDERTYPE: Schleicher ASH-25"),
        Ok(FileHeader::GliderType(" Schleicher ASH-25".to_string()))
    );
    assert_eq!(
        FileHeader::parse("HFGIDGLIDERID: ABCD-1234"),
        Ok(FileHeader::GliderID(" ABCD-1234".to_string()))
    );
    assert_eq!(
        FileHeader::parse("HFDTM100GPSDATUM: WGS-1984"),
        Ok(FileHeader::GPSDatum(" WGS-1984".to_string()))
    );
    assert_eq!(
        FileHeader::parse("HFRFWFIRMWAREVERSION:6.4"),
        Ok(FileHeader::Firmware("6.4".to_string()))
    );
    assert_eq!(
        FileHeader::parse("HFRHWHARDWAREVERSION:3.0"),
        Ok(FileHeader::Hardware("3.0".to_string()))
    );
    assert_eq!(
        FileHeader::parse("HFFTYFRTYPE: Manufacturer, Model"),
        Ok(FileHeader::LoggerType(" Manufacturer, Model".to_string()))
    );
    assert_eq!(
        FileHeader::parse("HFGPSMarconiCanada: Superstar,12ch, max10000m"),
        Ok(FileHeader::GPSManufacturer("MarconiCanada: Superstar,12ch, max10000m".to_string()))
    );
    assert_eq!(
        FileHeader::parse("HFPRSPRESSALTSENSOR: Sensyn, XYZ1111, max11000m"),
        Ok(FileHeader::PressureSensor(" Sensyn, XYZ1111, max11000m".to_string()))
    );
    assert_eq!(
        FileHeader::parse("HFCIDCOMPETITIONID: XYZ-78910"),
        Ok(FileHeader::CompetitionID(" XYZ-78910".to_string()))
    );
    assert_eq!(
        FileHeader::parse("HFCCLCOMPETITIONCLASS:15m Motor Glider"),
        Ok(FileHeader::CompetitionClass("15m Motor Glider".to_string()))
    );
    assert_eq!(
        FileHeader::parse("HFPLTPILOTINCHARGE:"),
        Ok(FileHeader::PilotInCharge("".to_string()))
    );
    assert_eq!(FileHeader::parse("HFGPS"), Ok(FileHeader::GPSManufacturer("".to_string())));
}

#[test]
fn file_header_failures_are_classified() {
    assert_eq!(
        FileHeader::parse("HFDT"),
        Err(IGCError::FileHeaderInitError(
            "'HFDT' is too short to be parsed as a file header".to_string()
        ))
    );
    assert_eq!(
        FileHeader::parse("HFXYZsomething"),
        Err(IGCError::FileHeaderInitError(
            "'HFXYZsomething' does not have a valid file header start".to_string()
        ))
    );
    assert_eq!(
        FileHeader::parse("HFDTE1607011"),
        Err(IGCError::FileHeaderInitError(
            "'HFDTE1607011' does not have the correct length to be parsed as a file header date"
                .to_string()
        ))
    );
    assert!(matches!(FileHeader::parse("HFDTE321301"), Err(IGCError::DateInitError(_))));
    assert_eq!(
        FileHeader::parse("HFFXA35"),
        Err(IGCError::FileHeaderInitError(
            "'HFFXA35' does not have the correct length to be parsed as a file header fix accuracy"
                .to_string()
        ))
    );
    assert_eq!(
        FileHeader::parse("HFFXA0+5"),
        Err(IGCError::FileHeaderInitError(
            "'HFFXA0+5' can not be parsed as a fix accuracy number".to_string()
        ))
    );
    assert_eq!(
        FileHeader::parse("HFFXA0X5"),
        Err(IGCError::FileHeaderInitError(
            "'HFFXA0X5' can not be parsed as a fix accuracy number".to_string()
        ))
    );
    assert_eq!(
        FileHeader::parse("HFPLTPILOT"),
        Err(IGCError::FileHeaderInitError(
            "'HFPLTPILOT' is too short to hold the words of its file header".to_string()
        ))
    );
    assert_eq!(
        FileHeader::parse("HFPLTPILOTINCHARGE Bloggs Bill D"),
        Err(IGCError::FileHeaderInitError(
            "'HFPLTPILOTINCHARGE Bloggs Bill D' does not spell out the words of its file header"
                .to_string()
        ))
    );
    assert!(FileHeader::parse("HFCM2CREW3: Smith-Barry John A").is_err());
    assert!(FileHeader::parse("HFGTYGLIDERTYP: Schleicher ASH-25").is_err());
    assert!(FileHeader::parse("HFDTM100GPSDATUN: WGS-1984").is_err());
    assert!(FileHeader::parse("HFDTM10").is_err());
    assert!(FileHeader::parse("HFCCLCOMPETITIONCLASS 15m Motor Glider").is_err());
}

#[test]
fn header_content_follows_the_header_name() {
    assert_eq!(get_file_header_with_string_content("HFGPSabc", "HFGPS"), Ok("abc"));
    assert_eq!(get_file_header_with_string_content("HFGPS", "HFGPS"), Ok(""));
    assert!(get_file_header_with_string_content("HFGP", "HFGPS").is_err());
    assert!(get_file_header_with_string_content("HFGPXabc", "HFGPS").is_err());
    assert_eq!(get_file_header_with_string_content("anything", ""), Ok("anything"));
}

#[test]
fn lines_are_dispatched_by_their_first_letter() {
    assert!(matches!(Record::parse("AXXXABC FLIGHT:1"), Ok(Record::A(_))));
    assert!(matches!(
        Record::parse("B1602405407121N00249342WA002800042120509950"),
        Ok(Record::B(_))
    ));
    assert!(matches!(Record::parse("C5111359N00101899W Lasham Clubhouse"), Ok(Record::C(_))));
    assert!(matches!(Record::parse("D20331"), Ok(Record::D(_))));
    assert!(matches!(Record::parse("E160245PEV"), Ok(Record::E(_))));
    assert!(matches!(Record::parse("F160240040609123624221821"), Ok(Record::F(_))));
    assert!(matches!(Record::parse("GREJNGJERJKNJKRE"), Ok(Record::G(_))));
    assert!(matches!(Record::parse("HFFXA035"), Ok(Record::H(_))));
    assert!(matches!(Record::parse("I033638FXA3940SIU4143ENL"), Ok(Record::I(_))));
    assert!(matches!(Record::parse("J010812HDT"), Ok(Record::J(_))));
    assert!(matches!(Record::parse("K16024800090"), Ok(Record::K(_))));
    assert!(matches!(Record::parse("LXXXRURITANIAN"), Ok(Record::L(_))));
    match Record::parse("I033638FXA3940SIU4143ENL") {
        Ok(Record::I(extension)) => assert_eq!(extension.extension_type, ExtensionType::I),
        _ => panic!("an I record was expected"),
    }
    match Record::parse("J010812HDT") {
        Ok(Record::J(extension)) => assert_eq!(extension.extension_type, ExtensionType::J),
        _ => panic!("a J record was expected"),
    }
}

#[test]
fn lines_without_a_known_letter_are_refused() {
    assert_eq!(
        Record::parse(""),
        Err(IGCError::RecordInitError("'' could not get first character".to_string()))
    );
    for line in ["M123", "Z", "a160240", "b", " B", "0", "@", "\r"] {
        assert_eq!(
            Record::parse(line),
            Err(IGCError::RecordInitError(format!(
                "'{}' does not have a valid starting letter",
                line
            )))
        );
    }
    assert!(matches!(Record::parse("A"), Err(IGCError::FRIDInitError(_))));
    assert!(matches!(Record::parse("B"), Err(IGCError::FixInitError(_))));
    assert!(matches!(Record::parse("C"), Err(IGCError::TaskInfoInitError(_))));
    assert!(matches!(Record::parse("D"), Err(IGCError::DiffGPSInitError(_))));
    assert!(matches!(Record::parse("E"), Err(IGCError::EventInitError(_))));
    assert!(matches!(Record::parse("F"), Err(IGCError::SatelliteInitError(_))));
    assert_eq!(Record::parse("G"), Ok(Record::G(Security { security_code: "".to_string() })));
    assert!(matches!(Record::parse("H"), Err(IGCError::FileHeaderInitError(_))));
    assert!(matches!(Record::parse("I"), Err(IGCError::ExtensionInitError(_))));
    assert!(matches!(Record::parse("J"), Err(IGCError::ExtensionInitError(_))));
    assert!(matches!(Record::parse("K"), Err(IGCError::DataFixInitError(_))));
    assert_eq!(Record::parse("L"), Ok(Record::L(Comment { content: "".to_string() })));
}

#[test]
fn failures_are_rendered_with_their_heading() {
    assert_eq!(
        Time::parse("1").unwrap_err().to_string(),
        "Error initializing time: \"1\" is not 6 characters long"
    );
    assert_eq!(
        Record::parse("Z").unwrap_err().to_string(),
        "Error initializing record: 'Z' does not have a valid starting letter"
    );
    assert_eq!(
        IGCError::IGCFileInitError("x".to_string()).to_string(),
        "Error initializing IGC file: x"
    );
    assert_eq!(IGCError::DiffGPSInitError("x".to_string()).to_string(), "Error initializing GPS: x");
    assert_eq!(IGCError::FRIDInitError("why".to_string()).message(), "why");
}
