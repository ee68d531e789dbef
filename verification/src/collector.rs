use crate::error::{outcome_view, outcomes_view, IGCError, IGCErrorView};
use crate::records::comment::{Comment, CommentView};
use crate::records::data_fix::{DataFix, DataFixView};
use crate::records::diff_gps::DiffGPS;
use crate::records::event::{Event, EventView};
use crate::records::extension::{Extension, ExtensionView};
use crate::records::file_header::{FileHeader, FileHeaderView};
use crate::records::fix::{Fix, FixView};
use crate::records::flight_recorder_id::{FlightRecorderID, FlightRecorderIDView};
use crate::records::satellite::{Satellite, SatelliteView};
use crate::records::security::{Security, SecurityView};
use crate::records::task_info::{TaskInfo, TaskInfoView};
use crate::records::{has_valid_start, Record};
use crate::text::{first_char, lines_of, split_lines, texts};
use vstd::prelude::*;

verus! {

/// The kinds of record that a pass over a file collects, one flag for each
/// kind.
#[derive(Debug, Clone, Copy, PartialEq, Eq, Structural)]
pub struct Selection {
    pub fr_ids: bool,
    pub fixes: bool,
    pub task_info: bool,
    pub differential_gps_records: bool,
    pub events: bool,
    pub satellite_vec: bool,
    pub security_vec: bool,
    pub file_header_vec: bool,
    pub i_extension_vec: bool,
    pub j_extension_vec: bool,
    pub data_fix_vec: bool,
    pub comment_vec: bool,
}

impl Selection {
    /// The selection of every kind.
    pub fn all() -> (selection: Selection)
        ensures
            selection == (Selection {
                fr_ids: true,
                fixes: true,
                task_info: true,
                differential_gps_records: true,
                events: true,
                satellite_vec: true,
                security_vec: true,
                file_header_vec: true,
                i_extension_vec: true,
                j_extension_vec: true,
                data_fix_vec: true,
                comment_vec: true,
            }),
    {
        Selection {
            fr_ids: true,
            fixes: true,
            task_info: true,
            differential_gps_records: true,
            events: true,
            satellite_vec: true,
            security_vec: true,
            file_header_vec: true,
            i_extension_vec: true,
            j_extension_vec: true,
            data_fix_vec: true,
            comment_vec: true,
        }
    }
}

/// What a pass over a file collected: for each kind that was selected, the
/// outcomes of the lines of that kind, in the order of the lines; for each
/// other kind, nothing, which is not the same as no outcomes.
#[derive(Debug, Clone, PartialEq, Eq)]
pub struct Outcomes {
    pub fr_ids: Option<Vec<Result<FlightRecorderID, IGCError>>>,
    pub fixes: Option<Vec<Result<Fix, IGCError>>>,
    pub task_info: Option<Vec<Result<TaskInfo, IGCError>>>,
    pub differential_gps_records: Option<Vec<Result<DiffGPS, IGCError>>>,
    pub events: Option<Vec<Result<Event, IGCError>>>,
    pub satellite_vec: Option<Vec<Result<Satellite, IGCError>>>,
    pub security_vec: Option<Vec<Result<Security, IGCError>>>,
    pub file_header_vec: Option<Vec<Result<FileHeader, IGCError>>>,
    pub i_extension_vec: Option<Vec<Result<Extension, IGCError>>>,
    pub j_extension_vec: Option<Vec<Result<Extension, IGCError>>>,
    pub data_fix_vec: Option<Vec<Result<DataFix, IGCError>>>,
    pub comment_vec: Option<Vec<Result<Comment, IGCError>>>,
}

/// The mathematical value of [`Outcomes`].
pub struct OutcomesView {
    pub fr_ids: Option<Seq<Result<FlightRecorderIDView, IGCErrorView>>>,
    pub fixes: Option<Seq<Result<FixView, IGCErrorView>>>,
    pub task_info: Option<Seq<Result<TaskInfoView, IGCErrorView>>>,
    pub differential_gps_records: Option<Seq<Result<DiffGPS, IGCErrorView>>>,
    pub events: Option<Seq<Result<EventView, IGCErrorView>>>,
    pub satellite_vec: Option<Seq<Result<SatelliteView, IGCErrorView>>>,
    pub security_vec: Option<Seq<Result<SecurityView, IGCErrorView>>>,
    pub file_header_vec: Option<Seq<Result<FileHeaderView, IGCErrorView>>>,
    pub i_extension_vec: Option<Seq<Result<ExtensionView, IGCErrorView>>>,
    pub j_extension_vec: Option<Seq<Result<ExtensionView, IGCErrorView>>>,
    pub data_fix_vec: Option<Seq<Result<DataFixView, IGCErrorView>>>,
    pub comment_vec: Option<Seq<Result<CommentView, IGCErrorView>>>,
}

/// The mathematical value of the outcomes of one kind.
pub open spec fn slot_view<T: View>(slot: Option<Vec<Result<T, IGCError>>>) -> Option<
    Seq<Result<T::V, IGCErrorView>>,
> {
    match slot {
        Some(outcomes) => Some(outcomes_view(outcomes@)),
        None => None,
    }
}

impl View for Outcomes {
    type V = OutcomesView;

    open spec fn view(&self) -> OutcomesView {
        OutcomesView {
            fr_ids: slot_view(self.fr_ids),
            fixes: slot_view(self.fixes),
            task_info: slot_view(self.task_info),
            differential_gps_records: slot_view(self.differential_gps_records),
            events: slot_view(self.events),
            satellite_vec: slot_view(self.satellite_vec),
            security_vec: slot_view(self.security_vec),
            file_header_vec: slot_view(self.file_header_vec),
            i_extension_vec: slot_view(self.i_extension_vec),
            j_extension_vec: slot_view(self.j_extension_vec),
            data_fix_vec: slot_view(self.data_fix_vec),
            comment_vec: slot_view(self.comment_vec),
        }
    }
}

/// Whether a line begins with the given letter.
pub open spec fn starts_with_letter(line: Seq<char>, letter: char) -> bool {
    line.len() > 0 && line[0] == letter
}

/// What `decode` makes of each of the lines that begin with `letter`, in
/// the order of the lines.
pub open spec fn outcomes_of<T>(
    lines: Seq<Seq<char>>,
    letter: char,
    decode: spec_fn(Seq<char>) -> T,
) -> Seq<T>
    decreases lines.len(),
{
    if lines.len() == 0 {
        Seq::empty()
    } else {
        let before = outcomes_of(lines.drop_last(), letter, decode);
        if starts_with_letter(lines.last(), letter) {
            before.push(decode(lines.last()))
        } else {
            before
        }
    }
}

/// The outcomes of the A lines among `lines`.
pub open spec fn fr_ids_of(lines: Seq<Seq<char>>) -> Seq<Result<FlightRecorderIDView, IGCErrorView>> {
    outcomes_of(lines, 'A', |line: Seq<char>| FlightRecorderID::spec_parse(line))
}

/// The outcomes of the B lines among `lines`.
pub open spec fn fixes_of(lines: Seq<Seq<char>>) -> Seq<Result<FixView, IGCErrorView>> {
    outcomes_of(lines, 'B', |line: Seq<char>| Fix::spec_parse(line))
}

/// The outcomes of the C lines among `lines`.
pub open spec fn task_info_of(lines: Seq<Seq<char>>) -> Seq<Result<TaskInfoView, IGCErrorView>> {
    outcomes_of(lines, 'C', |line: Seq<char>| TaskInfo::spec_parse(line))
}

/// The outcomes of the D lines among `lines`.
pub open spec fn differential_gps_records_of(lines: Seq<Seq<char>>) -> Seq<Result<DiffGPS, IGCErrorView>> {
    outcomes_of(lines, 'D', |line: Seq<char>| DiffGPS::spec_parse(line))
}

/// The outcomes of the E lines among `lines`.
pub open spec fn events_of(lines: Seq<Seq<char>>) -> Seq<Result<EventView, IGCErrorView>> {
    outcomes_of(lines, 'E', |line: Seq<char>| Event::spec_parse(line))
}

/// The outcomes of the F lines among `lines`.
pub open spec fn satellite_vec_of(lines: Seq<Seq<char>>) -> Seq<Result<SatelliteView, IGCErrorView>> {
    outcomes_of(lines, 'F', |line: Seq<char>| Satellite::spec_parse(line))
}

/// The outcomes of the G lines among `lines`.
pub open spec fn security_vec_of(lines: Seq<Seq<char>>) -> Seq<Result<SecurityView, IGCErrorView>> {
    outcomes_of(lines, 'G', |line: Seq<char>| Security::spec_parse(line))
}

/// The outcomes of the H lines among `lines`.
pub open spec fn file_header_vec_of(lines: Seq<Seq<char>>) -> Seq<Result<FileHeaderView, IGCErrorView>> {
    outcomes_of(lines, 'H', |line: Seq<char>| FileHeader::spec_parse(line))
}

/// The outcomes of the I lines among `lines`.
pub open spec fn i_extension_vec_of(lines: Seq<Seq<char>>) -> Seq<Result<ExtensionView, IGCErrorView>> {
    outcomes_of(lines, 'I', |line: Seq<char>| Extension::spec_parse(line))
}

/// The outcomes of the J lines among `lines`.
pub open spec fn j_extension_vec_of(lines: Seq<Seq<char>>) -> Seq<Result<ExtensionView, IGCErrorView>> {
    outcomes_of(lines, 'J', |line: Seq<char>| Extension::spec_parse(line))
}

/// The outcomes of the K lines among `lines`.
pub open spec fn data_fix_vec_of(lines: Seq<Seq<char>>) -> Seq<Result<DataFixView, IGCErrorView>> {
    outcomes_of(lines, 'K', |line: Seq<char>| DataFix::spec_parse(line))
}

/// The outcomes of the L lines among `lines`.
pub open spec fn comment_vec_of(lines: Seq<Seq<char>>) -> Seq<Result<CommentView, IGCErrorView>> {
    outcomes_of(lines, 'L', |line: Seq<char>| Comment::spec_parse(line))
}

/// What a pass over `lines` collects under `selection`.
pub open spec fn collected(lines: Seq<Seq<char>>, selection: Selection) -> OutcomesView {
    OutcomesView {
        fr_ids: if selection.fr_ids {
            Some(fr_ids_of(lines))
        } else {
            None
        },
        fixes: if selection.fixes {
            Some(fixes_of(lines))
        } else {
            None
        },
        task_info: if selection.task_info {
            Some(task_info_of(lines))
        } else {
            None
        },
        differential_gps_records: if selection.differential_gps_records {
            Some(differential_gps_records_of(lines))
        } else {
            None
        },
        events: if selection.events {
            Some(events_of(lines))
        } else {
            None
        },
        satellite_vec: if selection.satellite_vec {
            Some(satellite_vec_of(lines))
        } else {
            None
        },
        security_vec: if selection.security_vec {
            Some(security_vec_of(lines))
        } else {
            None
        },
        file_header_vec: if selection.file_header_vec {
            Some(file_header_vec_of(lines))
        } else {
            None
        },
        i_extension_vec: if selection.i_extension_vec {
            Some(i_extension_vec_of(lines))
        } else {
            None
        },
        j_extension_vec: if selection.j_extension_vec {
            Some(j_extension_vec_of(lines))
        } else {
            None
        },
        data_fix_vec: if selection.data_fix_vec {
            Some(data_fix_vec_of(lines))
        } else {
            None
        },
        comment_vec: if selection.comment_vec {
            Some(comment_vec_of(lines))
        } else {
            None
        },
    }
}

/// The index of the first line that does not begin with a letter from `A`
/// to `L`, if there is such a line.
pub open spec fn first_unknown_line(lines: Seq<Seq<char>>) -> Option<int>
    decreases lines.len(),
{
    if lines.len() == 0 {
        None
    } else {
        match first_unknown_line(lines.drop_last()) {
            Some(i) => Some(i),
            None => if has_valid_start(lines.last()) {
                None
            } else {
                Some(lines.len() - 1)
            },
        }
    }
}

/// What a pass over the text of a file gives. A line that does not begin
/// with a letter from `A` to `L` fails the whole pass, with a failure that
/// quotes the first such line. Otherwise the pass succeeds: a line that its
/// kind's decoder refuses is one failed outcome among those of its kind.
pub open spec fn spec_collect(content: Seq<char>, selection: Selection) -> Result<
    OutcomesView,
    IGCErrorView,
> {
    let lines = lines_of(content);
    match first_unknown_line(lines) {
        Some(i) => Err(
            IGCErrorView::IGCFileInitError(lines[i] + " does not have a valid start letter"@),
        ),
        None => Ok(collected(lines, selection)),
    }
}

/// An empty sequence of outcomes for a kind that is selected, nothing for
/// one that is not.
fn new_slot<T: View>(selected: bool) -> (slot: Option<Vec<Result<T, IGCError>>>)
    ensures
        slot_view(slot) == (if selected {
            Some(Seq::<Result<T::V, IGCErrorView>>::empty())
        } else {
            None
        }),
{
    if selected {
        let outcomes: Vec<Result<T, IGCError>> = Vec::new();
        assert(outcomes_view(outcomes@) =~= Seq::<Result<T::V, IGCErrorView>>::empty());
        Some(outcomes)
    } else {
        None
    }
}

/// Adds an outcome to those of its kind, if the kind is collected.
fn push_outcome<T: View>(slot: &mut Option<Vec<Result<T, IGCError>>>, outcome: Result<T, IGCError>)
    ensures
        slot_view(*final(slot)) == (match slot_view(*old(slot)) {
            Some(outcomes) => Some(outcomes.push(outcome_view(outcome))),
            None => None,
        }),
{
    match slot {
        Some(outcomes) => {
            let ghost before = outcomes@;
            outcomes.push(outcome);
            assert(outcomes_view(outcomes@) =~= outcomes_view(before).push(outcome_view(outcome)));
        },
        None => {},
    }
}

/// The outcomes of one kind with one more outcome behind them, where the
/// kind is collected.
pub open spec fn slot_with<T>(slot: Option<Seq<T>>, outcome: T) -> Option<Seq<T>> {
    match slot {
        Some(outcomes) => Some(outcomes.push(outcome)),
        None => None,
    }
}

/// What has been collected once one more line has been decoded: the
/// outcomes of the line's kind have what its decoder makes of the line
/// behind them, those of every other kind are as they were.
pub open spec fn recorded(before: OutcomesView, line: Seq<char>) -> OutcomesView {
    OutcomesView {
        fr_ids: if starts_with_letter(line, 'A') {
            slot_with(before.fr_ids, FlightRecorderID::spec_parse(line))
        } else {
            before.fr_ids
        },
        fixes: if starts_with_letter(line, 'B') {
            slot_with(before.fixes, Fix::spec_parse(line))
        } else {
            before.fixes
        },
        task_info: if starts_with_letter(line, 'C') {
            slot_with(before.task_info, TaskInfo::spec_parse(line))
        } else {
            before.task_info
        },
        differential_gps_records: if starts_with_letter(line, 'D') {
            slot_with(before.differential_gps_records, DiffGPS::spec_parse(line))
        } else {
            before.differential_gps_records
        },
        events: if starts_with_letter(line, 'E') {
            slot_with(before.events, Event::spec_parse(line))
        } else {
            before.events
        },
        satellite_vec: if starts_with_letter(line, 'F') {
            slot_with(before.satellite_vec, Satellite::spec_parse(line))
        } else {
            before.satellite_vec
        },
        security_vec: if starts_with_letter(line, 'G') {
            slot_with(before.security_vec, Security::spec_parse(line))
        } else {
            before.security_vec
        },
        file_header_vec: if starts_with_letter(line, 'H') {
            slot_with(before.file_header_vec, FileHeader::spec_parse(line))
        } else {
            before.file_header_vec
        },
        i_extension_vec: if starts_with_letter(line, 'I') {
            slot_with(before.i_extension_vec, Extension::spec_parse(line))
        } else {
            before.i_extension_vec
        },
        j_extension_vec: if starts_with_letter(line, 'J') {
            slot_with(before.j_extension_vec, Extension::spec_parse(line))
        } else {
            before.j_extension_vec
        },
        data_fix_vec: if starts_with_letter(line, 'K') {
            slot_with(before.data_fix_vec, DataFix::spec_parse(line))
        } else {
            before.data_fix_vec
        },
        comment_vec: if starts_with_letter(line, 'L') {
            slot_with(before.comment_vec, Comment::spec_parse(line))
        } else {
            before.comment_vec
        },
    }
}

/// A pass over some lines collects what the pass over all but the last of
/// them collects, and then what the last line adds.
pub proof fn lemma_collected_step(lines: Seq<Seq<char>>, selection: Selection)
    requires
        lines.len() > 0,
    ensures
        collected(lines, selection) == recorded(
            collected(lines.drop_last(), selection),
            lines.last(),
        ),
{
}

/// Decodes one line and adds the outcome to those of its kind, if the kind
/// is collected. Returns whether the line begins with a letter from `A` to
/// `L`; a line that does not leaves everything as it was.
fn record_line(outcomes: &mut Outcomes, line: &str) -> (known: bool)
    ensures
        known == has_valid_start(line@),
        known ==> final(outcomes)@ == recorded(old(outcomes)@, line@),
        !known ==> final(outcomes)@ == old(outcomes)@,
{
    match Record::parse(line) {
        Ok(Record::A(record)) => {
            push_outcome(&mut outcomes.fr_ids, Ok(record));
            true
        },
        Ok(Record::B(record)) => {
            push_outcome(&mut outcomes.fixes, Ok(record));
            true
        },
        Ok(Record::C(record)) => {
            push_outcome(&mut outcomes.task_info, Ok(record));
            true
        },
        Ok(Record::D(record)) => {
            push_outcome(&mut outcomes.differential_gps_records, Ok(record));
            true
        },
        Ok(Record::E(record)) => {
            push_outcome(&mut outcomes.events, Ok(record));
            true
        },
        Ok(Record::F(record)) => {
            push_outcome(&mut outcomes.satellite_vec, Ok(record));
            true
        },
        Ok(Record::G(record)) => {
            push_outcome(&mut outcomes.security_vec, Ok(record));
            true
        },
        Ok(Record::H(record)) => {
            push_outcome(&mut outcomes.file_header_vec, Ok(record));
            true
        },
        Ok(Record::I(record)) => {
            push_outcome(&mut outcomes.i_extension_vec, Ok(record));
            true
        },
        Ok(Record::J(record)) => {
            push_outcome(&mut outcomes.j_extension_vec, Ok(record));
            true
        },
        Ok(Record::K(record)) => {
            push_outcome(&mut outcomes.data_fix_vec, Ok(record));
            true
        },
        Ok(Record::L(record)) => {
            push_outcome(&mut outcomes.comment_vec, Ok(record));
            true
        },
        Err(error) => {
            match first_char(line) {
                Some('A') => {
                    push_outcome(&mut outcomes.fr_ids, Err(error));
                    true
                },
                Some('B') => {
                    push_outcome(&mut outcomes.fixes, Err(error));
                    true
                },
                Some('C') => {
                    push_outcome(&mut outcomes.task_info, Err(error));
                    true
                },
                Some('D') => {
                    push_outcome(&mut outcomes.differential_gps_records, Err(error));
                    true
                },
                Some('E') => {
                    push_outcome(&mut outcomes.events, Err(error));
                    true
                },
                Some('F') => {
                    push_outcome(&mut outcomes.satellite_vec, Err(error));
                    true
                },
                Some('G') => {
                    push_outcome(&mut outcomes.security_vec, Err(error));
                    true
                },
                Some('H') => {
                    push_outcome(&mut outcomes.file_header_vec, Err(error));
                    true
                },
                Some('I') => {
                    push_outcome(&mut outcomes.i_extension_vec, Err(error));
                    true
                },
                Some('J') => {
                    push_outcome(&mut outcomes.j_extension_vec, Err(error));
                    true
                },
                Some('K') => {
                    push_outcome(&mut outcomes.data_fix_vec, Err(error));
                    true
                },
                Some('L') => {
                    push_outcome(&mut outcomes.comment_vec, Err(error));
                    true
                },
                _ => false,
            }
        },
    }
}

/// Decodes every line of a file and collects the outcomes of the selected
/// kinds. Lines of other kinds are decoded and dropped.
pub fn collect(content: &str, selection: Selection) -> (r: Result<Outcomes, IGCError>)
    ensures
        outcome_view(r) == spec_collect(content@, selection),
{
    let lines = split_lines(content);
    let mut outcomes = Outcomes {
        fr_ids: new_slot(selection.fr_ids),
        fixes: new_slot(selection.fixes),
        task_info: new_slot(selection.task_info),
        differential_gps_records: new_slot(selection.differential_gps_records),
        events: new_slot(selection.events),
        satellite_vec: new_slot(selection.satellite_vec),
        security_vec: new_slot(selection.security_vec),
        file_header_vec: new_slot(selection.file_header_vec),
        i_extension_vec: new_slot(selection.i_extension_vec),
        j_extension_vec: new_slot(selection.j_extension_vec),
        data_fix_vec: new_slot(selection.data_fix_vec),
        comment_vec: new_slot(selection.comment_vec),
    };
    let mut i: usize = 0;
    while i < lines.len()
        invariant
            i <= lines.len(),
            texts(lines@) == lines_of(content@),
            first_unknown_line(texts(lines@).take(i as int)) is None,
            outcomes@ == collected(texts(lines@).take(i as int), selection),
        decreases lines.len() - i,
    {
        let line = lines[i].as_str();
        let ghost all = texts(lines@);
        proof {
            assert(all.take(i + 1).drop_last() =~= all.take(i as int));
            assert(all.take(i + 1).last() == line@);
            lemma_collected_step(all.take(i + 1), selection);
        }
        if !record_line(&mut outcomes, line) {
            proof {
                lemma_first_unknown_line_prefix(all, i + 1);
            }
            let mut text = String::from_str(line);
            text.append(" does not have a valid start letter");
            return Err(IGCError::IGCFileInitError(text));
        }
        i = i + 1;
    }
    assert(texts(lines@).take(lines@.len() as int) =~= texts(lines@));
    Ok(outcomes)
}

/// The first unknown line of a text's first lines is the first unknown line
/// of the whole text.
pub proof fn lemma_first_unknown_line_prefix(lines: Seq<Seq<char>>, n: int)
    requires
        0 <= n <= lines.len(),
        first_unknown_line(lines.take(n)) is Some,
    ensures
        first_unknown_line(lines) == first_unknown_line(lines.take(n)),
    decreases lines.len() - n,
{
    if n < lines.len() {
        assert(lines.take(n + 1).drop_last() =~= lines.take(n));
        lemma_first_unknown_line_prefix(lines, n + 1);
    } else {
        assert(lines.take(n) =~= lines);
    }
}

/// The first unknown line is unknown and no line before it is; where there
/// is none, every line begins with a letter from `A` to `L`.
pub proof fn lemma_first_unknown_line(lines: Seq<Seq<char>>)
    ensures
        match first_unknown_line(lines) {
            Some(i) => 0 <= i < lines.len() && !has_valid_start(lines[i]) && forall|j: int|
                0 <= j < i ==> has_valid_start(#[trigger] lines[j]),
            None => forall|j: int| 0 <= j < lines.len() ==> has_valid_start(#[trigger] lines[j]),
        },
    decreases lines.len(),
{
    if lines.len() > 0 {
        lemma_first_unknown_line(lines.drop_last());
        assert forall|j: int| 0 <= j < lines.len() - 1 implies lines.drop_last()[j]
            == lines[j] by {}
    }
}

/// One line that does not begin with a letter from `A` to `L` fails the
/// pass over the whole file, whatever the other lines hold and whichever
/// kinds are selected.
pub proof fn lemma_unknown_line_fails_the_pass(content: Seq<char>, selection: Selection, i: int)
    requires
        0 <= i < lines_of(content).len(),
        !has_valid_start(lines_of(content)[i]),
    ensures
        spec_collect(content, selection) matches Err(IGCErrorView::IGCFileInitError(_)),
{
    lemma_first_unknown_line(lines_of(content));
}

/// A file whose every line begins with a letter from `A` to `L` passes,
/// whether or not the decoders of the kinds accept the lines.
pub proof fn lemma_known_lines_pass(content: Seq<char>, selection: Selection)
    requires
        forall|i: int|
            0 <= i < lines_of(content).len() ==> has_valid_start(#[trigger] lines_of(content)[i]),
    ensures
        spec_collect(content, selection) == Ok::<OutcomesView, IGCErrorView>(
            collected(lines_of(content), selection),
        ),
{
    lemma_first_unknown_line(lines_of(content));
}

/// How many of the lines begin with `letter`.
pub open spec fn count_of(lines: Seq<Seq<char>>, letter: char) -> nat
    decreases lines.len(),
{
    if lines.len() == 0 {
        0
    } else if starts_with_letter(lines.last(), letter) {
        count_of(lines.drop_last(), letter) + 1
    } else {
        count_of(lines.drop_last(), letter)
    }
}

/// A kind has as many outcomes as there are lines of the kind.
pub proof fn lemma_outcomes_of_len<T>(
    lines: Seq<Seq<char>>,
    letter: char,
    decode: spec_fn(Seq<char>) -> T,
)
    ensures
        outcomes_of(lines, letter, decode).len() == count_of(lines, letter),
    decreases lines.len(),
{
    if lines.len() > 0 {
        lemma_outcomes_of_len(lines.drop_last(), letter, decode);
    }
}

/// Among the first lines of a text there are no more lines of a kind than
/// in the whole text.
pub proof fn lemma_count_of_prefix(lines: Seq<Seq<char>>, letter: char, n: int)
    requires
        0 <= n <= lines.len(),
    ensures
        count_of(lines.take(n), letter) <= count_of(lines, letter),
        n < lines.len() && starts_with_letter(lines[n], letter) ==> count_of(
            lines.take(n),
            letter,
        ) < count_of(lines, letter),
    decreases lines.len() - n,
{
    if n < lines.len() {
        assert(lines.take(n + 1).drop_last() =~= lines.take(n));
        lemma_count_of_prefix(lines, letter, n + 1);
    } else {
        assert(lines.take(n) =~= lines);
    }
}

/// The outcome of a line stands among those of its kind, at the place that
/// the line has among the lines of its kind: outcomes keep the order of
/// the lines.
pub proof fn lemma_outcomes_of_index<T>(
    lines: Seq<Seq<char>>,
    letter: char,
    decode: spec_fn(Seq<char>) -> T,
    i: int,
)
    requires
        0 <= i < lines.len(),
        starts_with_letter(lines[i], letter),
    ensures
        count_of(lines.take(i), letter) < outcomes_of(lines, letter, decode).len(),
        outcomes_of(lines, letter, decode)[count_of(lines.take(i), letter) as int] == decode(
            lines[i],
        ),
    decreases lines.len(),
{
    lemma_outcomes_of_len(lines, letter, decode);
    lemma_count_of_prefix(lines, letter, i);
    if i == lines.len() - 1 {
        assert(lines.take(i) =~= lines.drop_last());
        lemma_outcomes_of_len(lines.drop_last(), letter, decode);
    } else {
        lemma_outcomes_of_index(lines.drop_last(), letter, decode, i);
        assert(lines.drop_last().take(i) =~= lines.take(i));
    }
}

/// A fix that its decoder refuses does not fail the pass over a file whose
/// lines all begin with a letter from `A` to `L`: the pass succeeds, and
/// where fixes are selected the failure stands among their outcomes, at the
/// place that the line has among the B lines.
pub proof fn lemma_refused_fix_is_kept(content: Seq<char>, selection: Selection, i: int)
    requires
        forall|j: int|
            0 <= j < lines_of(content).len() ==> has_valid_start(#[trigger] lines_of(content)[j]),
        0 <= i < lines_of(content).len(),
        starts_with_letter(lines_of(content)[i], 'B'),
        Fix::spec_parse(lines_of(content)[i]) is Err,
        selection.fixes,
    ensures
        spec_collect(content, selection) matches Ok(outcomes) && outcomes.fixes matches Some(fixes)
            && count_of(lines_of(content).take(i), 'B') < fixes.len() && fixes[count_of(
            lines_of(content).take(i),
            'B',
        ) as int] == Fix::spec_parse(lines_of(content)[i]),
{
    let lines = lines_of(content);
    lemma_known_lines_pass(content, selection);
    lemma_outcomes_of_index(lines, 'B', |line: Seq<char>| Fix::spec_parse(line), i);
}

} // verus!
