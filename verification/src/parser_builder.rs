use crate::collector::{collect, spec_collect, Outcomes, OutcomesView, Selection};
use crate::error::{outcome_view, outcomes_view, IGCError};
use crate::records::comment::Comment;
use crate::records::data_fix::DataFix;
use crate::records::diff_gps::DiffGPS;
use crate::records::event::Event;
use crate::records::extension::Extension;
use crate::records::file_header::FileHeader;
use crate::records::fix::Fix;
use crate::records::flight_recorder_id::FlightRecorderID;
use crate::records::satellite::Satellite;
use crate::records::security::Security;
use crate::records::task_info::TaskInfo;
use vstd::prelude::*;

verus! {

/// What a pass over a file collected. The twelve flags of the type say
/// which kinds were selected: the outcomes of a kind can be asked for only
/// where its flag is `true`, so that a kind that was not selected is never
/// taken for a kind without records.
pub struct Parsed<
    const A: bool,
    const B: bool,
    const C: bool,
    const D: bool,
    const E: bool,
    const F: bool,
    const G: bool,
    const H: bool,
    const I: bool,
    const J: bool,
    const K: bool,
    const L: bool,
> {
    outcomes: Outcomes,
}

impl<
    const A: bool,
    const B: bool,
    const C: bool,
    const D: bool,
    const E: bool,
    const F: bool,
    const G: bool,
    const H: bool,
    const I: bool,
    const J: bool,
    const K: bool,
    const L: bool,
> View for Parsed<A, B, C, D, E, F, G, H, I, J, K, L> {
    type V = OutcomesView;

    closed spec fn view(&self) -> OutcomesView {
        self.outcomes@
    }
}

impl<
    const A: bool,
    const B: bool,
    const C: bool,
    const D: bool,
    const E: bool,
    const F: bool,
    const G: bool,
    const H: bool,
    const I: bool,
    const J: bool,
    const K: bool,
    const L: bool,
> Parsed<A, B, C, D, E, F, G, H, I, J, K, L> {
    /// The outcomes of a kind are held exactly where the kind's flag is set.
    #[verifier::type_invariant]
    spec fn holds_selected_kinds(self) -> bool {
        &&& (self.outcomes.fr_ids is Some) == A
        &&& (self.outcomes.fixes is Some) == B
        &&& (self.outcomes.task_info is Some) == C
        &&& (self.outcomes.differential_gps_records is Some) == D
        &&& (self.outcomes.events is Some) == E
        &&& (self.outcomes.satellite_vec is Some) == F
        &&& (self.outcomes.security_vec is Some) == G
        &&& (self.outcomes.file_header_vec is Some) == H
        &&& (self.outcomes.i_extension_vec is Some) == I
        &&& (self.outcomes.j_extension_vec is Some) == J
        &&& (self.outcomes.data_fix_vec is Some) == K
        &&& (self.outcomes.comment_vec is Some) == L
    }
}

impl<
    const B: bool,
    const C: bool,
    const D: bool,
    const E: bool,
    const F: bool,
    const G: bool,
    const H: bool,
    const I: bool,
    const J: bool,
    const K: bool,
    const L: bool,
> Parsed<true, B, C, D, E, F, G, H, I, J, K, L> {
    /// The outcomes of the A lines, in the order of the lines.
    pub fn get_fr_ids(&self) -> (outcomes: &Vec<Result<FlightRecorderID, IGCError>>)
        ensures
            self@.fr_ids == Some(outcomes_view(outcomes@)),
    {
        proof {
            use_type_invariant(self);
        }
        self.outcomes.fr_ids.as_ref().unwrap()
    }

    /// The outcomes of the A lines, in the order of the lines.
    pub fn get_a_records(&self) -> (outcomes: &Vec<Result<FlightRecorderID, IGCError>>)
        ensures
            self@.fr_ids == Some(outcomes_view(outcomes@)),
    {
        self.get_fr_ids()
    }
}

impl<
    const A: bool,
    const C: bool,
    const D: bool,
    const E: bool,
    const F: bool,
    const G: bool,
    const H: bool,
    const I: bool,
    const J: bool,
    const K: bool,
    const L: bool,
> Parsed<A, true, C, D, E, F, G, H, I, J, K, L> {
    /// The outcomes of the B lines, in the order of the lines.
    pub fn get_fixes(&self) -> (outcomes: &Vec<Result<Fix, IGCError>>)
        ensures
            self@.fixes == Some(outcomes_view(outcomes@)),
    {
        proof {
            use_type_invariant(self);
        }
        self.outcomes.fixes.as_ref().unwrap()
    }

    /// The outcomes of the B lines, in the order of the lines.
    pub fn get_b_records(&self) -> (outcomes: &Vec<Result<Fix, IGCError>>)
        ensures
            self@.fixes == Some(outcomes_view(outcomes@)),
    {
        self.get_fixes()
    }
}

impl<
    const A: bool,
    const B: bool,
    const D: bool,
    const E: bool,
    const F: bool,
    const G: bool,
    const H: bool,
    const I: bool,
    const J: bool,
    const K: bool,
    const L: bool,
> Parsed<A, B, true, D, E, F, G, H, I, J, K, L> {
    /// The outcomes of the C lines, in the order of the lines.
    pub fn get_task_info(&self) -> (outcomes: &Vec<Result<TaskInfo, IGCError>>)
        ensures
            self@.task_info == Some(outcomes_view(outcomes@)),
    {
        proof {
            use_type_invariant(self);
        }
        self.outcomes.task_info.as_ref().unwrap()
    }

    /// The outcomes of the C lines, in the order of the lines.
    pub fn get_c_records(&self) -> (outcomes: &Vec<Result<TaskInfo, IGCError>>)
        ensures
            self@.task_info == Some(outcomes_view(outcomes@)),
    {
        self.get_task_info()
    }
}

impl<
    const A: bool,
    const B: bool,
    const C: bool,
    const E: bool,
    const F: bool,
    const G: bool,
    const H: bool,
    const I: bool,
    const J: bool,
    const K: bool,
    const L: bool,
> Parsed<A, B, C, true, E, F, G, H, I, J, K, L> {
    /// The outcomes of the D lines, in the order of the lines.
    pub fn get_differential_gps_records(&self) -> (outcomes: &Vec<Result<DiffGPS, IGCError>>)
        ensures
            self@.differential_gps_records == Some(outcomes_view(outcomes@)),
    {
        proof {
            use_type_invariant(self);
        }
        self.outcomes.differential_gps_records.as_ref().unwrap()
    }

    /// The outcomes of the D lines, in the order of the lines.
    pub fn get_d_records(&self) -> (outcomes: &Vec<Result<DiffGPS, IGCError>>)
        ensures
            self@.differential_gps_records == Some(outcomes_view(outcomes@)),
    {
        self.get_differential_gps_records()
    }
}

impl<
    const A: bool,
    const B: bool,
    const C: bool,
    const D: bool,
    const F: bool,
    const G: bool,
    const H: bool,
    const I: bool,
    const J: bool,
    const K: bool,
    const L: bool,
> Parsed<A, B, C, D, true, F, G, H, I, J, K, L> {
    /// The outcomes of the E lines, in the order of the lines.
    pub fn get_events(&self) -> (outcomes: &Vec<Result<Event, IGCError>>)
        ensures
            self@.events == Some(outcomes_view(outcomes@)),
    {
        proof {
            use_type_invariant(self);
        }
        self.outcomes.events.as_ref().unwrap()
    }

    /// The outcomes of the E lines, in the order of the lines.
    pub fn get_e_records(&self) -> (outcomes: &Vec<Result<Event, IGCError>>)
        ensures
            self@.events == Some(outcomes_view(outcomes@)),
    {
        self.get_events()
    }
}

impl<
    const A: bool,
    const B: bool,
    const C: bool,
    const D: bool,
    const E: bool,
    const G: bool,
    const H: bool,
    const I: bool,
    const J: bool,
    const K: bool,
    const L: bool,
> Parsed<A, B, C, D, E, true, G, H, I, J, K, L> {
    /// The outcomes of the F lines, in the order of the lines.
    pub fn get_satellite_vec(&self) -> (outcomes: &Vec<Result<Satellite, IGCError>>)
        ensures
            self@.satellite_vec == Some(outcomes_view(outcomes@)),
    {
        proof {
            use_type_invariant(self);
        }
        self.outcomes.satellite_vec.as_ref().unwrap()
    }

    /// The outcomes of the F lines, in the order of the lines.
    pub fn get_f_records(&self) -> (outcomes: &Vec<Result<Satellite, IGCError>>)
        ensures
            self@.satellite_vec == Some(outcomes_view(outcomes@)),
    {
        self.get_satellite_vec()
    }
}

impl<
    const A: bool,
    const B: bool,
    const C: bool,
    const D: bool,
    const E: bool,
    const F: bool,
    const H: bool,
    const I: bool,
    const J: bool,
    const K: bool,
    const L: bool,
> Parsed<A, B, C, D, E, F, true, H, I, J, K, L> {
    /// The outcomes of the G lines, in the order of the lines.
    pub fn get_security_vec(&self) -> (outcomes: &Vec<Result<Security, IGCError>>)
        ensures
            self@.security_vec == Some(outcomes_view(outcomes@)),
    {
        proof {
            use_type_invariant(self);
        }
        self.outcomes.security_vec.as_ref().unwrap()
    }

    /// The outcomes of the G lines, in the order of the lines.
    pub fn get_g_records(&self) -> (outcomes: &Vec<Result<Security, IGCError>>)
        ensures
            self@.security_vec == Some(outcomes_view(outcomes@)),
    {
        self.get_security_vec()
    }
}

impl<
    const A: bool,
    const B: bool,
    const C: bool,
    const D: bool,
    const E: bool,
    const F: bool,
    const G: bool,
    const I: bool,
    const J: bool,
    const K: bool,
    const L: bool,
> Parsed<A, B, C, D, E, F, G, true, I, J, K, L> {
    /// The outcomes of the H lines, in the order of the lines.
    pub fn get_file_header_vec(&self) -> (outcomes: &Vec<Result<FileHeader, IGCError>>)
        ensures
            self@.file_header_vec == Some(outcomes_view(outcomes@)),
    {
        proof {
            use_type_invariant(self);
        }
        self.outcomes.file_header_vec.as_ref().unwrap()
    }

    /// The outcomes of the H lines, in the order of the lines.
    pub fn get_h_records(&self) -> (outcomes: &Vec<Result<FileHeader, IGCError>>)
        ensures
            self@.file_header_vec == Some(outcomes_view(outcomes@)),
    {
        self.get_file_header_vec()
    }
}

impl<
    const A: bool,
    const B: bool,
    const C: bool,
    const D: bool,
    const E: bool,
    const F: bool,
    const G: bool,
    const H: bool,
    const J: bool,
    const K: bool,
    const L: bool,
> Parsed<A, B, C, D, E, F, G, H, true, J, K, L> {
    /// The outcomes of the I lines, in the order of the lines.
    pub fn get_fix_extension_vec(&self) -> (outcomes: &Vec<Result<Extension, IGCError>>)
        ensures
            self@.i_extension_vec == Some(outcomes_view(outcomes@)),
    {
        proof {
            use_type_invariant(self);
        }
        self.outcomes.i_extension_vec.as_ref().unwrap()
    }

    /// The outcomes of the I lines, in the order of the lines.
    pub fn get_i_records(&self) -> (outcomes: &Vec<Result<Extension, IGCError>>)
        ensures
            self@.i_extension_vec == Some(outcomes_view(outcomes@)),
    {
        self.get_fix_extension_vec()
    }
}

impl<
    const A: bool,
    const B: bool,
    const C: bool,
    const D: bool,
    const E: bool,
    const F: bool,
    const G: bool,
    const H: bool,
    const I: bool,
    const K: bool,
    const L: bool,
> Parsed<A, B, C, D, E, F, G, H, I, true, K, L> {
    /// The outcomes of the J lines, in the order of the lines.
    pub fn get_data_fix_extension_vec(&self) -> (outcomes: &Vec<Result<Extension, IGCError>>)
        ensures
            self@.j_extension_vec == Some(outcomes_view(outcomes@)),
    {
        proof {
            use_type_invariant(self);
        }
        self.outcomes.j_extension_vec.as_ref().unwrap()
    }

    /// The outcomes of the J lines, in the order of the lines.
    pub fn get_j_records(&self) -> (outcomes: &Vec<Result<Extension, IGCError>>)
        ensures
            self@.j_extension_vec == Some(outcomes_view(outcomes@)),
    {
        self.get_data_fix_extension_vec()
    }
}

impl<
    const A: bool,
    const B: bool,
    const C: bool,
    const D: bool,
    const E: bool,
    const F: bool,
    const G: bool,
    const H: bool,
    const I: bool,
    const J: bool,
    const L: bool,
> Parsed<A, B, C, D, E, F, G, H, I, J, true, L> {
    /// The outcomes of the K lines, in the order of the lines.
    pub fn get_data_fix_vec(&self) -> (outcomes: &Vec<Result<DataFix, IGCError>>)
        ensures
            self@.data_fix_vec == Some(outcomes_view(outcomes@)),
    {
        proof {
            use_type_invariant(self);
        }
        self.outcomes.data_fix_vec.as_ref().unwrap()
    }

    /// The outcomes of the K lines, in the order of the lines.
    pub fn get_k_records(&self) -> (outcomes: &Vec<Result<DataFix, IGCError>>)
        ensures
            self@.data_fix_vec == Some(outcomes_view(outcomes@)),
    {
        self.get_data_fix_vec()
    }
}

impl<
    const A: bool,
    const B: bool,
    const C: bool,
    const D: bool,
    const E: bool,
    const F: bool,
    const G: bool,
    const H: bool,
    const I: bool,
    const J: bool,
    const K: bool,
> Parsed<A, B, C, D, E, F, G, H, I, J, K, true> {
    /// The outcomes of the L lines, in the order of the lines.
    pub fn get_comment_vec(&self) -> (outcomes: &Vec<Result<Comment, IGCError>>)
        ensures
            self@.comment_vec == Some(outcomes_view(outcomes@)),
    {
        proof {
            use_type_invariant(self);
        }
        self.outcomes.comment_vec.as_ref().unwrap()
    }

    /// The outcomes of the L lines, in the order of the lines.
    pub fn get_l_records(&self) -> (outcomes: &Vec<Result<Comment, IGCError>>)
        ensures
            self@.comment_vec == Some(outcomes_view(outcomes@)),
    {
        self.get_comment_vec()
    }
}

/// The choice of the kinds of record that a pass over a file collects. The
/// twelve flags of the type hold the choice; a builder starts with none
/// selected, and each kind can be selected once.
#[derive(Clone, Debug)]
pub struct ParserBuilder<
    const A: bool,
    const B: bool,
    const C: bool,
    const D: bool,
    const E: bool,
    const F: bool,
    const G: bool,
    const H: bool,
    const I: bool,
    const J: bool,
    const K: bool,
    const L: bool,
> {}

/// A builder with no kind selected.
pub fn new_builder() -> (builder: ParserBuilder<
    false,
    false,
    false,
    false,
    false,
    false,
    false,
    false,
    false,
    false,
    false,
    false,
>)
    ensures
        builder.selection() == (Selection {
            fr_ids: false,
            fixes: false,
            task_info: false,
            differential_gps_records: false,
            events: false,
            satellite_vec: false,
            security_vec: false,
            file_header_vec: false,
            i_extension_vec: false,
            j_extension_vec: false,
            data_fix_vec: false,
            comment_vec: false,
        }),
{
    ParserBuilder {}
}

impl<
    const A: bool,
    const B: bool,
    const C: bool,
    const D: bool,
    const E: bool,
    const F: bool,
    const G: bool,
    const H: bool,
    const I: bool,
    const J: bool,
    const K: bool,
    const L: bool,
> ParserBuilder<A, B, C, D, E, F, G, H, I, J, K, L> {
    /// The kinds that this builder has selected.
    pub open spec fn selection(&self) -> Selection {
        Selection {
            fr_ids: A,
            fixes: B,
            task_info: C,
            differential_gps_records: D,
            events: E,
            satellite_vec: F,
            security_vec: G,
            file_header_vec: H,
            i_extension_vec: I,
            j_extension_vec: J,
            data_fix_vec: K,
            comment_vec: L,
        }
    }

    /// Decodes every line of a file and collects the outcomes of the kinds
    /// that were selected. A line that does not begin with a letter from
    /// `A` to `L` fails the pass; a line that its kind's decoder refuses is
    /// a failed outcome among those of its kind.
    pub fn on_file(self, content: &str) -> (r: Result<Parsed<A, B, C, D, E, F, G, H, I, J, K, L>, IGCError>)
        ensures
            outcome_view(r) == spec_collect(content@, self.selection()),
    {
        let selection = Selection {
            fr_ids: A,
            fixes: B,
            task_info: C,
            differential_gps_records: D,
            events: E,
            satellite_vec: F,
            security_vec: G,
            file_header_vec: H,
            i_extension_vec: I,
            j_extension_vec: J,
            data_fix_vec: K,
            comment_vec: L,
        };
        match collect(content, selection) {
            Ok(outcomes) => Ok(Parsed { outcomes }),
            Err(error) => Err(error),
        }
    }
}

impl<
    const B: bool,
    const C: bool,
    const D: bool,
    const E: bool,
    const F: bool,
    const G: bool,
    const H: bool,
    const I: bool,
    const J: bool,
    const K: bool,
    const L: bool,
> ParserBuilder<false, B, C, D, E, F, G, H, I, J, K, L> {
    /// Selects the A lines: flight recorder ids.
    pub fn parse_flight_record_id(self) -> (builder: ParserBuilder<true, B, C, D, E, F, G, H, I, J, K, L>)
        ensures
            builder.selection() == (Selection { fr_ids: true, ..self.selection() }),
    {
        ParserBuilder {}
    }

    /// Selects the A lines: flight recorder ids.
    pub fn parse_a_records(self) -> (builder: ParserBuilder<true, B, C, D, E, F, G, H, I, J, K, L>)
        ensures
            builder.selection() == (Selection { fr_ids: true, ..self.selection() }),
    {
        ParserBuilder {}
    }
}

impl<
    const A: bool,
    const C: bool,
    const D: bool,
    const E: bool,
    const F: bool,
    const G: bool,
    const H: bool,
    const I: bool,
    const J: bool,
    const K: bool,
    const L: bool,
> ParserBuilder<A, false, C, D, E, F, G, H, I, J, K, L> {
    /// Selects the B lines: fixes.
    pub fn parse_fixes(self) -> (builder: ParserBuilder<A, true, C, D, E, F, G, H, I, J, K, L>)
        ensures
            builder.selection() == (Selection { fixes: true, ..self.selection() }),
    {
        ParserBuilder {}
    }

    /// Selects the B lines: fixes.
    pub fn parse_b_records(self) -> (builder: ParserBuilder<A, true, C, D, E, F, G, H, I, J, K, L>)
        ensures
            builder.selection() == (Selection { fixes: true, ..self.selection() }),
    {
        ParserBuilder {}
    }
}

impl<
    const A: bool,
    const B: bool,
    const D: bool,
    const E: bool,
    const F: bool,
    const G: bool,
    const H: bool,
    const I: bool,
    const J: bool,
    const K: bool,
    const L: bool,
> ParserBuilder<A, B, false, D, E, F, G, H, I, J, K, L> {
    /// Selects the C lines: task info.
    pub fn parse_task_info(self) -> (builder: ParserBuilder<A, B, true, D, E, F, G, H, I, J, K, L>)
        ensures
            builder.selection() == (Selection { task_info: true, ..self.selection() }),
    {
        ParserBuilder {}
    }

    /// Selects the C lines: task info.
    pub fn parse_c_records(self) -> (builder: ParserBuilder<A, B, true, D, E, F, G, H, I, J, K, L>)
        ensures
            builder.selection() == (Selection { task_info: true, ..self.selection() }),
    {
        ParserBuilder {}
    }
}

impl<
    const A: bool,
    const B: bool,
    const C: bool,
    const E: bool,
    const F: bool,
    const G: bool,
    const H: bool,
    const I: bool,
    const J: bool,
    const K: bool,
    const L: bool,
> ParserBuilder<A, B, C, false, E, F, G, H, I, J, K, L> {
    /// Selects the D lines: differential GPS records.
    pub fn parse_differential_gps_records(self) -> (builder: ParserBuilder<A, B, C, true, E, F, G, H, I, J, K, L>)
        ensures
            builder.selection() == (Selection { differential_gps_records: true, ..self.selection() }),
    {
        ParserBuilder {}
    }

    /// Selects the D lines: differential GPS records.
    pub fn parse_d_records(self) -> (builder: ParserBuilder<A, B, C, true, E, F, G, H, I, J, K, L>)
        ensures
            builder.selection() == (Selection { differential_gps_records: true, ..self.selection() }),
    {
        ParserBuilder {}
    }
}

impl<
    const A: bool,
    const B: bool,
    const C: bool,
    const D: bool,
    const F: bool,
    const G: bool,
    const H: bool,
    const I: bool,
    const J: bool,
    const K: bool,
    const L: bool,
> ParserBuilder<A, B, C, D, false, F, G, H, I, J, K, L> {
    /// Selects the E lines: events.
    pub fn parse_events(self) -> (builder: ParserBuilder<A, B, C, D, true, F, G, H, I, J, K, L>)
        ensures
            builder.selection() == (Selection { events: true, ..self.selection() }),
    {
        ParserBuilder {}
    }

    /// Selects the E lines: events.
    pub fn parse_e_records(self) -> (builder: ParserBuilder<A, B, C, D, true, F, G, H, I, J, K, L>)
        ensures
            builder.selection() == (Selection { events: true, ..self.selection() }),
    {
        ParserBuilder {}
    }
}

impl<
    const A: bool,
    const B: bool,
    const C: bool,
    const D: bool,
    const E: bool,
    const G: bool,
    const H: bool,
    const I: bool,
    const J: bool,
    const K: bool,
    const L: bool,
> ParserBuilder<A, B, C, D, E, false, G, H, I, J, K, L> {
    /// Selects the F lines: satellite records.
    pub fn parse_satellite(self) -> (builder: ParserBuilder<A, B, C, D, E, true, G, H, I, J, K, L>)
        ensures
            builder.selection() == (Selection { satellite_vec: true, ..self.selection() }),
    {
        ParserBuilder {}
    }

    /// Selects the F lines: satellite records.
    pub fn parse_f_records(self) -> (builder: ParserBuilder<A, B, C, D, E, true, G, H, I, J, K, L>)
        ensures
            builder.selection() == (Selection { satellite_vec: true, ..self.selection() }),
    {
        ParserBuilder {}
    }
}

impl<
    const A: bool,
    const B: bool,
    const C: bool,
    const D: bool,
    const E: bool,
    const F: bool,
    const H: bool,
    const I: bool,
    const J: bool,
    const K: bool,
    const L: bool,
> ParserBuilder<A, B, C, D, E, F, false, H, I, J, K, L> {
    /// Selects the G lines: security records.
    pub fn parse_security(self) -> (builder: ParserBuilder<A, B, C, D, E, F, true, H, I, J, K, L>)
        ensures
            builder.selection() == (Selection { security_vec: true, ..self.selection() }),
    {
        ParserBuilder {}
    }

    /// Selects the G lines: security records.
    pub fn parse_g_records(self) -> (builder: ParserBuilder<A, B, C, D, E, F, true, H, I, J, K, L>)
        ensures
            builder.selection() == (Selection { security_vec: true, ..self.selection() }),
    {
        ParserBuilder {}
    }
}

impl<
    const A: bool,
    const B: bool,
    const C: bool,
    const D: bool,
    const E: bool,
    const F: bool,
    const G: bool,
    const I: bool,
    const J: bool,
    const K: bool,
    const L: bool,
> ParserBuilder<A, B, C, D, E, F, G, false, I, J, K, L> {
    /// Selects the H lines: file headers.
    pub fn parse_file_header(self) -> (builder: ParserBuilder<A, B, C, D, E, F, G, true, I, J, K, L>)
        ensures
            builder.selection() == (Selection { file_header_vec: true, ..self.selection() }),
    {
        ParserBuilder {}
    }

    /// Selects the H lines: file headers.
    pub fn parse_h_records(self) -> (builder: ParserBuilder<A, B, C, D, E, F, G, true, I, J, K, L>)
        ensures
            builder.selection() == (Selection { file_header_vec: true, ..self.selection() }),
    {
        ParserBuilder {}
    }
}

impl<
    const A: bool,
    const B: bool,
    const C: bool,
    const D: bool,
    const E: bool,
    const F: bool,
    const G: bool,
    const H: bool,
    const J: bool,
    const K: bool,
    const L: bool,
> ParserBuilder<A, B, C, D, E, F, G, H, false, J, K, L> {
    /// Selects the I lines: fix extensions.
    pub fn parse_fix_extension(self) -> (builder: ParserBuilder<A, B, C, D, E, F, G, H, true, J, K, L>)
        ensures
            builder.selection() == (Selection { i_extension_vec: true, ..self.selection() }),
    {
        ParserBuilder {}
    }

    /// Selects the I lines: fix extensions.
    pub fn parse_i_records(self) -> (builder: ParserBuilder<A, B, C, D, E, F, G, H, true, J, K, L>)
        ensures
            builder.selection() == (Selection { i_extension_vec: true, ..self.selection() }),
    {
        ParserBuilder {}
    }
}

impl<
    const A: bool,
    const B: bool,
    const C: bool,
    const D: bool,
    const E: bool,
    const F: bool,
    const G: bool,
    const H: bool,
    const I: bool,
    const K: bool,
    const L: bool,
> ParserBuilder<A, B, C, D, E, F, G, H, I, false, K, L> {
    /// Selects the J lines: data fix extensions.
    pub fn parse_data_fix_extension(self) -> (builder: ParserBuilder<A, B, C, D, E, F, G, H, I, true, K, L>)
        ensures
            builder.selection() == (Selection { j_extension_vec: true, ..self.selection() }),
    {
        ParserBuilder {}
    }

    /// Selects the J lines: data fix extensions.
    pub fn parse_j_records(self) -> (builder: ParserBuilder<A, B, C, D, E, F, G, H, I, true, K, L>)
        ensures
            builder.selection() == (Selection { j_extension_vec: true, ..self.selection() }),
    {
        ParserBuilder {}
    }
}

impl<
    const A: bool,
    const B: bool,
    const C: bool,
    const D: bool,
    const E: bool,
    const F: bool,
    const G: bool,
    const H: bool,
    const I: bool,
    const J: bool,
    const L: bool,
> ParserBuilder<A, B, C, D, E, F, G, H, I, J, false, L> {
    /// Selects the K lines: data fixes.
    pub fn parse_data_fix(self) -> (builder: ParserBuilder<A, B, C, D, E, F, G, H, I, J, true, L>)
        ensures
            builder.selection() == (Selection { data_fix_vec: true, ..self.selection() }),
    {
        ParserBuilder {}
    }

    /// Selects the K lines: data fixes.
    pub fn parse_k_records(self) -> (builder: ParserBuilder<A, B, C, D, E, F, G, H, I, J, true, L>)
        ensures
            builder.selection() == (Selection { data_fix_vec: true, ..self.selection() }),
    {
        ParserBuilder {}
    }
}

impl<
    const A: bool,
    const B: bool,
    const C: bool,
    const D: bool,
    const E: bool,
    const F: bool,
    const G: bool,
    const H: bool,
    const I: bool,
    const J: bool,
    const K: bool,
> ParserBuilder<A, B, C, D, E, F, G, H, I, J, K, false> {
    /// Selects the L lines: comments.
    pub fn parse_comments(self) -> (builder: ParserBuilder<A, B, C, D, E, F, G, H, I, J, K, true>)
        ensures
            builder.selection() == (Selection { comment_vec: true, ..self.selection() }),
    {
        ParserBuilder {}
    }

    /// Selects the L lines: comments.
    pub fn parse_l_records(self) -> (builder: ParserBuilder<A, B, C, D, E, F, G, H, I, J, K, true>)
        ensures
            builder.selection() == (Selection { comment_vec: true, ..self.selection() }),
    {
        ParserBuilder {}
    }
}

} // verus!
