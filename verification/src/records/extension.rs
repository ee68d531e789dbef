use crate::error::{outcome_view, IGCError, IGCErrorView};
use crate::text::{columns, first_char, message, parse_u8, parse_unsigned};
use vstd::prelude::*;

verus! {

/// Which records an extension declaration speaks of: fixes (I) or data
/// fixes (J).
#[derive(Debug, Clone, Copy, PartialEq, Eq, Structural)]
pub enum ExtensionType {
    I,
    J,
}

/// An I or J record: the additional fields that later B or K records carry
/// behind their fixed columns.
#[derive(Debug, Clone, PartialEq, Eq)]
pub struct Extension {
    pub extension_type: ExtensionType,
    pub number_of_extensions: u8,
    /// For each additional field its first column, its last column and its
    /// three-letter mnemonic.
    pub extensions: Vec<(u8, u8, String)>,
}

/// The mathematical value of an [`Extension`].
pub struct ExtensionView {
    pub extension_type: ExtensionType,
    pub number_of_extensions: u8,
    pub extensions: Seq<(u8, u8, Seq<char>)>,
}

impl View for Extension {
    type V = ExtensionView;

    open spec fn view(&self) -> ExtensionView {
        ExtensionView {
            extension_type: self.extension_type,
            number_of_extensions: self.number_of_extensions,
            extensions: self.extensions@.map_values(|e: (u8, u8, String)| (e.0, e.1, e.2@)),
        }
    }
}

impl Extension {
    /// The length of a declaration of `count` additional fields: the
    /// letter, two digits of count, and seven characters for each field.
    pub open spec fn expected_len(count: nat) -> nat {
        3 + 7 * count
    }

    /// The first column of additional field `k`, from its two digits.
    pub open spec fn spec_start(line: Seq<char>, k: int) -> Option<nat> {
        parse_unsigned(line.subrange(3 + 7 * k, 5 + 7 * k), 255)
    }

    /// The last column of additional field `k`, from its two digits.
    pub open spec fn spec_end(line: Seq<char>, k: int) -> Option<nat> {
        parse_unsigned(line.subrange(5 + 7 * k, 7 + 7 * k), 255)
    }

    /// Additional field `k` of a declaration whose columns are numbers.
    pub open spec fn spec_entry(line: Seq<char>, k: int) -> (u8, u8, Seq<char>) {
        (
            Extension::spec_start(line, k)->0 as u8,
            Extension::spec_end(line, k)->0 as u8,
            line.subrange(7 + 7 * k, 10 + 7 * k),
        )
    }

    /// What an I or J line decodes to. The count in columns 1 and 2 fixes
    /// the length of the line; each group of seven characters behind it is
    /// two digits of first column, two digits of last column and a
    /// mnemonic. One group whose columns are not numbers refuses the line.
    pub open spec fn spec_parse(line: Seq<char>) -> Result<ExtensionView, IGCErrorView> {
        if line.len() == 0 || (line[0] != 'I' && line[0] != 'J') {
            Err(
                IGCErrorView::ExtensionInitError(
                    "'"@ + line + "' does not start with a valid prefix for an extension"@,
                ),
            )
        } else if line.len() < 3 {
            Err(
                IGCErrorView::ExtensionInitError(
                    "'"@ + line + "' is too short to be parsed as a fix extension"@,
                ),
            )
        } else {
            match parse_unsigned(line.subrange(1, 3), 255) {
                None => Err(
                    IGCErrorView::ExtensionInitError(
                        "'"@ + line + "' does not have a valid number of extensions field"@,
                    ),
                ),
                Some(count) => {
                    if line.len() != Extension::expected_len(count) {
                        Err(
                            IGCErrorView::ExtensionInitError(
                                "'"@ + line
                                    + "' does not have the correct length according to number of extensions"@,
                            ),
                        )
                    } else if !(forall|k: int|
                        0 <= k < count ==> (#[trigger] Extension::spec_start(line, k)) is Some
                            && Extension::spec_end(line, k) is Some) {
                        Err(
                            IGCErrorView::ExtensionInitError(
                                "'"@ + line + "' has invalid start/end characters"@,
                            ),
                        )
                    } else {
                        Ok(
                            ExtensionView {
                                extension_type: if line[0] == 'I' {
                                    ExtensionType::I
                                } else {
                                    ExtensionType::J
                                },
                                number_of_extensions: count as u8,
                                extensions: Seq::new(
                                    count,
                                    |k: int| Extension::spec_entry(line, k),
                                ),
                            },
                        )
                    }
                },
            }
        }
    }

    /// Decodes an I or J line.
    pub fn parse(line: &str) -> (r: Result<Extension, IGCError>)
        ensures
            outcome_view(r) == Extension::spec_parse(line@),
    {
        let extension_type = match first_char(line) {
            Some('I') => ExtensionType::I,
            Some('J') => ExtensionType::J,
            _ => {
                return Err(
                    IGCError::ExtensionInitError(
                        message(
                            "'",
                            line,
                            "' does not start with a valid prefix for an extension",
                        ),
                    ),
                );
            },
        };
        let n = line.unicode_len();
        if n < 3 {
            return Err(
                IGCError::ExtensionInitError(
                    message("'", line, "' is too short to be parsed as a fix extension"),
                ),
            );
        }
        let number_of_extensions = match parse_u8(line.substring_char(1, 3)) {
            Some(number_of_extensions) => number_of_extensions,
            None => {
                return Err(
                    IGCError::ExtensionInitError(
                        message("'", line, "' does not have a valid number of extensions field"),
                    ),
                );
            },
        };
        let count: usize = number_of_extensions as usize;
        if n != 3 + 7 * count {
            return Err(
                IGCError::ExtensionInitError(
                    message(
                        "'",
                        line,
                        "' does not have the correct length according to number of extensions",
                    ),
                ),
            );
        }
        let mut extensions: Vec<(u8, u8, String)> = Vec::new();
        let mut k: usize = 0;
        while k < count
            invariant
                k <= count <= 255,
                n == line@.len(),
                n == 3 + 7 * count,
                line@[0] == 'I' || line@[0] == 'J',
                parse_unsigned(line@.subrange(1, 3), 255) == Some(count as nat),
                extensions@.len() == k,
                forall|j: int|
                    0 <= j < k ==> (#[trigger] Extension::spec_start(line@, j)) is Some
                        && Extension::spec_end(line@, j) is Some,
                forall|j: int|
                    0 <= j < k ==> ((#[trigger] extensions@[j]).0, extensions@[j].1, extensions@[j].2@)
                        == Extension::spec_entry(line@, j),
            decreases count - k,
        {
            let at: usize = 3 + 7 * k;
            let start = parse_u8(line.substring_char(at, at + 2));
            let end = parse_u8(line.substring_char(at + 2, at + 4));
            match (start, end) {
                (Some(start), Some(end)) => {
                    extensions.push((start, end, columns(line, at + 4, at + 7)));
                },
                _ => {
                    assert(!(Extension::spec_start(line@, k as int) is Some && Extension::spec_end(
                        line@,
                        k as int,
                    ) is Some));
                    return Err(
                        IGCError::ExtensionInitError(
                            message("'", line, "' has invalid start/end characters"),
                        ),
                    );
                },
            }
            k = k + 1;
        }
        let r = Extension { extension_type, number_of_extensions, extensions };
        assert(r@.extensions =~= Seq::new(
            count as nat,
            |k: int| Extension::spec_entry(line@, k),
        ));
        Ok(r)
    }
}

/// A declaration whose count is `count` is refused unless the line has
/// exactly `3 + 7 * count` characters.
pub proof fn lemma_extension_length(line: Seq<char>, count: nat)
    requires
        line.len() >= 3,
        parse_unsigned(line.subrange(1, 3), 255) == Some(count),
        line.len() != 3 + 7 * count,
    ensures
        Extension::spec_parse(line) is Err,
{
}

/// A declaration that decodes has the length that its count fixes, and as
/// many additional fields as its count says.
pub proof fn lemma_extension_decoded_length(line: Seq<char>)
    requires
        Extension::spec_parse(line) is Ok,
    ensures
        line.len() == 3 + 7 * Extension::spec_parse(line)->Ok_0.number_of_extensions,
        Extension::spec_parse(line)->Ok_0.extensions.len() == Extension::spec_parse(
            line,
        )->Ok_0.number_of_extensions,
{
}

} // verus!
