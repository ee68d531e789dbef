use crate::error::{outcome_view, IGCError, IGCErrorView};
use crate::text::{columns_from, message};
use vstd::prelude::*;

verus! {

/// A G record: one line of the security code that signs the file.
#[derive(Debug, Clone, PartialEq, Eq)]
pub struct Security {
    pub security_code: String,
}

/// The mathematical value of a [`Security`] record.
pub struct SecurityView {
    pub security_code: Seq<char>,
}

impl View for Security {
    type V = SecurityView;

    open spec fn view(&self) -> SecurityView {
        SecurityView { security_code: self.security_code@ }
    }
}

impl Security {
    /// What a G line decodes to: everything behind the leading letter, be
    /// it nothing. Only the line without any character is refused.
    pub open spec fn spec_parse(line: Seq<char>) -> Result<SecurityView, IGCErrorView> {
        if line.len() == 0 {
            Err(
                IGCErrorView::SecurityInitError(
                    "'"@ + line + "' is too short to be a security tag"@,
                ),
            )
        } else {
            Ok(SecurityView { security_code: line.skip(1) })
        }
    }

    /// Decodes a G line.
    pub fn parse(line: &str) -> (r: Result<Security, IGCError>)
        ensures
            outcome_view(r) == Security::spec_parse(line@),
    {
        if line.unicode_len() == 0 {
            return Err(
                IGCError::SecurityInitError(
                    message("'", line, "' is too short to be a security tag"),
                ),
            );
        }
        Ok(Security { security_code: columns_from(line, 1) })
    }
}

} // verus!
