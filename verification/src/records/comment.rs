use crate::error::{outcome_view, IGCError, IGCErrorView};
use crate::text::{columns_from, message};
use vstd::prelude::*;

verus! {

/// An L record: a comment.
#[derive(Debug, Clone, PartialEq, Eq)]
pub struct Comment {
    pub content: String,
}

/// The mathematical value of a [`Comment`].
pub struct CommentView {
    pub content: Seq<char>,
}

impl View for Comment {
    type V = CommentView;

    open spec fn view(&self) -> CommentView {
        CommentView { content: self.content@ }
    }
}

impl Comment {
    /// What an L line decodes to: everything behind the leading letter.
    pub open spec fn spec_parse(line: Seq<char>) -> Result<CommentView, IGCErrorView> {
        if line.len() == 0 {
            Err(IGCErrorView::CommentInitError("'"@ + line + "' is too short to be a comment"@))
        } else {
            Ok(CommentView { content: line.skip(1) })
        }
    }

    /// Decodes an L line.
    pub fn parse(line: &str) -> (r: Result<Comment, IGCError>)
        ensures
            outcome_view(r) == Comment::spec_parse(line@),
    {
        if line.unicode_len() == 0 {
            return Err(
                IGCError::CommentInitError(message("'", line, "' is too short to be a comment")),
            );
        }
        Ok(Comment { content: columns_from(line, 1) })
    }
}

} // verus!
