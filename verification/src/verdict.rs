//! The three-way outcome of one build attempt.

use vstd::prelude::*;

verus! {

/// What became of one attempt to build a work item.
#[derive(Debug)]
pub enum BuildVerdict {
    /// The snippet compiled.
    Pass,
    /// The compiler rejected the snippet; the text is what it wrote to
    /// standard error.
    Fail(String),
    /// The attempt was interrupted and its result cannot be trusted.
    Aborted,
}

/// The mathematical value of a [`BuildVerdict`].
pub enum VerdictView {
    Pass,
    Fail(Seq<char>),
    Aborted,
}

impl View for BuildVerdict {
    type V = VerdictView;

    open spec fn view(&self) -> VerdictView {
        match self {
            BuildVerdict::Pass => VerdictView::Pass,
            BuildVerdict::Fail(diagnostic) => VerdictView::Fail(diagnostic@),
            BuildVerdict::Aborted => VerdictView::Aborted,
        }
    }
}

} // verus!
