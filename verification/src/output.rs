//! What a step puts on the console.
use vstd::prelude::*;

verus! {

/// What is to be printed before the next action is performed.
#[derive(PartialEq, Eq, Debug)]
pub enum Output {
    /// Nothing.
    Nothing,
    /// This line, as it is.
    Print(String),
    /// This line, with the position in the source file behind it.
    Report(String),
}

/// An [`Output`] as the characters that it holds.
pub enum OutputView {
    Nothing,
    Print(Seq<char>),
    Report(Seq<char>),
}

impl View for Output {
    type V = OutputView;

    open spec fn view(&self) -> OutputView {
        match self {
            Output::Nothing => OutputView::Nothing,
            Output::Print(text) => OutputView::Print(text@),
            Output::Report(text) => OutputView::Report(text@),
        }
    }
}

/// An output is shown as the characters that it holds, and kept apart from outputs of
/// another kind.
pub proof fn law_output_shows_its_text(text: String)
    ensures
        Output::Nothing@ == OutputView::Nothing,
        Output::Print(text)@ == OutputView::Print(text@),
        Output::Report(text)@ == OutputView::Report(text@),
{
}

} // verus!
