//! Evaluation requests: what is handed to the interpreter for one
//! evaluation.

use vstd::prelude::*;

verus! {

/// The name under which every source is reported in diagnostics. The host
/// cannot choose another.
pub open spec fn source_label() -> Seq<char> {
    "<source>"@
}

/// One evaluation request: the source text and the name it goes by.
pub struct EvalRequest {
    pub contents: String,
    pub filename: String,
}

impl EvalRequest {
    /// The request for `source`: the text as it came, under the fixed name.
    /// Any text is accepted.
    pub fn new(source: String) -> (request: Self)
        ensures
            request.contents@ == source@,
            request.filename@ == source_label(),
    {
        EvalRequest { contents: source, filename: "<source>".to_owned() }
    }
}

} // verus!
