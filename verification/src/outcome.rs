//! Evaluation outcomes: how what the interpreter answers becomes what the
//! host is told.

use crate::engine::debug_text;
use vstd::prelude::*;

verus! {

/// What the host is told of an outcome whose diagnostic is already text:
/// nothing but success where the interpreter produced a value, and the
/// diagnostic's text, unchanged, where it failed.
pub open spec fn told(outcome: Result<kast::Value, String>) -> Result<(), String> {
    match outcome {
        Ok(_) => Ok(()),
        Err(text) => Err(text),
    }
}

/// The text that stands for a diagnostic whose rendering is empty.
pub open spec fn unrendered() -> Seq<char> {
    "<no diagnostic>"@
}

/// The text by which a failure is shown to the host: the rendering of its
/// diagnostic, or, where that is empty, `unrendered()`. It is never empty.
pub open spec fn shown(rendering: Seq<char>) -> Seq<char> {
    if rendering.len() > 0 {
        rendering
    } else {
        unrendered()
    }
}

/// `shown` of every rendering has at least one character.
pub proof fn shown_is_not_empty(rendering: Seq<char>)
    ensures
        shown(rendering).len() > 0,
{
    reveal_strlit("<no diagnostic>");
}

/// The text by which `rendering` is shown to the host.
pub fn shown_text(rendering: String) -> (text: String)
    ensures
        text@ == shown(rendering@),
        text@.len() > 0,
{
    proof {
        shown_is_not_empty(rendering@);
    }
    if rendering.as_str().is_empty() {
        "<no diagnostic>".to_owned()
    } else {
        rendering
    }
}

/// Renders the diagnostic of a failed outcome in its debug form, and leaves
/// a successful outcome as it is. The text of a failure is what `shown_text`
/// makes of the rendering, so it is never empty. What the rendering is lies
/// with the report's handler.
pub fn diagnose<T>(outcome: Result<T, eyre::Report>) -> (rendered: Result<T, String>)
    ensures
        outcome is Ok <==> rendered is Ok,
        outcome is Ok ==> rendered->Ok_0 == outcome->Ok_0,
        outcome is Err ==> rendered->Err_0@.len() > 0,
{
    match outcome {
        Ok(value) => Ok(value),
        Err(report) => Err(shown_text(debug_text(&report))),
    }
}

/// Turns a rendered outcome into the host's result. The value of a success
/// is dropped: the host never sees it.
pub fn host_result(outcome: Result<kast::Value, String>) -> (result: Result<(), String>)
    ensures
        result == told(outcome),
{
    match outcome {
        Ok(_) => Ok(()),
        Err(text) => Err(text),
    }
}

/// What the host is told of an evaluation that ended with `outcome`:
/// success, with nothing more, where the interpreter produced a value; a
/// failure with a text that is never empty where it gave a diagnostic.
pub fn conclude(outcome: Result<kast::Value, eyre::Report>) -> (result: Result<(), String>)
    ensures
        outcome is Ok <==> result is Ok,
        result is Err ==> result->Err_0@.len() > 0,
{
    host_result(diagnose(outcome))
}

/// An evaluation that the interpreter accepts is a success for the host, with
/// no error text; one that it rejects is a failure that carries the text of
/// the diagnostic, and that text is empty only if the rendering was.
pub proof fn accepted_iff_success(outcome: Result<kast::Value, String>)
    ensures
        outcome is Ok <==> told(outcome) is Ok,
        outcome is Err ==> told(outcome)->Err_0 == outcome->Err_0,
        outcome is Err && outcome->Err_0@.len() > 0 ==> told(outcome)->Err_0@.len() > 0,
{
}

} // verus!
