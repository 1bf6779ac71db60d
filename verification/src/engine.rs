//! The boundary to the interpreter.
//!
//! Everything in this file is taken on trust: the types are opaque to the
//! verifier, and the bodies of the functions are not read by it. Each
//! function here returns from every call.

use crate::bridge::OutputBridge;
use vstd::prelude::*;

verus! {

/// `kast::Kast`, one interpreter instance. Opaque.
#[verifier::external_type_specification]
#[verifier::external_body]
pub struct ExInterpreter(kast::Kast);

/// `kast::Value`, what an evaluation produces. Opaque.
#[verifier::external_type_specification]
#[verifier::external_body]
pub struct ExValue(kast::Value);

/// `eyre::Report`, the interpreter's diagnostic. Opaque.
#[verifier::external_type_specification]
#[verifier::external_body]
pub struct ExReport(eyre::Report);

/// Whether the public field `output` of the interpreter, its output sink,
/// holds an output bridge of this library. An interpreter is made with a
/// sink of its own, which prints, and nothing but an assignment to the field
/// changes what it holds.
pub uninterp spec fn sink_is_bridge(interpreter: kast::Kast) -> bool;

/// What holds when the `write` of the interpreter's output sink has
/// returned from a call on `text`.
pub uninterp spec fn sink_effect(interpreter: kast::Kast, text: String) -> bool;

/// Calls `console_error_panic_hook::set_once`, which installs its panic hook
/// on the first call in a process and does nothing on later ones. It returns
/// nothing, so nothing is claimed.
#[verifier::external_body]
pub(crate) fn install_panic_hook() {
    console_error_panic_hook::set_once();
}

/// Calls `kast::Kast::new`, which builds an interpreter with its standard
/// library loaded, or reports why it could not. Nothing is claimed of which
/// of the two happens. An interpreter that comes back was made with the
/// interpreter's own printing sink, so its sink is no bridge.
#[verifier::external_body]
pub(crate) fn start_interpreter() -> (started: Result<kast::Kast, eyre::Report>)
    ensures
        started is Ok ==> !sink_is_bridge(started->Ok_0),
{
    kast::Kast::new()
}

/// Stores `bridge` in the interpreter's public field `output`, shared as the
/// field's type asks. The sink that was there before is dropped. Afterwards
/// the sink is a bridge, and a `write` on it is the `write` of `bridge`,
/// which leaves behind what one call of the bridge's callback on the text
/// does.
#[verifier::external_body]
pub(crate) fn install_output<C: Fn(String) + Send + Sync + 'static>(
    interpreter: &mut kast::Kast,
    bridge: OutputBridge<C>,
)
    ensures
        sink_is_bridge(*final(interpreter)),
        forall|text: String| #[trigger]
            sink_effect(*final(interpreter), text) == call_ensures(bridge.callback(), (text,), ()),
{
    interpreter.output = std::sync::Arc::new(bridge);
}

/// Formats `report` with the `Debug` impl of `eyre::Report`. That impl hands
/// the work to the handler that the report was made with, and a handler may
/// read the environment while it formats. So nothing is claimed of the text.
#[verifier::external_body]
pub(crate) fn debug_text(report: &eyre::Report) -> (text: String) {
    format!("{report:?}")
}

} // verus!
