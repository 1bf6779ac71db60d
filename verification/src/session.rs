//! Sessions: one interpreter, owned, and what a host does with it but for
//! the evaluation itself.
//!
//! An evaluation may run for ever, and a fault of the interpreter unwinds
//! from it, so the library does not make that call. It says what to hand
//! over (`EvalRequest::new`), lends the interpreter (`interpreter_mut`), and
//! says what to tell the host of the outcome (`conclude`). Who drives a
//! session makes the call between the two.

use crate::bridge::OutputBridge;
use crate::engine::{
    install_output,
    install_panic_hook,
    sink_effect,
    sink_is_bridge,
    start_interpreter,
};
use crate::outcome::diagnose;
use vstd::prelude::*;

verus! {

/// One session: it owns one interpreter, from its start to its end. The
/// interpreter holds the one output sink there is; `set_output` puts a
/// bridge there.
pub struct Session {
    interpreter: kast::Kast,
}

impl Session {
    /// The interpreter that this session owns.
    pub closed spec fn interpreter(self) -> kast::Kast {
        self.interpreter
    }

    /// Whether the output sink of the session's interpreter is an output
    /// bridge. There is never more than one: the sink is one field, and a
    /// new bridge takes the place of what was there.
    pub open spec fn has_bridge(self) -> bool {
        sink_is_bridge(self.interpreter())
    }

    /// What holds when the output sink of the session's interpreter has
    /// been written `text`.
    pub open spec fn delivers(self, text: String) -> bool {
        sink_effect(self.interpreter(), text)
    }

    /// The session around an interpreter that started, or the rendered
    /// diagnostic of one that did not. The interpreter is taken as it is,
    /// with the sink it has.
    pub fn from_start(started: Result<kast::Kast, String>) -> (session: Result<Session, String>)
        ensures
            started is Ok <==> session is Ok,
            started is Ok ==> session->Ok_0.interpreter() == started->Ok_0,
            started is Ok ==> session->Ok_0.has_bridge() == sink_is_bridge(started->Ok_0),
            started is Err ==> session->Err_0 == started->Err_0,
    {
        match started {
            Ok(interpreter) => Ok(Session { interpreter }),
            Err(text) => Err(text),
        }
    }

    /// Sets up the process's panic hook, which happens once however often
    /// this is called, and starts a fresh interpreter. The session has no
    /// output bridge yet: the interpreter writes where it does by default.
    ///
    /// Whether the interpreter starts is its own matter. Where it does not,
    /// there is no session, and the error is the text by which its
    /// diagnostic is shown, which is never empty.
    pub fn new() -> (session: Result<Session, String>)
        ensures
            session is Ok ==> !session->Ok_0.has_bridge(),
            session is Err ==> session->Err_0@.len() > 0,
    {
        install_panic_hook();
        Session::from_start(diagnose(start_interpreter()))
    }

    /// Wraps `callback` in an output bridge and stores it in the interpreter
    /// as its output sink, in place of what was there. Any callback that
    /// takes every text is accepted.
    ///
    /// From now on the sink is a bridge, and a write of a text to it leaves
    /// behind what one call of `callback` on that text does, and nothing of
    /// an earlier callback.
    pub fn set_output<C: Fn(String) + Send + Sync + 'static>(&mut self, callback: C)
        requires
            forall|text: String| call_requires(callback, (text,)),
        ensures
            final(self).has_bridge(),
            forall|text: String| #[trigger]
                final(self).delivers(text) == call_ensures(callback, (text,), ()),
    {
        install_output(&mut self.interpreter, OutputBridge::new(callback));
    }

    /// Lends the session's interpreter, to run an evaluation on. The
    /// session goes on with the interpreter as the borrower leaves it.
    pub fn interpreter_mut(&mut self) -> (interpreter: &mut kast::Kast)
        ensures
            *interpreter == old(self).interpreter(),
            final(self).interpreter() == *final(interpreter),
    {
        &mut self.interpreter
    }
}

} // verus!
