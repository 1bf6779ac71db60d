//! Output bridges: what turns a callback into a sink for the interpreter's
//! text.

use vstd::prelude::*;

verus! {

/// A callback of one text argument, as the interpreter's output sink.
///
/// The bounds `Send + Sync` are the callback's word that it may be called
/// from wherever the interpreter runs; the bridge adds no state of its own.
pub struct OutputBridge<C: Fn(String) + Send + Sync + 'static> {
    callback: C,
}

impl<C: Fn(String) + Send + Sync + 'static> OutputBridge<C> {
    /// Every text may be handed to the callback.
    #[verifier::type_invariant]
    spec fn accepts_every_text(self) -> bool {
        forall|text: String| call_requires(self.callback, (text,))
    }

    /// The callback that this bridge wraps.
    pub closed spec fn callback(self) -> C {
        self.callback
    }

    /// Wraps `callback`. Any callback that takes every text is accepted.
    pub fn new(callback: C) -> (bridge: Self)
        requires
            forall|text: String| call_requires(callback, (text,)),
        ensures
            bridge.callback() == callback,
    {
        OutputBridge { callback }
    }
}

impl<C: Fn(String) + Send + Sync + 'static> kast::Output for OutputBridge<C> {
    /// Hands `s` to the callback, once: what holds after `write` is what
    /// the callback leaves behind when called on `s`.
    fn write(&self, s: String)
        ensures
            call_ensures(self.callback(), (s,), ()),
    {
        proof {
            use_type_invariant(self);
        }
        (self.callback)(s)
    }
}

} // verus!
