//! The callback set: the surface through which results cross back to the
//! host. A sink exposes three one-argument callbacks (success, error,
//! progress) and a ghost log of the invocations made on it, in order, which
//! the dispatch contracts speak of.

use vstd::prelude::*;
use crate::messages::Call;
use crate::messages::CallbackCall;

verus! {

/// Three host-supplied one-argument callbacks, with a ghost log of the
/// invocations made so far. The host implements this for its own adapter;
/// each method appends exactly one record to the log, so a dispatch's
/// contract can pin down the exact sequence of callbacks it makes.
pub trait CallbackSink: Sized {
    /// The invocations made on this sink so far, oldest first. A verified
    /// sink defines this as its model; left to its default it is
    /// unconstrained.
    open spec fn calls(&self) -> Seq<Call> {
        arbitrary()
    }

    /// Invokes the success callback with `payload`.
    fn ok(&mut self, payload: String)
        ensures
            final(self).calls() == old(self).calls().push(Call::Success(payload@)),
    ;

    /// Invokes the error callback with `payload`.
    fn err(&mut self, payload: String)
        ensures
            final(self).calls() == old(self).calls().push(Call::Failure(payload@)),
    ;

    /// Invokes the progress callback with `payload`.
    fn callback(&mut self, payload: String)
        ensures
            final(self).calls() == old(self).calls().push(Call::Progress(payload@)),
    ;
}

/// A callback set that records its invocations in memory, in order. It
/// stands in for a host's callback adapter wherever the invocations are to
/// be inspected afterwards rather than forwarded across a boundary.
pub struct Callbacks {
    pub log: Vec<CallbackCall>,
}

impl Callbacks {
    /// A recording callback set with an empty log.
    pub fn new() -> (c: Callbacks)
        ensures
            c.calls() == Seq::<Call>::empty(),
    {
        let c = Callbacks { log: Vec::new() };
        proof {
            assert(c.calls() =~= Seq::<Call>::empty());
        }
        c
    }
}

impl CallbackSink for Callbacks {
    open spec fn calls(&self) -> Seq<Call> {
        self.log@.map_values(|c: CallbackCall| c@)
    }

    fn ok(&mut self, payload: String) {
        let ghost prior = self.log@;
        let ghost p = payload@;
        self.log.push(CallbackCall::Success(payload));
        proof {
            assert(self.calls() =~= prior.map_values(|c: CallbackCall| c@).push(
                Call::Success(p),
            ));
        }
    }

    fn err(&mut self, payload: String) {
        let ghost prior = self.log@;
        let ghost p = payload@;
        self.log.push(CallbackCall::Failure(payload));
        proof {
            assert(self.calls() =~= prior.map_values(|c: CallbackCall| c@).push(
                Call::Failure(p),
            ));
        }
    }

    fn callback(&mut self, payload: String) {
        let ghost prior = self.log@;
        let ghost p = payload@;
        self.log.push(CallbackCall::Progress(payload));
        proof {
            assert(self.calls() =~= prior.map_values(|c: CallbackCall| c@).push(
                Call::Progress(p),
            ));
        }
    }
}

} // verus!
