//! The two dispatch entry points: synchronous dispatch, which resolves and
//! runs a handler on the calling thread and returns one enveloped result,
//! and asynchronous dispatch, which starts a handler against a fresh result
//! channel and is then driven by draining that channel on the calling
//! thread, one blocking receive at a time, forwarding each message to the
//! host's callback set until a terminal message arrives or the channel
//! closes.
//!
//! The drain loop itself repeats `drain_once` until it reports a terminal
//! event. The loop has no bound: it blocks for as long as the handler keeps
//! producing progress messages, so the host adapter repeats the verified
//! step rather than a loop standing here, and the callback sequence of any
//! finished run is pinned down by `drain_calls` and its lemmas.

use vstd::prelude::*;
use crate::callbacks::CallbackSink;
use crate::channel::next_message;
use crate::channel::open_channel;
use crate::drain::event_of;
use crate::drain::forwarded_call;
use crate::drain::is_terminal_event;
use crate::drain::DrainEvent;
use crate::envelope::closed_envelope;
use crate::envelope::error_envelope;
use crate::envelope::error_envelope_spec;
use crate::envelope::success_envelope;
use crate::envelope::success_envelope_spec;
use crate::envelope::unhandled_envelope;
use crate::envelope::unhandled_envelope_spec;
use crate::messages::result_view;
use crate::messages::AsyncActionResult;
use crate::messages::Call;
use crate::registry::resolve_async;
use crate::registry::resolve_async_spec;
use crate::registry::resolve_sync;
use crate::registry::resolve_sync_spec;
use crate::registry::HandlerFamily;
use crate::registry::ResolvedFamily;

verus! {

/// A handler outcome wrapped for the boundary: the success payload in a
/// success envelope, the error payload in an error envelope.
pub open spec fn enveloped(outcome: Result<Seq<char>, Seq<char>>) -> Result<
    Seq<char>,
    Seq<char>,
> {
    match outcome {
        Ok(p) => Ok(success_envelope_spec(p)),
        Err(p) => Err(error_envelope_spec(p)),
    }
}

/// What synchronous dispatch returns: the enveloped outcome of the first
/// family that recognizes the action, or the unhandled-action error when
/// neither does.
pub open spec fn sync_response<A: HandlerFamily, B: HandlerFamily>(
    first: A,
    second: B,
    action: Seq<char>,
    args: Seq<char>,
) -> Result<Seq<char>, Seq<char>> {
    match resolve_sync_spec(first, second, action) {
        Some(ResolvedFamily::First) => enveloped(first.sync_result(action, args)),
        Some(ResolvedFamily::Second) => enveloped(second.sync_result(action, args)),
        None => Err(unhandled_envelope_spec(action)),
    }
}

/// Synchronous dispatch: resolves `action` across the two handler families
/// in priority order, runs the resolved handler on the calling thread, and
/// returns its outcome in an envelope; an unresolved action returns the
/// unhandled-action error envelope naming the action.
pub fn handle_sync<A: HandlerFamily, B: HandlerFamily>(
    action: &str,
    args: &str,
    first: &A,
    second: &B,
) -> (r: Result<String, String>)
    ensures
        result_view(r) == sync_response(*first, *second, action@, args@),
{
    match resolve_sync(first, second, action) {
        Some(ResolvedFamily::First) => {
            match first.run_sync(action, args) {
                Ok(p) => Ok(success_envelope(p.as_str())),
                Err(p) => Err(error_envelope(p.as_str())),
            }
        },
        Some(ResolvedFamily::Second) => {
            match second.run_sync(action, args) {
                Ok(p) => Ok(success_envelope(p.as_str())),
                Err(p) => Err(error_envelope(p.as_str())),
            }
        },
        None => Err(unhandled_envelope(action)),
    }
}

/// Begins an asynchronous dispatch: resolves `action` across the two
/// handler families in priority order and, on a match, creates a fresh
/// result channel and starts the resolved family's handler — and only it,
/// exactly once, with the action and arguments verbatim and the producer
/// end of the returned channel — returning the consumer end for the drain
/// loop; no callback is invoked and the other family is untouched. An
/// unresolved action invokes the error callback exactly once with the
/// unhandled-action envelope, starts nothing, creates no channel, and
/// returns nothing to drain.
pub fn start_async_dispatch<A: HandlerFamily, B: HandlerFamily, S: CallbackSink>(
    action: &str,
    args: &str,
    callbacks: &mut S,
    runtime: &std::sync::Mutex<tokio::runtime::Runtime>,
    first: &mut A,
    second: &mut B,
) -> (consumer: Option<tokio::sync::mpsc::UnboundedReceiver<AsyncActionResult>>)
    ensures
        consumer is Some <==> resolve_async_spec(*old(first), *old(second), action@) is Some,
        consumer is Some ==> final(callbacks).calls() == old(callbacks).calls(),
        consumer is None ==> final(callbacks).calls() == old(callbacks).calls().push(
            Call::Failure(unhandled_envelope_spec(action@)),
        ),
        resolve_async_spec(*old(first), *old(second), action@) == Some(ResolvedFamily::First) ==> {
            &&& final(first).starts() == old(first).starts().push((action@, args@))
            &&& *final(second) == *old(second)
        },
        resolve_async_spec(*old(first), *old(second), action@) == Some(ResolvedFamily::Second) ==> {
            &&& final(second).starts() == old(second).starts().push((action@, args@))
            &&& *final(first) == *old(first)
        },
        resolve_async_spec(*old(first), *old(second), action@) is None ==> {
            &&& *final(first) == *old(first)
            &&& *final(second) == *old(second)
        },
{
    match resolve_async(&*first, &*second, action) {
        None => {
            callbacks.err(unhandled_envelope(action));
            None
        },
        Some(family) => {
            let (producer, consumer) = open_channel();
            match family {
                ResolvedFamily::First => first.run_async(action, args, producer, runtime),
                ResolvedFamily::Second => second.run_async(action, args, producer, runtime),
            }
            Some(consumer)
        },
    }
}

/// Forwards one receive outcome to the callback set. Exactly one callback
/// is invoked: a progress message goes to the progress callback, a
/// terminal outcome to the success or error callback, and a channel that
/// closed with no message pending is reported through the error callback
/// with the closed-channel envelope rather than by silence. Returns
/// whether the event was terminal, which ends the dispatch.
pub fn forward_message<S: CallbackSink>(msg: Option<AsyncActionResult>, callbacks: &mut S) -> (done:
    bool)
    ensures
        final(callbacks).calls() == old(callbacks).calls().push(forwarded_call(event_of(msg))),
        done == is_terminal_event(event_of(msg)),
{
    match msg {
        Some(AsyncActionResult::Progress(p)) => {
            callbacks.callback(p);
            false
        },
        Some(AsyncActionResult::Terminal(Ok(p))) => {
            callbacks.ok(p);
            true
        },
        Some(AsyncActionResult::Terminal(Err(p))) => {
            callbacks.err(p);
            true
        },
        None => {
            callbacks.err(closed_envelope());
            true
        },
    }
}

/// One round of the drain loop: blocks until the result channel yields a
/// message or closes, holding the runtime mutex only for that receive, and
/// hands the outcome to `forward_message`, which invokes exactly one
/// callback for it. Returns whether the event was terminal, which ends the
/// dispatch: no further round may run for this channel, so no callback
/// follows a terminal one.
pub fn drain_once<S: CallbackSink>(
    runtime: &std::sync::Mutex<tokio::runtime::Runtime>,
    consumer: &mut tokio::sync::mpsc::UnboundedReceiver<AsyncActionResult>,
    callbacks: &mut S,
) -> (step: (bool, Ghost<DrainEvent>))
    ensures
        final(callbacks).calls() == old(callbacks).calls().push(forwarded_call(step.1@)),
        step.0 == is_terminal_event(step.1@),
{
    let msg = next_message(runtime, consumer);
    let ghost ev = event_of(msg);
    let done = forward_message(msg, callbacks);
    (done, Ghost(ev))
}

} // verus!
