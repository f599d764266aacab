//! The model of the drain loop: the sequence of callback invocations that a
//! sequence of receive outcomes gives rise to.
//!
//! Each blocking receive on the result channel yields one event: a message
//! from the handler, or the end-of-stream signal when the channel closed.
//! `drain_calls` maps a sequence of such events to the callback invocations
//! the drain loop makes: progress messages are forwarded one-for-one until
//! the first terminal event, the terminal event is forwarded as the single
//! closing invocation, and everything after it is ignored.

use vstd::prelude::*;
use crate::envelope::closed_envelope_spec;
use crate::messages::AsyncActionResult;
use crate::messages::Call;

verus! {

/// The outcome of one blocking receive on the result channel.
pub enum DrainEvent {
    /// A progress message with its payload.
    Progress(Seq<char>),
    /// A terminal success message with its payload.
    TerminalSuccess(Seq<char>),
    /// A terminal error message with its payload.
    TerminalFailure(Seq<char>),
    /// The channel closed with no message pending.
    Closed,
}

/// The event that one receive outcome denotes.
pub open spec fn event_of(m: Option<AsyncActionResult>) -> DrainEvent {
    match m {
        Some(AsyncActionResult::Progress(p)) => DrainEvent::Progress(p@),
        Some(AsyncActionResult::Terminal(Ok(p))) => DrainEvent::TerminalSuccess(p@),
        Some(AsyncActionResult::Terminal(Err(p))) => DrainEvent::TerminalFailure(p@),
        None => DrainEvent::Closed,
    }
}

/// Whether an event ends the drain loop.
pub open spec fn is_terminal_event(e: DrainEvent) -> bool {
    !(e is Progress)
}

/// The callback invocation that forwarding one event makes: progress goes to
/// the progress callback, a terminal outcome to the success or error
/// callback, and an abnormally closed channel is reported through the error
/// callback rather than by silence.
pub open spec fn forwarded_call(e: DrainEvent) -> Call {
    match e {
        DrainEvent::Progress(p) => Call::Progress(p),
        DrainEvent::TerminalSuccess(p) => Call::Success(p),
        DrainEvent::TerminalFailure(p) => Call::Failure(p),
        DrainEvent::Closed => Call::Failure(closed_envelope_spec()),
    }
}

/// The callback invocations that draining `events` makes, in order: each
/// progress event is forwarded as it arrives, the first terminal event is
/// forwarded and stops the loop, and no event after it is forwarded.
pub open spec fn drain_calls(events: Seq<DrainEvent>) -> Seq<Call>
    decreases events.len(),
{
    if events.len() == 0 {
        Seq::empty()
    } else if events.first() is Progress {
        seq![forwarded_call(events.first())] + drain_calls(events.drop_first())
    } else {
        seq![forwarded_call(events.first())]
    }
}

/// A finished run of the drain loop: at least one event, the last event is
/// terminal, and no earlier event is.
pub open spec fn complete_drain(events: Seq<DrainEvent>) -> bool {
    &&& events.len() >= 1
    &&& is_terminal_event(events.last())
    &&& forall|i: int| 0 <= i < events.len() - 1 ==> !is_terminal_event(#[trigger] events[i])
}

/// A well-formed callback sequence for one asynchronous dispatch: zero or
/// more progress invocations, then exactly one terminal (success or error)
/// invocation, and nothing after it.
pub open spec fn progress_then_one_terminal(calls: Seq<Call>) -> bool {
    &&& calls.len() >= 1
    &&& !(calls.last() is Progress)
    &&& forall|i: int| 0 <= i < calls.len() - 1 ==> (#[trigger] calls[i]) is Progress
}

/// Progress-then-terminal ordering: a finished drain forwards every event
/// it consumed, one invocation per event and in emission order, so the
/// callback sequence is the progress payloads in order followed by exactly
/// one terminal invocation.
pub proof fn lemma_progress_then_terminal(events: Seq<DrainEvent>)
    requires
        complete_drain(events),
    ensures
        drain_calls(events) == events.map_values(|e: DrainEvent| forwarded_call(e)),
        progress_then_one_terminal(drain_calls(events)),
    decreases events.len(),
{
    let f = |e: DrainEvent| forwarded_call(e);
    if events.len() == 1 {
        assert(events.first() == events.last());
        assert(drain_calls(events) =~= events.map_values(f));
    } else {
        assert(!is_terminal_event(events[0]));
        let rest = events.drop_first();
        assert(rest.last() == events.last());
        assert forall|i: int| 0 <= i < rest.len() - 1 implies !is_terminal_event(
            #[trigger] rest[i],
        ) by {
            assert(rest[i] == events[i + 1]);
            assert(!is_terminal_event(events[i + 1]));
        }
        lemma_progress_then_terminal(rest);
        assert(drain_calls(events) =~= events.map_values(f));
    }
    assert(drain_calls(events).last() == f(events.last()));
}

/// No callback after a terminal: events received after a terminal event,
/// however a buggy handler produced them, contribute no callback
/// invocation. Draining a sequence with a terminal event at position `k`
/// forwards nothing from beyond position `k`.
pub proof fn lemma_no_call_after_terminal(events: Seq<DrainEvent>, k: int)
    requires
        0 <= k < events.len(),
        is_terminal_event(events[k]),
    ensures
        drain_calls(events) == drain_calls(events.take(k + 1)),
    decreases events.len(),
{
    let taken = events.take(k + 1);
    if is_terminal_event(events[0]) {
        assert(drain_calls(events) =~= drain_calls(taken));
    } else {
        assert(k >= 1);
        let rest = events.drop_first();
        assert(rest[k - 1] == events[k]);
        lemma_no_call_after_terminal(rest, k - 1);
        assert(rest.take(k) =~= taken.drop_first());
        assert(drain_calls(taken) == seq![forwarded_call(taken.first())] + drain_calls(
            taken.drop_first(),
        ));
        assert(drain_calls(events) =~= drain_calls(taken));
    }
}

/// Abnormal closure surfaces: if the channel closes with no terminal
/// message, the drain loop still ends in exactly one error invocation,
/// carrying the closed-channel envelope, after the forwarded progress.
pub proof fn lemma_abnormal_closure_reported(events: Seq<DrainEvent>)
    requires
        complete_drain(events),
        events.last() is Closed,
    ensures
        progress_then_one_terminal(drain_calls(events)),
        drain_calls(events).last() == Call::Failure(closed_envelope_spec()),
{
    lemma_progress_then_terminal(events);
    assert(drain_calls(events).last() == forwarded_call(events.last()));
}

} // verus!
