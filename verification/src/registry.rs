//! The action registry: handler families and first-match resolution.
//!
//! A handler family is one provider of named handlers (for example, a family
//! of git operations and a family of git hosting operations). The dispatcher
//! consults the families in a fixed priority order; the first family that
//! recognizes an action name wins and later families are not consulted.

use vstd::prelude::*;
use crate::messages::AsyncActionResult;
use crate::messages::result_view;

verus! {

/// One provider of named action handlers, implemented by the host-side
/// handler families that register with the dispatcher.
///
/// A family answers, for each action name, whether it has a synchronous or
/// an asynchronous handler, and runs the handler it claimed. A synchronous
/// handler is a pure function of the action name and arguments, which
/// `sync_result` captures; an asynchronous handler sends zero or more
/// `Progress` messages and then one `Terminal` message to the sender it is
/// given, from whatever tasks the shared runtime schedules.
pub trait HandlerFamily: Sized {
    /// Whether this family has a synchronous handler for `action`. A
    /// verified family defines this as its model; left to its default it is
    /// unconstrained.
    open spec fn sync_handled(&self, action: Seq<char>) -> bool {
        arbitrary()
    }

    /// The outcome of this family's synchronous handler on `action` and
    /// `args`. A verified family defines this as its model; left to its
    /// default it is unconstrained.
    open spec fn sync_result(&self, action: Seq<char>, args: Seq<char>) -> Result<
        Seq<char>,
        Seq<char>,
    > {
        arbitrary()
    }

    /// Whether this family has an asynchronous handler for `action`. A
    /// verified family defines this as its model; left to its default it is
    /// unconstrained.
    open spec fn async_handled(&self, action: Seq<char>) -> bool {
        arbitrary()
    }

    /// The asynchronous handler starts this family has performed, oldest
    /// first: one (action, arguments) pair per start. A verified family
    /// defines this as its model; left to its default it is unconstrained.
    open spec fn starts(&self) -> Seq<(Seq<char>, Seq<char>)> {
        arbitrary()
    }

    /// Reports whether this family has a synchronous handler for `action`.
    fn get_sync_handler(&self, action: &str) -> (found: bool)
        ensures
            found == self.sync_handled(action@),
    ;

    /// Runs the synchronous handler this family claimed for `action`.
    fn run_sync(&self, action: &str, args: &str) -> (r: Result<String, String>)
        requires
            self.sync_handled(action@),
        ensures
            result_view(r) == self.sync_result(action@, args@),
    ;

    /// Reports whether this family has an asynchronous handler for `action`.
    fn get_async_handler(&self, action: &str) -> (found: bool)
        ensures
            found == self.async_handled(action@),
    ;

    /// Starts the asynchronous handler this family claimed for `action`,
    /// giving it the action name and arguments verbatim and the producer
    /// end of the dispatch's result channel: exactly one start is appended
    /// to the family's start log. The handler's task runs on the shared
    /// runtime and sends its messages through `results`.
    fn run_async(
        &mut self,
        action: &str,
        args: &str,
        results: tokio::sync::mpsc::UnboundedSender<AsyncActionResult>,
        runtime: &std::sync::Mutex<tokio::runtime::Runtime>,
    )
        requires
            old(self).async_handled(action@),
        ensures
            final(self).starts() == old(self).starts().push((action@, args@)),
    ;
}

/// Which of the two registered families a resolution selected.
#[derive(Debug, Clone, Copy, PartialEq, Eq)]
pub enum ResolvedFamily {
    First,
    Second,
}

/// First-match resolution of a synchronous handler across the two families,
/// in priority order.
pub open spec fn resolve_sync_spec<A: HandlerFamily, B: HandlerFamily>(
    first: A,
    second: B,
    action: Seq<char>,
) -> Option<ResolvedFamily> {
    if first.sync_handled(action) {
        Some(ResolvedFamily::First)
    } else if second.sync_handled(action) {
        Some(ResolvedFamily::Second)
    } else {
        None
    }
}

/// First-match resolution of an asynchronous handler across the two
/// families, in priority order.
pub open spec fn resolve_async_spec<A: HandlerFamily, B: HandlerFamily>(
    first: A,
    second: B,
    action: Seq<char>,
) -> Option<ResolvedFamily> {
    if first.async_handled(action) {
        Some(ResolvedFamily::First)
    } else if second.async_handled(action) {
        Some(ResolvedFamily::Second)
    } else {
        None
    }
}

/// Resolves `action` to the family holding its synchronous handler, trying
/// the families in priority order; the first match wins.
pub fn resolve_sync<A: HandlerFamily, B: HandlerFamily>(
    first: &A,
    second: &B,
    action: &str,
) -> (r: Option<ResolvedFamily>)
    ensures
        r == resolve_sync_spec(*first, *second, action@),
{
    if first.get_sync_handler(action) {
        Some(ResolvedFamily::First)
    } else if second.get_sync_handler(action) {
        Some(ResolvedFamily::Second)
    } else {
        None
    }
}

/// Resolves `action` to the family holding its asynchronous handler, trying
/// the families in priority order; the first match wins.
pub fn resolve_async<A: HandlerFamily, B: HandlerFamily>(
    first: &A,
    second: &B,
    action: &str,
) -> (r: Option<ResolvedFamily>)
    ensures
        r == resolve_async_spec(*first, *second, action@),
{
    if first.get_async_handler(action) {
        Some(ResolvedFamily::First)
    } else if second.get_async_handler(action) {
        Some(ResolvedFamily::Second)
    } else {
        None
    }
}

/// Resolution priority: whenever the first family claims an action name,
/// and so in particular for a name that both families claim, resolution
/// selects the first family's handler in that mode; the second family's
/// claim never affects the choice. Resolution is a function of the
/// families and the name alone, so repeated resolution of one name always
/// yields the same handler.
pub proof fn lemma_resolution_priority<A: HandlerFamily, B: HandlerFamily>(
    first: A,
    second: B,
    action: Seq<char>,
)
    ensures
        first.sync_handled(action) ==> resolve_sync_spec(first, second, action) == Some(
            ResolvedFamily::First,
        ),
        first.async_handled(action) ==> resolve_async_spec(first, second, action) == Some(
            ResolvedFamily::First,
        ),
{
}

} // verus!
