//! The result channel and the shared execution context, taken from outside
//! crates and trusted through declared types and thin wrappers.
//!
//! The channel is tokio's unbounded multi-producer/single-consumer queue:
//! a handler's task sends `AsyncActionResult` messages through the producer
//! end, and the drain loop blocks on the consumer end. The shared execution
//! context is a tokio runtime behind a mutex: the dispatching thread holds
//! the mutex only for the duration of one blocking receive, so concurrent
//! dispatches take turns driving the runtime.

use vstd::prelude::*;
use crate::messages::AsyncActionResult;

verus! {

/// tokio's single-threaded-or-multi-threaded task executor; opaque here.
#[verifier::external_type_specification]
#[verifier::external_body]
pub struct ExRuntime(tokio::runtime::Runtime);

/// std's mutual-exclusion lock; opaque here, used only to guard the runtime.
#[verifier::external_type_specification]
#[verifier::external_body]
#[verifier::reject_recursive_types(T)]
pub struct ExMutex<T: ?Sized>(std::sync::Mutex<T>);

/// The producer end of tokio's unbounded mpsc channel; opaque here.
#[verifier::external_type_specification]
#[verifier::external_body]
#[verifier::reject_recursive_types(T)]
pub struct ExUnboundedSender<T>(tokio::sync::mpsc::UnboundedSender<T>);

/// The consumer end of tokio's unbounded mpsc channel; opaque here.
#[verifier::external_type_specification]
#[verifier::external_body]
#[verifier::reject_recursive_types(T)]
pub struct ExUnboundedReceiver<T>(tokio::sync::mpsc::UnboundedReceiver<T>);

/// Relies on tokio::sync::mpsc::unbounded_channel: creates a fresh result
/// channel, returning the producer and consumer ends. The channel is
/// unbounded and ordered; nothing more is claimed of it here, since every
/// caller must cope with whatever message sequence the handler's task
/// produces.
#[verifier::external_body]
pub(crate) fn open_channel() -> (
    tokio::sync::mpsc::UnboundedSender<AsyncActionResult>,
    tokio::sync::mpsc::UnboundedReceiver<AsyncActionResult>,
) {
    tokio::sync::mpsc::unbounded_channel()
}

/// Relies on tokio's UnboundedReceiver::recv, driven by Runtime::block_on:
/// blocks the calling thread until a message arrives (`Some`) or until all
/// producer ends are dropped and the queue is empty (`None`, permanently).
/// The runtime mutex is held only for the duration of this one receive, so
/// other dispatching threads may drive the runtime between receives; a
/// poisoned mutex is recovered rather than propagated. No clause constrains
/// the message: it is produced by a concurrently running handler task, so
/// every caller must handle every outcome. tokio documents that block_on
/// panics when called from within an asynchronous execution context; that
/// is a property of the caller's dynamic context, not of these arguments,
/// and the library's drain rounds run on plain host threads.
#[verifier::external_body]
pub(crate) fn next_message(
    runtime: &std::sync::Mutex<tokio::runtime::Runtime>,
    results: &mut tokio::sync::mpsc::UnboundedReceiver<AsyncActionResult>,
) -> Option<AsyncActionResult> {
    let guard = match runtime.lock() {
        Ok(g) => g,
        Err(poisoned) => poisoned.into_inner(),
    };
    guard.block_on(results.recv())
}

} // verus!
