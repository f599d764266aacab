//! An action dispatch bridge: string-identified requests from a host are
//! resolved against two handler families in priority order and executed
//! either synchronously (one enveloped result) or asynchronously (progress
//! notifications drained from a channel and forwarded to host callbacks,
//! ending in exactly one terminal callback).

pub mod callbacks;
pub mod channel;
pub mod dispatch;
pub mod drain;
pub mod envelope;
pub mod messages;
pub mod registry;

pub use callbacks::CallbackSink;
pub use callbacks::Callbacks;
pub use dispatch::drain_once;
pub use dispatch::forward_message;
pub use dispatch::handle_sync;
pub use dispatch::start_async_dispatch;
pub use messages::AsyncActionResult;
pub use messages::CallbackCall;
