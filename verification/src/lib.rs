//! A bridge that carries callbacks raised on the threads of a native engine
//! into a single-threaded interpreter and carries the interpreter's answers
//! back.
//!
//! A native thread wraps what happened into an envelope, puts it on the
//! hand-off queue and waits on a reply channel of its own. The dispatcher takes
//! envelopes off the queue in the order they arrived; for each one the adapter
//! says which registered callable to invoke and with which arguments, and turns
//! whatever the interpreter did into the one reply the native thread receives.

pub mod adapter;
pub mod channel;
pub mod dispatcher;
pub mod envelope;
pub mod error;
pub mod handle;
pub mod queue;
pub mod reply;
pub mod sidecar;
pub mod trampoline;
