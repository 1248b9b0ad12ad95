//! A failure boundary between native code and a single-threaded host runtime.
//!
//! A unit of work that runs on the runtime thread may return a value, unwind
//! with a panic, leave an exception pending on the runtime, or do both of the
//! latter. The boundary decides what is done about it, in order of ascending
//! severity: settle the promise that waits for the work, emit an uncaught
//! exception, or abort the process.
//!
//! The library never talks to the runtime itself. It is a state machine: the
//! embedder performs each [`protocol::Request`] on the runtime and hands the
//! [`protocol::Reply`] back to [`activation::Activation::step`].
//!
//! [`model`] holds the state machine over mathematical values, [`script`]
//! what it exchanges with the runtime when every operation succeeds, and
//! [`laws`] what is proved of all its runs.
pub mod activation;
pub mod boundary;
pub mod handle;
pub mod laws;
pub mod message;
pub mod model;
pub mod payload;
pub mod protocol;
pub mod script;

