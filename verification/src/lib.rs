//! Graceful shutdowns: wait for the pending tasks before a shutdown is finished.
//!
//! [`Shutdown`] records whether a shutdown has been initiated, how many tasks are pending and
//! which wakers wait for news of either. Its companions ([`Graceful`], [`WithTerminator`],
//! [`CancelOnShutdown`], [`Initiated`], [`GracefulStream`], [`Draining`]) decide what a wrapped
//! future, stream or guard does about it.
//!
//! The crate decides and never waits. Whoever drives a wrapped future polls it, hands over what
//! came back, and gets the answer to pass on. An operation that calls for wake-ups returns the
//! wakers, in the order in which they were registered, and its caller wakes them ([`wake_all`]).
//!
//! Every operation is stated over a [`Model`]: the flag, the number of pending tasks and the
//! registered wakers. What holds of every call, and of one call after another, is in [`calls`];
//! what holds of whole histories of operations is in [`laws`].
pub mod calls;
mod cancel;
mod graceful;
mod inner;
pub mod laws;
pub mod model;
mod poll;
mod shutdown;
pub mod state;
mod stream;
mod terminator;
pub mod waker;

pub use cancel::{CancelOnShutdown, Initiated};
pub use graceful::Graceful;
pub use model::Model;
pub use poll::Poll;
pub use shutdown::{Draining, Shutdown};
pub use state::MAX_PENDING;
pub use stream::{GracefulStream, State};
pub use terminator::{TerminatorStep, WithTerminator};
pub use waker::wake_all;
