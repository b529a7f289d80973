//! Waiting between two attempts.
use std::future::Future;
use std::time::Duration;
use vstd::prelude::*;

verus! {

/// A way to wait, so that the client is not tied to one async runtime.
///
/// When a future completes is up to its runtime, so nothing is promised of it
/// here.
pub trait Sleeper: 'static {
    /// The future that [`Sleeper::sleep`] returns.
    type Sleep: Future<Output = ()>;

    /// Returns a future that completes after `dur`.
    fn sleep(dur: Duration) -> Self::Sleep;
}

/// The sleeper of a client that names no other.
///
/// It leaves open how to wait: whoever sends the requests of a client has to
/// bring a [`Sleeper`] for the runtime that they run on.
#[derive(Debug, Clone, Copy)]
pub struct DefaultSleeper;

} // verus!
