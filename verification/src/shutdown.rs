//! The one-shot shutdown that follows a configured timeout.
//!
//! The caller sleeps for [`ShutdownWaiter::delay`] and then calls
//! [`ShutdownWaiter::fire`], which uses the waiter up: a waiter yields one
//! directive and no more.
use crate::timeout::{seconds_span, Timeout};
use core::time::Duration;
use vstd::prelude::*;

verus! {

/// Seconds that sessions in flight are given to finish once shutdown begins.
pub const GRACE_SECONDS: u64 = 5;

/// The order to stop serving, with the time allowed for an orderly stop.
#[derive(Debug, Clone, Copy, PartialEq, Eq)]
pub struct ShutdownDirective {
    pub grace_period: Duration,
}

/// A pending shutdown: the time to wait before the directive is issued.
#[derive(Debug)]
pub struct ShutdownWaiter {
    delay: Duration,
}

impl ShutdownWaiter {
    /// The time to wait.
    pub closed spec fn span(&self) -> Duration {
        self.delay
    }

    /// A waiter that lets `delay` pass.
    pub fn new(delay: Duration) -> (w: Self)
        ensures
            w.span() == delay,
    {
        Self { delay }
    }

    /// A waiter that lets the time of `timeout` pass.
    pub fn after(timeout: Timeout) -> (w: Self)
        ensures
            w.span() == seconds_span(timeout.clock_seconds()),
    {
        Self { delay: timeout.duration() }
    }

    /// How long the caller has to wait before it calls [`Self::fire`].
    pub fn delay(&self) -> (d: Duration)
        ensures
            d == self.span(),
    {
        self.delay
    }

    /// Issues the directive. The grace period does not depend on the delay.
    pub fn fire(self) -> (directive: ShutdownDirective)
        ensures
            directive.grace_period == seconds_span(GRACE_SECONDS),
    {
        ShutdownDirective { grace_period: Duration::from_secs(GRACE_SECONDS) }
    }
}

} // verus!
