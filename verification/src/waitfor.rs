//! When a started container counts as ready.

use vstd::prelude::*;
use crate::address::Ipv4Address;
use crate::container::{PendingContainer, RunningContainer};
use crate::error::DockerTestError;

verus! {

/// A readiness strategy: decides when a started container may be handed to
/// the test body.
///
/// The strategy alone says what address the running container has; one that
/// expects the container to have exited by then confirms it without an
/// address. A strategy that fails leaves the container on the daemon: removing
/// it is the business of whoever holds its cleanup record. No limit is set on
/// how long a strategy waits; one that gives up after a time, or tries again,
/// says so itself.
pub trait WaitFor {
    /// Waits until `container` is ready and confirms it, or says why it is
    /// not. The strategy owns the container for the length of the wait.
    fn wait_for_ready(&self, container: PendingContainer) -> (outcome: Result<
        RunningContainer,
        DockerTestError,
    >);
}

/// The strategy that does not wait: a container is ready as soon as the daemon
/// has acknowledged its start.
#[derive(Clone, Copy, Debug, PartialEq, Eq, Structural)]
pub struct NoWait {}

impl WaitFor for NoWait {
    fn wait_for_ready(&self, container: PendingContainer) -> (outcome: Result<
        RunningContainer,
        DockerTestError,
    >)
        ensures
            outcome matches Ok(running) && running@ == container@.running(
                Ipv4Address::unspecified_spec(),
            ),
    {
        Ok(RunningContainer::from(container))
    }
}

impl<T: WaitFor + ?Sized> WaitFor for Box<T> {
    /// A boxed strategy waits as the strategy in the box does.
    fn wait_for_ready(&self, container: PendingContainer) -> (outcome: Result<
        RunningContainer,
        DockerTestError,
    >)
        ensures
            call_ensures(T::wait_for_ready, (&**self, container), outcome),
    {
        (**self).wait_for_ready(container)
    }
}

} // verus!
