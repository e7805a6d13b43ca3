//! How a failed start of one container weighs on the whole run.

use vstd::prelude::*;

verus! {

/// Tolerance of the surrounding run towards a container that fails to start.
///
/// The lifecycle only carries this value; whoever sequences the run enforces it.
#[derive(Clone, Copy, Debug, PartialEq, Eq, Structural)]
pub enum StartPolicy {
    /// A failed start of this container is tolerated.
    Relaxed,
    /// A failed start of this container aborts the run.
    Strict,
}

} // verus!
