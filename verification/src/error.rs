//! The failures that starting a container can surface.

use vstd::prelude::*;

verus! {

/// Why a container did not reach the running state.
///
/// A readiness strategy reports its own failures through the same type.
#[derive(Debug)]
pub enum DockerTestError {
    /// The daemon could not start the container because it does not know it;
    /// the text carries the cause that the daemon gave.
    Startup(String),
    /// Any other failure in the exchange with the daemon, an undecodable
    /// error body included.
    Daemon(String),
}

/// A [`DockerTestError`] with the text of its message as a sequence of
/// characters.
pub enum ErrorView {
    Startup(Seq<char>),
    Daemon(Seq<char>),
}

impl View for DockerTestError {
    type V = ErrorView;

    open spec fn view(&self) -> ErrorView {
        match self {
            DockerTestError::Startup(text) => ErrorView::Startup(text@),
            DockerTestError::Daemon(text) => ErrorView::Daemon(text@),
        }
    }
}

impl ErrorView {
    /// The text of the message, whatever the kind.
    pub open spec fn text(self) -> Seq<char> {
        match self {
            ErrorView::Startup(text) => text,
            ErrorView::Daemon(text) => text,
        }
    }
}

impl DockerTestError {
    /// The text of the message, whatever the kind.
    pub fn message(&self) -> (text: &str)
        ensures
            text@ == self@.text(),
    {
        match self {
            DockerTestError::Startup(text) => text.as_str(),
            DockerTestError::Daemon(text) => text.as_str(),
        }
    }
}

} // verus!
