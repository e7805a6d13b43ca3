//! Lifecycle of disposable containers for integration-test fixtures.

pub mod address;
pub mod container;
pub mod daemon;
pub mod error;
pub mod policy;
pub mod waitfor;

pub use address::Ipv4Address;
pub use error::DockerTestError;
pub use policy::StartPolicy;
