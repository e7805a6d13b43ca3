//! The IPv4 address at which a container is reached.

use vstd::prelude::*;

verus! {

/// An IPv4 address, written as its four octets in network order.
#[derive(Clone, Copy, Debug, PartialEq, Eq, Structural)]
pub struct Ipv4Address(pub u8, pub u8, pub u8, pub u8);

impl Ipv4Address {
    /// The address `0.0.0.0`, which stands for "no address known".
    pub open spec fn unspecified_spec() -> Ipv4Address {
        Ipv4Address(0, 0, 0, 0)
    }

    /// The address `0.0.0.0`.
    pub fn unspecified() -> (address: Ipv4Address)
        ensures
            address == Self::unspecified_spec(),
    {
        Ipv4Address(0, 0, 0, 0)
    }

    /// Whether this is the address `0.0.0.0`.
    pub fn is_unspecified(&self) -> (unspecified: bool)
        ensures
            unspecified == (*self == Self::unspecified_spec()),
    {
        self.0 == 0 && self.1 == 0 && self.2 == 0 && self.3 == 0
    }

    /// The four octets, first to last.
    pub fn octets(&self) -> (octets: [u8; 4])
        ensures
            octets@ == seq![self.0, self.1, self.2, self.3],
    {
        [self.0, self.1, self.2, self.3]
    }
}

} // verus!
