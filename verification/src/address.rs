//! Network addresses of peers.
use vstd::prelude::*;

verus! {

/// An IP address, as the number that its bytes spell in network order.
///
/// A version 4 address and the version 6 address that embeds it are different.
#[derive(Clone, Copy, PartialEq, Eq, Structural, Debug)]
pub enum IpAddress {
    V4(u32),
    V6(u128),
}

/// The address of the other end of a TCP connection.
#[derive(Debug)]
pub struct PeerAddress {
    /// The IP address.
    pub ip: IpAddress,
    /// The whole address, port included, as it is printed.
    pub text: String,
}

impl Clone for PeerAddress {
    fn clone(&self) -> (other: PeerAddress)
        ensures
            other == *self,
    {
        PeerAddress { ip: self.ip, text: self.text.clone() }
    }
}

} // verus!
