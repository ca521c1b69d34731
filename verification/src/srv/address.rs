//! The address of a remote peer.

use vstd::prelude::*;

verus! {

/// A remote peer's network address: host and port, exactly as the transport
/// layer reports them on connection or datagram receipt. The host is the four
/// octets of its address packed big-endian into one integer. An address is
/// the registry key and the argument of every send operation, and stays fixed
/// for a session's lifetime.
#[derive(Clone, Copy, PartialEq, Eq, Structural, Hash, Debug)]
pub struct Address {
    /// The host address: its four octets packed most significant first.
    pub host: u32,
    /// The port.
    pub port: u16,
}

impl Address {
    /// Creates the address with the given packed host octets and port.
    pub fn new(host: u32, port: u16) -> (a: Address)
        ensures
            a.host == host,
            a.port == port,
    {
        Address { host, port }
    }
}

} // verus!
