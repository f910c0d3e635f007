//! Addresses as plain values.

use vstd::prelude::*;

verus! {

/// An IP address of either family.
#[derive(Clone, Copy, Debug, PartialEq, Eq, Hash)]
pub enum IpAddress {
    /// An IPv4 address, as its four octets in network order.
    V4([u8; 4]),
    /// An IPv6 address, as its eight 16-bit segments in network order.
    V6([u16; 8]),
}

/// An IP address together with a port.
#[derive(Clone, Copy, Debug, PartialEq, Eq, Hash)]
pub struct SocketAddress {
    /// The address.
    pub ip: IpAddress,
    /// The port; zero where none has been chosen yet.
    pub port: u16,
}

/// The address `ip` with no port chosen.
pub open spec fn unported(ip: IpAddress) -> SocketAddress {
    SocketAddress { ip, port: 0 }
}

/// Each of `ips`, in order, with no port chosen.
pub open spec fn all_unported(ips: Seq<IpAddress>) -> Seq<SocketAddress> {
    Seq::new(ips.len(), |i: int| unported(ips[i]))
}

impl SocketAddress {
    /// The socket address of `ip` with the placeholder port zero.
    pub fn without_port(ip: IpAddress) -> (r: SocketAddress)
        ensures
            r == unported(ip),
    {
        SocketAddress { ip, port: 0 }
    }
}

} // verus!
