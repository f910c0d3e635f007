//! What the library states of a backend configuration, as plain values.

use vstd::prelude::*;
use crate::address::{IpAddress, SocketAddress};

verus! {

/// How a name server is spoken to.
#[derive(Clone, Copy, Debug, PartialEq, Eq, Hash)]
pub enum Transport {
    /// Plain DNS over UDP.
    Udp,
    /// Plain DNS over TCP.
    Tcp,
    /// DNS over TLS.
    Tls,
    /// DNS over HTTPS.
    Https,
}

/// One upstream name server of a configuration.
#[derive(Clone, Copy, Debug, PartialEq, Eq, Hash)]
pub struct NameServer {
    /// Where the server listens.
    pub address: SocketAddress,
    /// How it is spoken to.
    pub transport: Transport,
}

/// The resolution options that the library speaks of.
#[derive(Clone, Copy, Debug, PartialEq, Eq, Hash)]
pub struct LookupPolicy {
    /// The time allowed to one request, in milliseconds.
    pub timeout_millis: u64,
    /// How often a failed lookup is tried before it is given up.
    pub attempts: usize,
    /// Whether the system's hosts file is asked before the name servers.
    pub use_hosts_file: bool,
}

/// The port of plain DNS.
pub const DNS_PORT: u16 = 53;

/// The port of DNS over TLS.
pub const DNS_OVER_TLS_PORT: u16 = 853;

/// The port of DNS over HTTPS.
pub const DNS_OVER_HTTPS_PORT: u16 = 443;

/// The addresses of Google's public resolvers.
pub open spec fn google_addresses() -> Seq<IpAddress> {
    seq![
        IpAddress::V4([8, 8, 8, 8]),
        IpAddress::V4([8, 8, 4, 4]),
        IpAddress::V6([0x2001, 0x4860, 0x4860, 0, 0, 0, 0, 0x8888]),
        IpAddress::V6([0x2001, 0x4860, 0x4860, 0, 0, 0, 0, 0x8844]),
    ]
}

/// The addresses of Cloudflare's public resolvers.
pub open spec fn cloudflare_addresses() -> Seq<IpAddress> {
    seq![
        IpAddress::V4([1, 1, 1, 1]),
        IpAddress::V4([1, 0, 0, 1]),
        IpAddress::V6([0x2606, 0x4700, 0x4700, 0, 0, 0, 0, 0x1111]),
        IpAddress::V6([0x2606, 0x4700, 0x4700, 0, 0, 0, 0, 0x1001]),
    ]
}

/// The addresses of Quad9's public resolvers.
pub open spec fn quad9_addresses() -> Seq<IpAddress> {
    seq![
        IpAddress::V4([9, 9, 9, 9]),
        IpAddress::V4([149, 112, 112, 112]),
        IpAddress::V6([0x2620, 0x00fe, 0, 0, 0, 0, 0, 0x00fe]),
        IpAddress::V6([0x2620, 0x00fe, 0, 0, 0, 0, 0x00fe, 0x0009]),
    ]
}

/// The servers of a plain configuration: each address over UDP and then over
/// TCP, on the same port, in the order of the addresses.
pub open spec fn plain_servers(ips: Seq<IpAddress>, port: u16) -> Seq<NameServer> {
    Seq::new(
        2 * ips.len(),
        |i: int|
            NameServer {
                address: SocketAddress { ip: ips[i / 2], port },
                transport: if i % 2 == 0 {
                    Transport::Udp
                } else {
                    Transport::Tcp
                },
            },
    )
}

/// The servers of an encrypted configuration: each address once, over the
/// one transport, in the order of the addresses.
pub open spec fn encrypted_servers(ips: Seq<IpAddress>, port: u16, transport: Transport) -> Seq<
    NameServer,
> {
    Seq::new(
        ips.len(),
        |i: int| NameServer { address: SocketAddress { ip: ips[i], port }, transport },
    )
}

/// The options of a configuration that names none: five seconds to a
/// request, two attempts, and the hosts file asked first.
pub open spec fn default_policy() -> LookupPolicy {
    LookupPolicy { timeout_millis: 5000, attempts: 2, use_hosts_file: true }
}

} // verus!
