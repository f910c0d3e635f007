//! A DNS-resolution adapter for an HTTP client stack.
//!
//! [`TrustDnsResolver`] is a name-resolution service over one shared
//! asynchronous resolver backend. A completed lookup becomes a
//! [`SocketAddrs`]: a forward-only sequence of addresses whose port is zero,
//! since choosing the port is the connection layer's job. The connector
//! types say how the layers above the service are to be assembled.

pub mod address;
pub mod addrs;
pub mod backend;
pub mod connector;
pub mod resolver;
pub mod settings;

pub use crate::address::{IpAddress, SocketAddress};
pub use crate::addrs::SocketAddrs;
pub use crate::backend::Backend;
pub use crate::connector::{
    HttpVersions, NativeTlsHttpsConnector, RootStore, RustlsHttpsConnector, TrustDnsHttpConnector,
};
pub use crate::resolver::TrustDnsResolver;
pub use crate::settings::{LookupPolicy, NameServer, Transport};
