//! How the connectors above the resolver service are to be assembled.
//!
//! A connector is described here as plain data: which service resolves for
//! it and which policy flags it carries. The flags are fixed when the
//! connector is made and never change per request.

use vstd::prelude::*;
use crate::resolver::TrustDnsResolver;

verus! {

/// The HTTP versions that a TLS connector offers to the server.
#[derive(Clone, Copy, Debug, PartialEq, Eq, Hash)]
pub enum HttpVersions {
    /// HTTP/1.x only.
    Http1,
    /// HTTP/2 only.
    Http2,
    /// HTTP/2, and HTTP/1.x beside it.
    Http1AndHttp2,
}

/// Where a TLS connector takes its trusted root certificates from.
#[derive(Clone, Copy, Debug, PartialEq, Eq, Hash)]
pub enum RootStore {
    /// The operating system's root store.
    Native,
    /// The bundled Mozilla roots.
    Webpki,
}

/// A plain-HTTP connector that resolves host names with the service.
pub struct TrustDnsHttpConnector {
    /// The service that resolves for the connector.
    pub resolver: TrustDnsResolver,
    /// Whether every URI must have the `http` scheme.
    pub enforces_http: bool,
}

/// A TLS connector of the platform's TLS library over the plain connector.
pub struct NativeTlsHttpsConnector {
    /// The connector underneath.
    pub http: TrustDnsHttpConnector,
    /// Whether a URI without the `https` scheme is refused.
    pub force_https: bool,
}

/// A TLS connector of the portable TLS library over the plain connector.
pub struct RustlsHttpsConnector {
    /// The connector underneath.
    pub http: TrustDnsHttpConnector,
    /// Where the trusted roots come from.
    pub roots: RootStore,
    /// Whether a URI without the `https` scheme is refused.
    pub force_https: bool,
    /// The HTTP versions offered.
    pub versions: HttpVersions,
}

impl TrustDnsHttpConnector {
    /// A connector over `resolver` as it is first made: only `http` URIs
    /// pass.
    pub open spec fn new_with_resolver_spec(resolver: TrustDnsResolver) -> TrustDnsHttpConnector {
        TrustDnsHttpConnector { resolver, enforces_http: true }
    }

    /// A connector over `resolver`. Until told otherwise it lets only
    /// `http` URIs pass.
    pub fn new_with_resolver(resolver: TrustDnsResolver) -> (connector: TrustDnsHttpConnector)
        ensures
            connector == Self::new_with_resolver_spec(resolver),
    {
        TrustDnsHttpConnector { resolver, enforces_http: true }
    }

    /// Sets whether every URI must have the `http` scheme. A connector that
    /// is to stand under a TLS connector must not enforce it.
    pub fn enforce_http(&mut self, is_enforced: bool)
        ensures
            final(self).resolver == old(self).resolver,
            final(self).enforces_http == is_enforced,
    {
        self.enforces_http = is_enforced;
    }
}

impl NativeTlsHttpsConnector {
    /// A TLS connector over `http` that still lets plain HTTP pass.
    pub fn new_with_connector(http: TrustDnsHttpConnector) -> (connector: NativeTlsHttpsConnector)
        ensures
            connector == (NativeTlsHttpsConnector { http, force_https: false }),
    {
        NativeTlsHttpsConnector { http, force_https: false }
    }

    /// Sets whether a URI without the `https` scheme is refused.
    pub fn https_only(&mut self, enable: bool)
        ensures
            final(self).http == old(self).http,
            final(self).force_https == enable,
    {
        self.force_https = enable;
    }
}

impl RustlsHttpsConnector {
    /// A TLS connector over `http` with the given roots, scheme policy and
    /// HTTP versions.
    pub fn wrap_connector(
        http: TrustDnsHttpConnector,
        roots: RootStore,
        https_only: bool,
        versions: HttpVersions,
    ) -> (connector: RustlsHttpsConnector)
        ensures
            connector == (RustlsHttpsConnector { http, roots, force_https: https_only, versions }),
    {
        RustlsHttpsConnector { http, roots, force_https: https_only, versions }
    }
}

} // verus!
