//! The resolver service.

use std::sync::Arc;
use trust_dns_resolver::config::{ResolverConfig, ResolverOpts};
use trust_dns_resolver::error::ResolveError;
use trust_dns_resolver::lookup_ip::LookupIp;
use vstd::prelude::*;
use crate::address::{all_unported, unported, SocketAddress};
use crate::addrs::{lookup_addresses, step, SocketAddrs};
use crate::backend::{
    backend_config, backend_options, cloudflare_config, cloudflare_https_config,
    cloudflare_tls_config, default_config, default_options, google_config, lookup_policy,
    name_servers, quad9_config, quad9_https_config, quad9_tls_config, share, tokio_backend,
    Backend,
};
use crate::connector::{
    HttpVersions, NativeTlsHttpsConnector, RootStore, RustlsHttpsConnector, TrustDnsHttpConnector,
};
use crate::settings::{
    cloudflare_addresses, default_policy, encrypted_servers, google_addresses, plain_servers,
    quad9_addresses, LookupPolicy, NameServer, Transport, DNS_OVER_HTTPS_PORT, DNS_OVER_TLS_PORT,
    DNS_PORT,
};

verus! {

/// A name-resolution service over one shared backend resolver.
///
/// The backend is built once and never replaced. Cloning the service clones
/// the pointer, not the backend: every clone resolves with the same
/// configuration.
pub struct TrustDnsResolver {
    resolver: Arc<Backend>,
}

/// One lookup to run: the backend to ask, and the host name to ask it for.
pub struct LookupRequest<'a> {
    /// The backend that the lookup runs on.
    pub backend: Arc<Backend>,
    /// The host name, as the key of the lookup.
    pub host: &'a str,
}

/// What the service answers to a request whose lookup ended in `outcome`:
/// the addresses found, each without a port, or the backend's error as it
/// came.
pub open spec fn response_to(outcome: Result<LookupIp, ResolveError>) -> Result<
    Seq<SocketAddress>,
    ResolveError,
> {
    match outcome {
        Ok(lookup) => Ok(all_unported(lookup_addresses(lookup))),
        Err(error) => Err(error),
    }
}

impl TrustDnsResolver {
    /// The backend that this service and all its clones share.
    pub closed spec fn backend(&self) -> Backend {
        *self.resolver
    }

    /// The configuration that the backend was built with.
    pub open spec fn config(&self) -> ResolverConfig {
        backend_config(self.backend())
    }

    /// The options that the backend was built with.
    pub open spec fn options(&self) -> ResolverOpts {
        backend_options(self.backend())
    }

    /// The name servers that the service resolves with, in order.
    pub open spec fn servers(&self) -> Seq<NameServer> {
        name_servers(self.config())
    }

    /// The timeout, attempt count and hosts-file switch that it resolves
    /// with.
    pub open spec fn policy(&self) -> LookupPolicy {
        lookup_policy(self.options())
    }

    /// A service with the default configuration and options.
    pub fn new() -> (r: Self)
        ensures
            r.servers() == plain_servers(google_addresses(), DNS_PORT),
            r.policy() == default_policy(),
    {
        Self::default()
    }

    /// A service that asks Google's name servers.
    pub fn google() -> (r: Self)
        ensures
            r.servers() == plain_servers(google_addresses(), DNS_PORT),
            r.policy() == default_policy(),
    {
        Self::with_config_and_options(google_config(), default_options())
    }

    /// A service that asks Cloudflare's name servers.
    pub fn cloudflare() -> (r: Self)
        ensures
            r.servers() == plain_servers(cloudflare_addresses(), DNS_PORT),
            r.policy() == default_policy(),
    {
        Self::with_config_and_options(cloudflare_config(), default_options())
    }

    /// A service that asks Cloudflare's name servers over HTTPS only.
    pub fn cloudflare_https() -> (r: Self)
        ensures
            r.servers() == encrypted_servers(
                cloudflare_addresses(),
                DNS_OVER_HTTPS_PORT,
                Transport::Https,
            ),
            r.policy() == default_policy(),
    {
        Self::with_config_and_options(cloudflare_https_config(), default_options())
    }

    /// A service that asks Cloudflare's name servers over TLS only.
    pub fn cloudflare_tls() -> (r: Self)
        ensures
            r.servers() == encrypted_servers(
                cloudflare_addresses(),
                DNS_OVER_TLS_PORT,
                Transport::Tls,
            ),
            r.policy() == default_policy(),
    {
        Self::with_config_and_options(cloudflare_tls_config(), default_options())
    }

    /// A service that asks Quad9's name servers.
    pub fn quad9() -> (r: Self)
        ensures
            r.servers() == plain_servers(quad9_addresses(), DNS_PORT),
            r.policy() == default_policy(),
    {
        Self::with_config_and_options(quad9_config(), default_options())
    }

    /// A service that asks Quad9's name servers over HTTPS only.
    pub fn quad9_https() -> (r: Self)
        ensures
            r.servers() == encrypted_servers(
                quad9_addresses(),
                DNS_OVER_HTTPS_PORT,
                Transport::Https,
            ),
            r.policy() == default_policy(),
    {
        Self::with_config_and_options(quad9_https_config(), default_options())
    }

    /// A service that asks Quad9's name servers over TLS only.
    pub fn quad9_tls() -> (r: Self)
        ensures
            r.servers() == encrypted_servers(quad9_addresses(), DNS_OVER_TLS_PORT, Transport::Tls),
            r.policy() == default_policy(),
    {
        Self::with_config_and_options(quad9_tls_config(), default_options())
    }

    /// A service over a backend built with the given configuration and
    /// options. Building from values in hand cannot fail.
    pub fn with_config_and_options(config: ResolverConfig, options: ResolverOpts) -> (r: Self)
        ensures
            r.config() == config,
            r.options() == options,
    {
        let built = tokio_backend(config, options);
        Self::over(built.unwrap())
    }

    /// A service over the backend that reading the system's resolver
    /// settings gave, or the error of that reading as it came.
    pub fn from_system_conf(system: Result<Backend, ResolveError>) -> (r: Result<
        Self,
        ResolveError,
    >)
        ensures
            match system {
                Ok(backend) => r is Ok && r->Ok_0.backend() == backend,
                Err(error) => r == Err::<Self, ResolveError>(error),
            },
    {
        match system {
            Ok(backend) => Ok(Self::over(backend)),
            Err(error) => Err(error),
        }
    }

    /// A service over `backend`, which from now on is shared.
    fn over(backend: Backend) -> (r: Self)
        ensures
            r.backend() == backend,
    {
        TrustDnsResolver { resolver: Arc::new(backend) }
    }

    /// Whether the service can take a request now. It always can: it holds
    /// nothing back and limits nothing.
    pub fn poll_ready(&self) -> (ready: bool)
        ensures
            ready,
    {
        true
    }

    /// The lookup to run for `name`: on the shared backend, with the name
    /// unchanged as its key. The service itself is left as it was.
    pub fn call<'a>(&self, name: &'a str) -> (request: LookupRequest<'a>)
        ensures
            *request.backend == self.backend(),
            request.host@ == name@,
    {
        LookupRequest { backend: share(&self.resolver), host: name }
    }

    /// The answer to a request, from the outcome of its lookup: the
    /// addresses found, or the backend's error unchanged.
    pub fn response(outcome: Result<LookupIp, ResolveError>) -> (r: Result<
        SocketAddrs,
        ResolveError,
    >)
        ensures
            match r {
                Ok(addrs) => response_to(outcome) == Ok::<Seq<SocketAddress>, ResolveError>(
                    addrs@,
                ),
                Err(error) => response_to(outcome) == Err::<Seq<SocketAddress>, ResolveError>(
                    error,
                ),
            },
    {
        match outcome {
            Ok(lookup) => Ok(SocketAddrs::from_lookup(lookup)),
            Err(error) => Err(error),
        }
    }

    /// A plain-HTTP connector that resolves with this service. It lets only
    /// `http` URIs pass.
    pub fn into_http_connector(self) -> (connector: TrustDnsHttpConnector)
        ensures
            connector == (TrustDnsHttpConnector { resolver: self, enforces_http: true }),
    {
        TrustDnsHttpConnector::new_with_resolver(self)
    }

    /// A TLS connector of the platform's TLS library over this service.
    /// The connector underneath passes every scheme on; whether plain HTTP
    /// is still let through is `https_only`'s to say.
    pub fn into_native_tls_https_connector(self, https_only: bool) -> (connector:
        NativeTlsHttpsConnector)
        ensures
            connector == (NativeTlsHttpsConnector {
                http: TrustDnsHttpConnector { resolver: self, enforces_http: false },
                force_https: https_only,
            }),
    {
        let mut http_connector = self.into_http_connector();
        http_connector.enforce_http(false);
        let mut https_connector = NativeTlsHttpsConnector::new_with_connector(http_connector);
        https_connector.https_only(https_only);
        https_connector
    }

    /// A TLS connector of the portable TLS library over this service, which
    /// trusts the operating system's roots.
    pub fn into_rustls_native_https_connector(
        self,
        https_only: bool,
        versions: HttpVersions,
    ) -> (connector: RustlsHttpsConnector)
        ensures
            connector == (RustlsHttpsConnector {
                http: TrustDnsHttpConnector { resolver: self, enforces_http: false },
                roots: RootStore::Native,
                force_https: https_only,
                versions,
            }),
    {
        let mut http_connector = self.into_http_connector();
        http_connector.enforce_http(false);
        RustlsHttpsConnector::wrap_connector(
            http_connector,
            RootStore::Native,
            https_only,
            versions,
        )
    }

    /// A TLS connector of the portable TLS library over this service, which
    /// trusts the bundled Mozilla roots.
    pub fn into_rustls_webpki_https_connector(
        self,
        https_only: bool,
        versions: HttpVersions,
    ) -> (connector: RustlsHttpsConnector)
        ensures
            connector == (RustlsHttpsConnector {
                http: TrustDnsHttpConnector { resolver: self, enforces_http: false },
                roots: RootStore::Webpki,
                force_https: https_only,
                versions,
            }),
    {
        let mut http_connector = self.into_http_connector();
        http_connector.enforce_http(false);
        RustlsHttpsConnector::wrap_connector(
            http_connector,
            RootStore::Webpki,
            https_only,
            versions,
        )
    }
}

/// A lookup that found an address is answered with a sequence whose first
/// step hands out the first address found, with port zero.
pub proof fn lemma_found_address_is_handed_out(lookup: LookupIp)
    requires
        lookup_addresses(lookup).len() > 0,
    ensures
        response_to(Ok(lookup)) is Ok,
        step(response_to(Ok(lookup))->Ok_0).0 == Some(unported(lookup_addresses(lookup)[0])),
        step(response_to(Ok(lookup))->Ok_0).0->Some_0.port == 0,
{
}

/// The answer to one request is fixed by the outcome of its own lookup:
/// beside a lookup that failed, another that found addresses is answered
/// with all of them, and the failure is answered with its own error.
pub proof fn lemma_failure_leaves_other_answers(found: LookupIp, failure: ResolveError)
    ensures
        response_to(Ok(found)) == Ok::<Seq<SocketAddress>, ResolveError>(
            all_unported(lookup_addresses(found)),
        ),
        response_to(Err(failure)) == Err::<Seq<SocketAddress>, ResolveError>(failure),
{
}

impl Clone for TrustDnsResolver {
    /// Another handle to the same backend, and so to the same configuration
    /// and options.
    fn clone(&self) -> (r: Self)
        ensures
            r == *self,
            r.backend() == self.backend(),
    {
        TrustDnsResolver { resolver: share(&self.resolver) }
    }
}

impl Default for TrustDnsResolver {
    /// The same service as [`TrustDnsResolver::new`] builds.
    fn default() -> (r: Self)
        ensures
            r.servers() == plain_servers(google_addresses(), DNS_PORT),
            r.policy() == default_policy(),
    {
        Self::with_config_and_options(default_config(), default_options())
    }
}

} // verus!
