//! The resolver backend: its types as the verifier sees them, and everything
//! that is taken on trust of its functions.
//!
//! Nothing in this file is proved. Each item below states, in its doc
//! comment, what is believed of the backend; the rest of the library is
//! proved from these statements alone.

use std::sync::Arc;
use trust_dns_resolver::config::{ResolverConfig, ResolverOpts};
use trust_dns_resolver::error::ResolveError;
use trust_dns_resolver::lookup::{Lookup, LookupIntoIter};
use trust_dns_resolver::lookup_ip::LookupIp;
use trust_dns_resolver::proto::rr::RData;
use trust_dns_resolver::TokioAsyncResolver;
use vstd::prelude::*;
use crate::address::IpAddress;
use crate::settings::{
    cloudflare_addresses, default_policy, encrypted_servers, google_addresses, plain_servers,
    quad9_addresses, LookupPolicy, NameServer, Transport, DNS_OVER_HTTPS_PORT, DNS_OVER_TLS_PORT,
    DNS_PORT,
};

verus! {

/// The backend's error, carried through as an opaque value.
#[verifier::external_type_specification]
#[verifier::external_body]
pub struct ExResolveError(ResolveError);

/// The backend's result of one successful address lookup, opaque.
#[verifier::external_type_specification]
#[verifier::external_body]
pub struct ExLookupIp(LookupIp);

/// The backend's owning iterator over one lookup's records, opaque.
#[verifier::external_type_specification]
#[verifier::external_body]
pub struct ExLookupIntoIter(LookupIntoIter);

/// The backend's name-server configuration, opaque.
#[verifier::external_type_specification]
#[verifier::external_body]
pub struct ExResolverConfig(ResolverConfig);

/// The backend's resolution options, opaque.
#[verifier::external_type_specification]
#[verifier::external_body]
pub struct ExResolverOpts(ResolverOpts);

/// One backend resolver instance.
///
/// The resolver's own type is generic over traits of the backend crate, so
/// it is held here rather than declared; the verifier sees one opaque value.
/// The field is public so that the code which awaits a lookup can reach it.
#[verifier::external_body]
pub struct Backend {
    /// The resolver to run lookups on.
    pub resolver: TokioAsyncResolver,
}

/// The records that iterating `lookup` from its start yields, in order, up
/// to the first time that the iteration reports the end. A record of type A
/// or AAAA stands as its address, any other record as `None`.
pub uninterp spec fn lookup_records(lookup: LookupIp) -> Seq<Option<IpAddress>>;

/// The records that `iter` has yet to yield, in order, up to the first time
/// that it reports the end; each stands as in [`lookup_records`].
pub uninterp spec fn pending_records(iter: LookupIntoIter) -> Seq<Option<IpAddress>>;

/// The name servers that `config` lists, in order.
pub uninterp spec fn name_servers(config: ResolverConfig) -> Seq<NameServer>;

/// The timeout, attempt count and hosts-file switch of `options`.
pub uninterp spec fn lookup_policy(options: ResolverOpts) -> LookupPolicy;

/// The configuration that `backend` was built with.
pub uninterp spec fn backend_config(backend: Backend) -> ResolverConfig;

/// The options that `backend` was built with.
pub uninterp spec fn backend_options(backend: Backend) -> ResolverOpts;

/// `Lookup::from` and `Lookup::into_iter`: the lookup is unwrapped and its
/// iterator starts at the first record, so what the iterator has yet to
/// yield is all that the lookup holds.
#[verifier::external_body]
pub(crate) fn record_iter(lookup: LookupIp) -> (iter: LookupIntoIter)
    ensures
        pending_records(iter) == lookup_records(lookup),
{
    Lookup::from(lookup).into_iter()
}

/// `LookupIntoIter::next`: reports the end when nothing is pending, and
/// otherwise yields the first pending record and leaves the rest pending.
/// Nothing is claimed of the iterator after it has reported the end. An
/// address record is handed out as its address, octets and segments
/// unchanged; of any other record only that it is none.
#[verifier::external_body]
pub(crate) fn next_record(iter: &mut LookupIntoIter) -> (r: Option<Option<IpAddress>>)
    ensures
        pending_records(*old(iter)).len() == 0 ==> r is None,
        pending_records(*old(iter)).len() > 0 ==> r == Some(pending_records(*old(iter))[0])
            && pending_records(*final(iter)) == pending_records(*old(iter)).skip(1),
{
    match iter.next() {
        Some(RData::A(v4)) => Some(Some(IpAddress::V4(v4.octets()))),
        Some(RData::AAAA(v6)) => Some(Some(IpAddress::V6(v6.segments()))),
        Some(_) => Some(None),
        None => None,
    }
}

/// `TokioAsyncResolver::tokio`: builds a resolver that keeps the given
/// configuration and options. Its signature allows an error, but it returns
/// none: the one constructor underneath ends in `Ok` on every path.
#[verifier::external_body]
pub(crate) fn tokio_backend(config: ResolverConfig, options: ResolverOpts) -> (r: Result<
    Backend,
    ResolveError,
>)
    ensures
        r is Ok,
        backend_config(r->Ok_0) == config,
        backend_options(r->Ok_0) == options,
{
    match TokioAsyncResolver::tokio(config, options) {
        Ok(resolver) => Ok(Backend { resolver }),
        Err(error) => Err(error),
    }
}

/// `Arc::clone`: another pointer to the same backend.
#[verifier::external_body]
pub(crate) fn share(backend: &Arc<Backend>) -> (r: Arc<Backend>)
    ensures
        r == *backend,
{
    Arc::clone(backend)
}

/// `ResolverOpts::default`: five seconds to a request, two attempts, and
/// the hosts file in use.
#[verifier::external_body]
pub(crate) fn default_options() -> (options: ResolverOpts)
    ensures
        lookup_policy(options) == default_policy(),
{
    ResolverOpts::default()
}

/// `ResolverConfig::default`: the same servers as Google's preset.
#[verifier::external_body]
pub(crate) fn default_config() -> (config: ResolverConfig)
    ensures
        name_servers(config) == plain_servers(google_addresses(), DNS_PORT),
{
    ResolverConfig::default()
}

/// `ResolverConfig::google`: Google's four addresses, each over UDP and
/// TCP on port 53.
#[verifier::external_body]
pub(crate) fn google_config() -> (config: ResolverConfig)
    ensures
        name_servers(config) == plain_servers(google_addresses(), DNS_PORT),
{
    ResolverConfig::google()
}

/// `ResolverConfig::cloudflare`: Cloudflare's four addresses, each over UDP
/// and TCP on port 53.
#[verifier::external_body]
pub(crate) fn cloudflare_config() -> (config: ResolverConfig)
    ensures
        name_servers(config) == plain_servers(cloudflare_addresses(), DNS_PORT),
{
    ResolverConfig::cloudflare()
}

/// `ResolverConfig::cloudflare_https`: Cloudflare's four addresses, over
/// HTTPS on port 443 only.
#[verifier::external_body]
pub(crate) fn cloudflare_https_config() -> (config: ResolverConfig)
    ensures
        name_servers(config) == encrypted_servers(
            cloudflare_addresses(),
            DNS_OVER_HTTPS_PORT,
            Transport::Https,
        ),
{
    ResolverConfig::cloudflare_https()
}

/// `ResolverConfig::cloudflare_tls`: Cloudflare's four addresses, over TLS
/// on port 853 only.
#[verifier::external_body]
pub(crate) fn cloudflare_tls_config() -> (config: ResolverConfig)
    ensures
        name_servers(config) == encrypted_servers(
            cloudflare_addresses(),
            DNS_OVER_TLS_PORT,
            Transport::Tls,
        ),
{
    ResolverConfig::cloudflare_tls()
}

/// `ResolverConfig::quad9`: Quad9's four addresses, each over UDP and TCP
/// on port 53.
#[verifier::external_body]
pub(crate) fn quad9_config() -> (config: ResolverConfig)
    ensures
        name_servers(config) == plain_servers(quad9_addresses(), DNS_PORT),
{
    ResolverConfig::quad9()
}

/// `ResolverConfig::quad9_https`: Quad9's four addresses, over HTTPS on
/// port 443 only.
#[verifier::external_body]
pub(crate) fn quad9_https_config() -> (config: ResolverConfig)
    ensures
        name_servers(config) == encrypted_servers(
            quad9_addresses(),
            DNS_OVER_HTTPS_PORT,
            Transport::Https,
        ),
{
    ResolverConfig::quad9_https()
}

/// `ResolverConfig::quad9_tls`: Quad9's four addresses, over TLS on port
/// 853 only.
#[verifier::external_body]
pub(crate) fn quad9_tls_config() -> (config: ResolverConfig)
    ensures
        name_servers(config) == encrypted_servers(
            quad9_addresses(),
            DNS_OVER_TLS_PORT,
            Transport::Tls,
        ),
{
    ResolverConfig::quad9_tls()
}

} // verus!
