//! The library's contracts state which servers and options each preset of
//! the backend holds. These tests hold the backend to those statements.

use std::time::Duration;

use hyper_trust_dns::TrustDnsResolver;
use trust_dns_resolver::config::{Protocol, ResolverConfig, ResolverOpts};

const GOOGLE: [&str; 4] = [
    "8.8.8.8",
    "8.8.4.4",
    "[2001:4860:4860::8888]",
    "[2001:4860:4860::8844]",
];

const CLOUDFLARE: [&str; 4] = [
    "1.1.1.1",
    "1.0.0.1",
    "[2606:4700:4700::1111]",
    "[2606:4700:4700::1001]",
];

const QUAD9: [&str; 4] = [
    "9.9.9.9",
    "149.112.112.112",
    "[2620:fe::fe]",
    "[2620:fe::fe:9]",
];

fn listed(config: &ResolverConfig) -> Vec<(String, Protocol)> {
    config
        .name_servers()
        .iter()
        .map(|server| (server.socket_addr.to_string(), server.protocol))
        .collect()
}

fn plain(hosts: [&str; 4]) -> Vec<(String, Protocol)> {
    let mut servers = Vec::new();
    for host in hosts {
        servers.push((format!("{}:53", host), Protocol::Udp));
        servers.push((format!("{}:53", host), Protocol::Tcp));
    }
    servers
}

fn encrypted(hosts: [&str; 4], port: u16, protocol: Protocol) -> Vec<(String, Protocol)> {
    let mut servers = Vec::new();
    for host in hosts {
        servers.push((format!("{}:{}", host, port), protocol));
    }
    servers
}

#[test]
fn the_default_configuration_is_googles() {
    assert_eq!(listed(&ResolverConfig::default()), plain(GOOGLE));
    assert_eq!(ResolverConfig::default(), ResolverConfig::google());
    assert!(TrustDnsResolver::new().poll_ready());
    assert!(TrustDnsResolver::default().poll_ready());
}

#[test]
fn googles_preset_lists_each_address_over_udp_and_tcp() {
    assert_eq!(listed(&ResolverConfig::google()), plain(GOOGLE));
    assert!(TrustDnsResolver::google().poll_ready());
}

#[test]
fn cloudflares_preset_lists_each_address_over_udp_and_tcp() {
    assert_eq!(listed(&ResolverConfig::cloudflare()), plain(CLOUDFLARE));
    assert!(TrustDnsResolver::cloudflare().poll_ready());
}

#[test]
fn cloudflares_https_preset_lists_each_address_once() {
    assert_eq!(
        listed(&ResolverConfig::cloudflare_https()),
        encrypted(CLOUDFLARE, 443, Protocol::Https)
    );
    assert!(TrustDnsResolver::cloudflare_https().poll_ready());
}

#[test]
fn cloudflares_tls_preset_lists_each_address_once() {
    assert_eq!(
        listed(&ResolverConfig::cloudflare_tls()),
        encrypted(CLOUDFLARE, 853, Protocol::Tls)
    );
    assert!(TrustDnsResolver::cloudflare_tls().poll_ready());
}

#[test]
fn quad9s_preset_lists_each_address_over_udp_and_tcp() {
    assert_eq!(listed(&ResolverConfig::quad9()), plain(QUAD9));
    assert!(TrustDnsResolver::quad9().poll_ready());
}

#[test]
fn quad9s_https_preset_lists_each_address_once() {
    assert_eq!(
        listed(&ResolverConfig::quad9_https()),
        encrypted(QUAD9, 443, Protocol::Https)
    );
    assert!(TrustDnsResolver::quad9_https().poll_ready());
}

#[test]
fn quad9s_tls_preset_lists_each_address_once() {
    assert_eq!(
        listed(&ResolverConfig::quad9_tls()),
        encrypted(QUAD9, 853, Protocol::Tls)
    );
    assert!(TrustDnsResolver::quad9_tls().poll_ready());
}

#[test]
fn the_default_options_are_five_seconds_two_attempts_and_the_hosts_file() {
    let options = ResolverOpts::default();
    assert_eq!(options.timeout, Duration::from_millis(5000));
    assert_eq!(options.attempts, 2);
    assert!(options.use_hosts_file);
}

#[test]
fn a_configuration_without_servers_has_none_to_ask() {
    let mut options = ResolverOpts::default();
    options.use_hosts_file = false;
    let service = TrustDnsResolver::with_config_and_options(ResolverConfig::new(), options);
    let request = service.call("example.com");
    let runtime = tokio::runtime::Builder::new_current_thread()
        .enable_all()
        .build()
        .unwrap();
    let outcome = runtime.block_on(request.backend.resolver.lookup_ip(request.host));
    let error = TrustDnsResolver::response(outcome).err().unwrap();
    assert_eq!(error.to_string(), "No connections available");
}
