use std::sync::Arc;

use hyper_trust_dns::{IpAddress, SocketAddress, SocketAddrs};
use trust_dns_resolver::lookup::Lookup;
use trust_dns_resolver::lookup_ip::LookupIp;
use trust_dns_resolver::proto::op::Query;
use trust_dns_resolver::proto::rr::rdata::TXT;
use trust_dns_resolver::proto::rr::{Name, RData, Record, RecordType};

fn host() -> Name {
    Name::from_ascii("www.example.com.").unwrap()
}

fn a(text: &str) -> Record {
    Record::from_rdata(host(), 300, RData::A(text.parse().unwrap()))
}

fn aaaa(text: &str) -> Record {
    Record::from_rdata(host(), 300, RData::AAAA(text.parse().unwrap()))
}

fn txt(text: &str) -> Record {
    Record::from_rdata(host(), 300, RData::TXT(TXT::new(vec![text.to_string()])))
}

fn lookup_of(records: Vec<Record>) -> LookupIp {
    let query = Query::query(host(), RecordType::A);
    LookupIp::from(Lookup::new_with_max_ttl(query, Arc::from(records)))
}

fn v4(a: u8, b: u8, c: u8, d: u8) -> SocketAddress {
    SocketAddress { ip: IpAddress::V4([a, b, c, d]), port: 0 }
}

fn v6(segments: [u16; 8]) -> SocketAddress {
    SocketAddress { ip: IpAddress::V6(segments), port: 0 }
}

fn drain(addrs: &mut SocketAddrs) -> Vec<SocketAddress> {
    let mut out = Vec::new();
    while let Some(address) = addrs.next() {
        out.push(address);
    }
    out
}

#[test]
fn yields_each_address_once_in_the_backends_order() {
    let mut addrs = SocketAddrs::from_lookup(lookup_of(vec![
        a("93.184.216.34"),
        a("10.0.0.7"),
        aaaa("2606:2800:220:1:248:1893:25c8:1946"),
    ]));
    assert_eq!(addrs.next(), Some(v4(93, 184, 216, 34)));
    assert_eq!(addrs.next(), Some(v4(10, 0, 0, 7)));
    assert_eq!(
        addrs.next(),
        Some(v6([0x2606, 0x2800, 0x0220, 0x0001, 0x0248, 0x1893, 0x25c8, 0x1946]))
    );
    assert_eq!(addrs.next(), None);
}

#[test]
fn every_address_has_port_zero() {
    let mut addrs = SocketAddrs::from_lookup(lookup_of(vec![
        a("192.0.2.1"),
        aaaa("2001:db8::1"),
        a("198.51.100.2"),
    ]));
    let all = drain(&mut addrs);
    assert_eq!(all.len(), 3);
    for address in all {
        assert_eq!(address.port, 0);
    }
}

#[test]
fn exhaustion_is_final() {
    let mut addrs = SocketAddrs::from_lookup(lookup_of(vec![a("192.0.2.1")]));
    assert_eq!(addrs.next(), Some(v4(192, 0, 2, 1)));
    for _ in 0..5 {
        assert_eq!(addrs.next(), None);
    }
}

#[test]
fn a_lookup_without_records_is_exhausted_at_once() {
    let mut addrs = SocketAddrs::from_lookup(lookup_of(Vec::new()));
    assert_eq!(addrs.next(), None);
    assert_eq!(addrs.next(), None);
}

#[test]
fn records_that_are_no_addresses_are_passed_over() {
    let mut addrs = SocketAddrs::from_lookup(lookup_of(vec![
        txt("v=spf1 -all"),
        a("192.0.2.1"),
        txt("hello"),
        aaaa("::1"),
        txt("bye"),
    ]));
    assert_eq!(addrs.next(), Some(v4(192, 0, 2, 1)));
    assert_eq!(addrs.next(), Some(v6([0, 0, 0, 0, 0, 0, 0, 1])));
    assert_eq!(addrs.next(), None);
    assert_eq!(addrs.next(), None);
}

#[test]
fn the_end_stays_the_end_where_the_backend_would_go_on() {
    // A record without data makes the backend's iterator report the end
    // early; asked again, it would go on with the records behind it.
    let records = vec![
        a("192.0.2.1"),
        Record::with(host(), RecordType::A, 300),
        a("192.0.2.2"),
    ];

    let mut backend = lookup_of(records.clone()).into_iter();
    assert_eq!(backend.next().map(|ip| ip.to_string()), Some("192.0.2.1".to_string()));
    assert_eq!(backend.next().map(|ip| ip.to_string()), None);
    assert_eq!(backend.next().map(|ip| ip.to_string()), Some("192.0.2.2".to_string()));

    let mut addrs = SocketAddrs::from_lookup(lookup_of(records));
    assert_eq!(addrs.next(), Some(v4(192, 0, 2, 1)));
    assert_eq!(addrs.next(), None);
    assert_eq!(addrs.next(), None);
    assert_eq!(addrs.next(), None);
}

#[test]
fn the_sequence_agrees_with_the_backends_own_address_iterator() {
    let records = vec![
        txt("first"),
        a("198.51.100.1"),
        a("198.51.100.2"),
        txt("between"),
        txt("again"),
        a("198.51.100.3"),
        txt("last"),
    ];
    let backend: Vec<String> = lookup_of(records.clone())
        .into_iter()
        .map(|ip| ip.to_string())
        .collect();
    let mut addrs = SocketAddrs::from_lookup(lookup_of(records));
    let library: Vec<String> = drain(&mut addrs)
        .into_iter()
        .map(|address| match address.ip {
            IpAddress::V4(o) => format!("{}.{}.{}.{}", o[0], o[1], o[2], o[3]),
            IpAddress::V6(_) => panic!("no such record was given"),
        })
        .collect();
    assert_eq!(library, backend);
    assert_eq!(library, vec!["198.51.100.1", "198.51.100.2", "198.51.100.3"]);
}

#[test]
fn several_records_give_several_distinct_addresses() {
    let mut addrs = SocketAddrs::from_lookup(lookup_of(vec![
        a("203.0.113.1"),
        a("203.0.113.2"),
        a("203.0.113.3"),
        aaaa("2001:db8::3"),
    ]));
    let all = drain(&mut addrs);
    assert!(all.len() > 1);
    for i in 0..all.len() {
        assert_eq!(all[i].port, 0);
        for j in 0..i {
            assert_ne!(all[i], all[j]);
        }
    }
}

#[test]
fn partial_consumption_leaves_the_rest_in_place() {
    let mut addrs = SocketAddrs::from_lookup(lookup_of(vec![a("192.0.2.1"), a("192.0.2.2")]));
    assert_eq!(addrs.next(), Some(v4(192, 0, 2, 1)));
    drop(addrs);
}

#[test]
fn without_port_sets_the_placeholder_port() {
    let ip = IpAddress::V6([0x2001, 0xdb8, 0, 0, 0, 0, 0, 0x42]);
    assert_eq!(SocketAddress::without_port(ip), SocketAddress { ip, port: 0 });
}
