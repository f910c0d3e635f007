//! The address sequence of one completed lookup.

use trust_dns_resolver::lookup::LookupIntoIter;
use trust_dns_resolver::lookup_ip::LookupIp;
use vstd::prelude::*;
use crate::address::{all_unported, IpAddress, SocketAddress};
use crate::backend::{lookup_records, next_record, pending_records, record_iter};

verus! {

/// The addresses of one completed lookup: finite, forward-only, consumed
/// once. Every address comes without a port (port zero).
///
/// The backend's iterator over the lookup's records is wrapped, not
/// copied; records that are no addresses are passed over as they come. Once
/// the iterator has reported the end it is not asked again, so the end is
/// final whatever the backend would do when asked once more.
pub struct SocketAddrs {
    iter: LookupIntoIter,
    exhausted: bool,
}

/// The addresses among `records`, in their order: what is left when every
/// record that is no address is taken out.
pub open spec fn addresses_in(records: Seq<Option<IpAddress>>) -> Seq<IpAddress>
    decreases records.len(),
{
    if records.len() == 0 {
        Seq::empty()
    } else {
        match records[0] {
            Some(ip) => seq![ip] + addresses_in(records.skip(1)),
            None => addresses_in(records.skip(1)),
        }
    }
}

/// The addresses that `lookup` found, in the backend's order.
pub open spec fn lookup_addresses(lookup: LookupIp) -> Seq<IpAddress> {
    addresses_in(lookup_records(lookup))
}

impl View for SocketAddrs {
    type V = Seq<SocketAddress>;

    /// The addresses still to come, in the order in which they will come.
    closed spec fn view(&self) -> Seq<SocketAddress> {
        if self.exhausted {
            Seq::empty()
        } else {
            all_unported(addresses_in(pending_records(self.iter)))
        }
    }
}

/// What one step does to a sequence of addresses still to come: the address
/// handed out, if any is left, and the addresses still to come afterwards.
pub open spec fn step(rest: Seq<SocketAddress>) -> (Option<SocketAddress>, Seq<SocketAddress>) {
    if rest.len() == 0 {
        (None, rest)
    } else {
        (Some(rest[0]), rest.skip(1))
    }
}

/// The addresses still to come after `n` steps from `rest`.
pub open spec fn after_steps(rest: Seq<SocketAddress>, n: nat) -> Seq<SocketAddress>
    decreases n,
{
    if n == 0 {
        rest
    } else {
        step(after_steps(rest, (n - 1) as nat)).1
    }
}

impl SocketAddrs {
    /// The sequence of all addresses of `lookup`, in the backend's order.
    pub fn from_lookup(lookup: LookupIp) -> (addrs: SocketAddrs)
        ensures
            addrs@ == all_unported(lookup_addresses(lookup)),
    {
        SocketAddrs { iter: record_iter(lookup), exhausted: false }
    }

    /// Hands out the next address, or `None` when none is left. After the
    /// first `None` every later call returns `None` as well.
    pub fn next(&mut self) -> (r: Option<SocketAddress>)
        ensures
            (r, final(self)@) == step(old(self)@),
    {
        if self.exhausted {
            return None;
        }
        loop
            invariant
                !self.exhausted,
                self@ == old(self)@,
            decreases pending_records(self.iter).len(),
        {
            let ghost pending = pending_records(self.iter);
            match next_record(&mut self.iter) {
                Some(Some(ip)) => {
                    proof {
                        let rest = addresses_in(pending.skip(1));
                        assert(all_unported(seq![ip] + rest).skip(1) =~= all_unported(rest));
                    }
                    return Some(SocketAddress::without_port(ip));
                },
                Some(None) => {},
                None => {
                    self.exhausted = true;
                    proof {
                        assert(all_unported(addresses_in(pending)) =~= Seq::empty());
                    }
                    return None;
                },
            }
        }
    }

    /// Every address still to come has the placeholder port zero.
    pub proof fn lemma_no_port_chosen(self, i: int)
        requires
            0 <= i < self@.len(),
        ensures
            self@[i].port == 0,
    {
    }
}

/// After `n` steps the first `n` addresses are gone and the others are
/// still to come, in their order; after more steps than there were
/// addresses, nothing is.
pub proof fn lemma_after_steps(rest: Seq<SocketAddress>, n: nat)
    ensures
        n <= rest.len() ==> after_steps(rest, n) == rest.skip(n as int),
        n >= rest.len() ==> after_steps(rest, n).len() == 0,
    decreases n,
{
    if n == 0 {
        assert(rest.skip(0) =~= rest);
    } else {
        let m = (n - 1) as nat;
        lemma_after_steps(rest, m);
        if n <= rest.len() {
            assert(rest.skip(m as int).skip(1) =~= rest.skip(n as int));
        }
    }
}

/// The steps hand the addresses out in order, each exactly once: the step
/// after `k` earlier ones yields the address at position `k`.
pub proof fn lemma_yields_in_order(rest: Seq<SocketAddress>, k: nat)
    requires
        k < rest.len(),
    ensures
        step(after_steps(rest, k)).0 == Some(rest[k as int]),
{
    lemma_after_steps(rest, k);
}

/// Exhaustion is final: once as many steps were taken as there were
/// addresses, every further step yields `None` and leaves nothing to come.
pub proof fn lemma_exhaustion_is_final(rest: Seq<SocketAddress>, k: nat)
    requires
        k >= rest.len(),
    ensures
        step(after_steps(rest, k)).0 is None,
        after_steps(rest, k + 1).len() == 0,
{
    lemma_after_steps(rest, k);
    lemma_after_steps(rest, k + 1);
}

} // verus!
