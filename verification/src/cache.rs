//! Endpoint identity cache: the IP to hardware-address learning table.
//! Upload observations carry the true source hardware address, so they
//! teach the cache; download observations only consult it, and resolve to
//! the all-zero sentinel when nothing was learned for the client IP yet.
//! Entries are overwritten in place and never evicted here.

use vstd::prelude::*;
use vstd::pervasive::VecAdditionalExecFns;

use crate::flow::IpAddress;
use crate::table::{assoc, distinct_keys, lemma_assoc_at, lemma_assoc_contains, lemma_assoc_push, lemma_assoc_update};

verus! {

/// The all-zero sentinel standing for an unknown hardware address.
pub const UNKNOWN_MAC: u64 = 0;

/// The hardware address a download observation with client IP `client`
/// resolves to under the learned table `m`.
pub open spec fn spec_download_mac(m: Map<IpAddress, u64>, client: IpAddress) -> u64 {
    if m.dom().contains(client) {
        m[client]
    } else {
        UNKNOWN_MAC
    }
}

/// The IP to hardware-address learning table. Owned by the single
/// sequential ingestion flow of control; no entry is ever evicted.
pub struct EndpointCache {
    entries: Vec<(IpAddress, u64)>,
}

impl View for EndpointCache {
    type V = Map<IpAddress, u64>;

    closed spec fn view(&self) -> Map<IpAddress, u64> {
        assoc(self.entries@)
    }
}

impl EndpointCache {
    /// Well-formed: no client IP is held twice.
    pub closed spec fn inv(self) -> bool {
        distinct_keys(self.entries@)
    }

    /// An empty table: nothing has been learned.
    pub fn new() -> (c: EndpointCache)
        ensures
            c.inv(),
            c@ == Map::<IpAddress, u64>::empty(),
    {
        EndpointCache { entries: Vec::new() }
    }

    /// The position of the entry carrying `ip`, if one does.
    fn find(&self, ip: IpAddress) -> (r: Option<usize>)
        requires
            self.inv(),
        ensures
            match r {
                Some(i) => i < self.entries@.len() && self.entries@[i as int].0 == ip
                    && self@.dom().contains(ip) && self@[ip] == self.entries@[i as int].1,
                None => !self@.dom().contains(ip),
            },
    {
        let n: usize = self.entries.len();
        let mut i: usize = 0;
        while i < n
            invariant
                n == self.entries@.len(),
                0 <= i <= n,
                self.inv(),
                forall|j: int| 0 <= j < i ==> self.entries@[j].0 != ip,
            decreases n - i,
        {
            if self.entries[i].0 == ip {
                proof {
                    lemma_assoc_at(self.entries@, i as int);
                }
                return Some(i);
            }
            i = i + 1;
        }
        proof {
            lemma_assoc_contains(self.entries@, ip);
        }
        None
    }

    /// Resolves the client's hardware address for one observation. A
    /// download consults the table and never writes: it returns the learned
    /// address, or the all-zero sentinel when none was learned. An upload
    /// knows the client's address directly as `observed_mac`: it returns
    /// that address and leaves the table holding it for `client`.
    pub fn resolve(&mut self, client: IpAddress, is_download: bool, observed_mac: u64) -> (mac:
        u64)
        requires
            old(self).inv(),
        ensures
            final(self).inv(),
            is_download ==> final(self)@ == old(self)@ && mac == spec_download_mac(
                old(self)@,
                client,
            ),
            !is_download ==> final(self)@ == old(self)@.insert(client, observed_mac) && mac
                == observed_mac,
    {
        let found = self.find(client);
        if is_download {
            match found {
                Some(i) => self.entries[i].1,
                None => UNKNOWN_MAC,
            }
        } else {
            match found {
                Some(i) => {
                    let ghost s = self.entries@;
                    if self.entries[i].1 != observed_mac {
                        self.entries.set(i, (client, observed_mac));
                        proof {
                            lemma_assoc_update(s, i as int, observed_mac);
                            assert(final(self).inv()) by {
                                assert forall|a: int, b: int|
                                    0 <= a < b < self.entries@.len() implies self.entries@[a].0
                                    != self.entries@[b].0 by {
                                    assert(s[a].0 != s[b].0);
                                }
                            }
                        }
                    } else {
                        proof {
                            lemma_assoc_at(s, i as int);
                            assert(old(self)@.insert(client, observed_mac) =~= old(self)@);
                        }
                    }
                }
                None => {
                    let ghost s = self.entries@;
                    self.entries.push((client, observed_mac));
                    proof {
                        lemma_assoc_push(s, (client, observed_mac));
                        lemma_assoc_contains(s, client);
                        assert(final(self).inv()) by {
                            assert forall|a: int, b: int|
                                0 <= a < b < self.entries@.len() implies self.entries@[a].0
                                != self.entries@[b].0 by {
                                if b < s.len() {
                                    assert(s[a].0 != s[b].0);
                                }
                            }
                        }
                    }
                }
            }
            observed_mac
        }
    }

}

/// Law: an upload observation from a client IP teaches the table its
/// hardware address, and a later download observation with that client IP
/// resolves to exactly that address.
pub proof fn lemma_upload_then_download(m: Map<IpAddress, u64>, client: IpAddress, mac: u64)
    ensures
        spec_download_mac(m.insert(client, mac), client) == mac,
{
}

/// Law: a download observation whose client IP was never taught resolves
/// to the all-zero sentinel.
pub proof fn lemma_download_unlearned(m: Map<IpAddress, u64>, client: IpAddress)
    requires
        !m.dom().contains(client),
    ensures
        spec_download_mac(m, client) == UNKNOWN_MAC,
{
}

/// Law: two uploads from the same client IP with differing hardware
/// addresses leave the table holding only the most recent one.
pub proof fn lemma_latest_upload_wins(
    m: Map<IpAddress, u64>,
    client: IpAddress,
    first: u64,
    second: u64,
)
    ensures
        m.insert(client, first).insert(client, second) == m.insert(client, second),
{
    assert(m.insert(client, first).insert(client, second) =~= m.insert(client, second));
}

} // verus!
