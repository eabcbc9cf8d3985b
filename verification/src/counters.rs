//! Traffic counter aggregator: monotonically increasing byte totals keyed
//! by the client's hardware address. Only download observations add to a
//! counter; upload traffic is already counted as download at the remote
//! peer, so counting it here would count it twice. Totals saturate at the
//! counter's width rather than wrap, which keeps them monotonic.

use vstd::prelude::*;
use vstd::pervasive::VecAdditionalExecFns;

use crate::table::{
    assoc,
    distinct_keys,
    lemma_assoc_at,
    lemma_assoc_contains,
    lemma_assoc_push,
    lemma_assoc_update,
};

verus! {

/// Addition capped at the counter's width.
pub open spec fn sat_add(a: u64, b: u64) -> u64 {
    if a + b <= u64::MAX {
        (a + b) as u64
    } else {
        u64::MAX
    }
}

/// The total held for `mac` by the counter family `m`: zero before the
/// first increment.
pub open spec fn spec_total(m: Map<u64, u64>, mac: u64) -> u64 {
    if m.dom().contains(mac) {
        m[mac]
    } else {
        0
    }
}

/// The counter family after adding `bytes` to the total for `mac`.
pub open spec fn spec_bump(m: Map<u64, u64>, mac: u64, bytes: u64) -> Map<u64, u64> {
    m.insert(mac, sat_add(spec_total(m, mac), bytes))
}

/// Byte totals keyed by hardware address. Written by the single ingestion
/// flow of control; a snapshot serves exposition. No counter is evicted.
pub struct TrafficCounters {
    entries: Vec<(u64, u64)>,
}

impl View for TrafficCounters {
    type V = Map<u64, u64>;

    closed spec fn view(&self) -> Map<u64, u64> {
        assoc(self.entries@)
    }
}

impl TrafficCounters {
    /// Well-formed: no hardware address is counted twice.
    pub closed spec fn inv(self) -> bool {
        distinct_keys(self.entries@)
    }

    /// An empty family: every total is zero.
    pub fn new() -> (c: TrafficCounters)
        ensures
            c.inv(),
            c@ == Map::<u64, u64>::empty(),
    {
        TrafficCounters { entries: Vec::new() }
    }

    /// The position of the counter for `mac`, if one exists.
    fn find(&self, mac: u64) -> (r: Option<usize>)
        requires
            self.inv(),
        ensures
            match r {
                Some(i) => i < self.entries@.len() && self.entries@[i as int].0 == mac
                    && self@.dom().contains(mac) && self@[mac] == self.entries@[i as int].1,
                None => !self@.dom().contains(mac),
            },
    {
        let n: usize = self.entries.len();
        let mut i: usize = 0;
        while i < n
            invariant
                n == self.entries@.len(),
                0 <= i <= n,
                self.inv(),
                forall|j: int| 0 <= j < i ==> self.entries@[j].0 != mac,
            decreases n - i,
        {
            if self.entries[i].0 == mac {
                proof {
                    lemma_assoc_at(self.entries@, i as int);
                }
                return Some(i);
            }
            i = i + 1;
        }
        proof {
            lemma_assoc_contains(self.entries@, mac);
        }
        None
    }

    /// Adds `bytes` to the total for `mac`, capped at the counter's width.
    pub fn increment(&mut self, mac: u64, bytes: u64)
        requires
            old(self).inv(),
        ensures
            final(self).inv(),
            final(self)@ == spec_bump(old(self)@, mac, bytes),
    {
        let found = self.find(mac);
        match found {
            Some(i) => {
                let ghost s = self.entries@;
                let total = self.entries[i].1;
                let bumped: u64 = if total <= u64::MAX - bytes {
                    total + bytes
                } else {
                    u64::MAX
                };
                self.entries.set(i, (mac, bumped));
                proof {
                    lemma_assoc_update(s, i as int, bumped);
                    assert(final(self).inv()) by {
                        assert forall|a: int, b: int|
                            0 <= a < b < self.entries@.len() implies self.entries@[a].0
                            != self.entries@[b].0 by {
                            assert(s[a].0 != s[b].0);
                        }
                    }
                }
            }
            None => {
                let ghost s = self.entries@;
                let bumped: u64 = bytes;
                self.entries.push((mac, bumped));
                proof {
                    lemma_assoc_push(s, (mac, bumped));
                    lemma_assoc_contains(s, mac);
                    assert(final(self).inv()) by {
                        assert forall|a: int, b: int|
                            0 <= a < b < self.entries@.len() implies self.entries@[a].0
                            != self.entries@[b].0 by {
                            if b < s.len() {
                                assert(s[a].0 != s[b].0);
                            }
                        }
                    }
                }
            }
        }
    }

    /// A point-in-time snapshot of every counter, for exposition: each pair
    /// is a counted hardware address with its total, each exactly once.
    pub fn snapshot(&self) -> (r: Vec<(u64, u64)>)
        requires
            self.inv(),
        ensures
            forall|i: int|
                0 <= i < r@.len() ==> self@.dom().contains(#[trigger] r@[i].0) && self@[r@[i].0]
                    == r@[i].1,
            forall|mac: u64|
                self@.dom().contains(mac) ==> exists|i: int|
                    0 <= i < r@.len() && #[trigger] r@[i].0 == mac,
            forall|i: int, j: int| 0 <= i < j < r@.len() ==> r@[i].0 != r@[j].0,
    {
        let n: usize = self.entries.len();
        let mut r: Vec<(u64, u64)> = Vec::new();
        let mut i: usize = 0;
        while i < n
            invariant
                n == self.entries@.len(),
                0 <= i <= n,
                self.inv(),
                r@ == self.entries@.take(i as int),
            decreases n - i,
        {
            r.push(self.entries[i]);
            proof {
                assert(r@ =~= self.entries@.take(i + 1));
            }
            i = i + 1;
        }
        proof {
            assert(r@ =~= self.entries@);
            assert forall|i2: int| 0 <= i2 < r@.len() implies self@.dom().contains(
                #[trigger] r@[i2].0,
            ) && self@[r@[i2].0] == r@[i2].1 by {
                lemma_assoc_at(self.entries@, i2);
            }
            assert forall|mac: u64| self@.dom().contains(mac) implies exists|i2: int|
                0 <= i2 < r@.len() && #[trigger] r@[i2].0 == mac by {
                lemma_assoc_contains(self.entries@, mac);
            }
        }
        r
    }
}

/// Law: an increment moves only the counter it names, and moves it by
/// exactly the byte count wherever the total does not reach the cap.
pub proof fn lemma_increment_exact(m: Map<u64, u64>, mac: u64, bytes: u64)
    requires
        spec_total(m, mac) + bytes <= u64::MAX,
    ensures
        spec_total(spec_bump(m, mac, bytes), mac) == spec_total(m, mac) + bytes,
        forall|other: u64| other != mac ==> spec_total(spec_bump(m, mac, bytes), other)
            == spec_total(m, other),
{
}

} // verus!
