//! A small total map from `u64` keys to `u64` values with default value zero.
//!
//! Backs the points ledger (participant to balance), the identity registry
//! (participant to uniqueness handle, zero meaning unregistered) and the
//! death registry (generation id to its last holder, zero meaning alive).

use vstd::prelude::*;

verus! {

/// Value bound to `key` in the entry sequence `s`: the value of the latest
/// entry with that key, or zero where none exists.
pub open spec fn seq_get(s: Seq<(u64, u64)>, key: u64) -> u64
    decreases s.len(),
{
    if s.len() == 0 {
        0
    } else if s.last().0 == key {
        s.last().1
    } else {
        seq_get(s.drop_last(), key)
    }
}

/// Total map from identifiers to counters, zero by default. Stored as the
/// journal of all bindings ever made; the latest binding of a key wins.
pub struct UintMap {
    pub entries: Vec<(u64, u64)>,
}

impl UintMap {
    /// Value currently bound to `key` (zero where none was ever bound).
    pub open spec fn spec_get(self, key: u64) -> u64 {
        seq_get(self.entries@, key)
    }

    /// The empty map: every key reads zero.
    pub fn new() -> (r: UintMap)
        ensures
            forall|k: u64| r.spec_get(k) == 0,
    {
        UintMap { entries: Vec::new() }
    }

    /// Reads the value bound to `key`.
    pub fn get(&self, key: u64) -> (r: u64)
        ensures
            r == self.spec_get(key),
    {
        let mut i: usize = self.entries.len();
        proof {
            assert(self.entries@.take(i as int) =~= self.entries@);
        }
        while i > 0
            invariant
                i <= self.entries.len(),
                seq_get(self.entries@, key) == seq_get(self.entries@.take(i as int), key),
            decreases i,
        {
            i = i - 1;
            let e = self.entries[i];
            proof {
                assert(self.entries@.take(i as int + 1).last() == self.entries@[i as int]);
                assert(self.entries@.take(i as int + 1).drop_last() =~= self.entries@.take(
                    i as int,
                ));
            }
            if e.0 == key {
                return e.1;
            }
        }
        0
    }

    /// Binds `value` to `key`, leaving every other key unchanged.
    pub fn set(&mut self, key: u64, value: u64)
        ensures
            final(self).spec_get(key) == value,
            forall|k: u64| k != key ==> final(self).spec_get(k) == old(self).spec_get(k),
    {
        self.entries.push((key, value));
        proof {
            assert(self.entries@.drop_last() =~= old(self).entries@);
        }
    }
}

} // verus!
