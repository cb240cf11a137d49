//! In-memory store of outstanding challenges, keyed by wallet address.
//!
//! The store is modelled as a map from the address's characters to the stored
//! challenge. A new challenge for an address replaces any prior one
//! (last-write-wins), a successful verification removes the entry, and
//! entries older than the time-to-live are evicted opportunistically.
//! The surrounding service serializes access to one store instance; every
//! operation here is a plain single-threaded map mutation.

use vstd::prelude::*;

verus! {

/// Age in seconds past which a challenge is no longer accepted.
pub const CHALLENGE_TTL_SECS: i64 = 300;

/// One outstanding challenge: the nonce, the full message the wallet must
/// sign, and the unix time at which it was issued.
#[derive(Debug)]
pub struct ChallengeData {
    pub nonce: String,
    pub message: String,
    pub timestamp: i64,
}

impl Clone for ChallengeData {
    fn clone(&self) -> (r: Self)
        ensures
            r == *self,
    {
        ChallengeData { nonce: self.nonce.clone(), message: self.message.clone(), timestamp: self.timestamp }
    }
}

/// Whether a challenge issued at `issued_at` is still acceptable at `now`:
/// its age must not exceed the time-to-live.
pub open spec fn spec_fresh(issued_at: int, now: int) -> bool {
    now - issued_at <= CHALLENGE_TTL_SECS
}

/// The map that a sequence of keyed entries denotes; a later entry for the
/// same key wins.
pub open spec fn map_of(s: Seq<(String, ChallengeData)>) -> Map<Seq<char>, ChallengeData>
    decreases s.len(),
{
    if s.len() == 0 {
        Map::empty()
    } else {
        map_of(s.drop_last()).insert(s.last().0@, s.last().1)
    }
}

/// No two entries share a key.
pub open spec fn unique_keys(s: Seq<(String, ChallengeData)>) -> bool {
    forall|i: int, j: int|
        0 <= i < j < s.len() ==> (#[trigger] s[i]).0@ != (#[trigger] s[j]).0@
}

pub proof fn lemma_map_of_dom(s: Seq<(String, ChallengeData)>, k: Seq<char>)
    ensures
        map_of(s).contains_key(k) <==> exists|i: int| 0 <= i < s.len() && (#[trigger] s[i]).0@ == k,
    decreases s.len(),
{
    if s.len() == 0 {
    } else {
        lemma_map_of_dom(s.drop_last(), k);
        if s.last().0@ == k {
            assert(s[s.len() - 1].0@ == k);
        } else {
            if map_of(s).contains_key(k) {
                let i = choose|i: int| 0 <= i < s.drop_last().len() && (#[trigger] s.drop_last()[i]).0@ == k;
                assert(s[i].0@ == k);
            }
            if exists|i: int| 0 <= i < s.len() && (#[trigger] s[i]).0@ == k {
                let i = choose|i: int| 0 <= i < s.len() && (#[trigger] s[i]).0@ == k;
                assert(i < s.len() - 1);
                assert(s.drop_last()[i].0@ == k);
            }
        }
    }
}

pub proof fn lemma_map_of_get(s: Seq<(String, ChallengeData)>, i: int)
    requires
        unique_keys(s),
        0 <= i < s.len(),
    ensures
        map_of(s).contains_key(s[i].0@),
        map_of(s)[s[i].0@] == s[i].1,
    decreases s.len(),
{
    lemma_map_of_dom(s, s[i].0@);
    if i == s.len() - 1 {
    } else {
        assert(s[i].0@ != s.last().0@);
        assert(s.drop_last()[i] == s[i]);
        assert(unique_keys(s.drop_last())) by {
            assert(forall|a: int, b: int|
                0 <= a < b < s.drop_last().len() ==> (#[trigger] s.drop_last()[a]) == s[a]
                    && (#[trigger] s.drop_last()[b]) == s[b]);
        }
        lemma_map_of_get(s.drop_last(), i);
    }
}

pub proof fn lemma_map_of_remove(s: Seq<(String, ChallengeData)>, i: int)
    requires
        unique_keys(s),
        0 <= i < s.len(),
    ensures
        map_of(s.remove(i)) == map_of(s).remove(s[i].0@),
    decreases s.len(),
{
    let k = s[i].0@;
    lemma_map_of_dom(s.drop_last(), k);
    if i == s.len() - 1 {
        assert(s.remove(i) =~= s.drop_last());
        assert(!map_of(s.drop_last()).contains_key(k));
        assert(map_of(s).remove(k) =~= map_of(s.drop_last()));
    } else {
        assert(unique_keys(s.drop_last())) by {
            assert(forall|a: int, b: int|
                0 <= a < b < s.drop_last().len() ==> (#[trigger] s.drop_last()[a]) == s[a]
                    && (#[trigger] s.drop_last()[b]) == s[b]);
        }
        assert(s.drop_last()[i] == s[i]);
        lemma_map_of_remove(s.drop_last(), i);
        assert(s.remove(i).drop_last() =~= s.drop_last().remove(i));
        assert(s.remove(i).last() == s.last());
        assert(k != s.last().0@);
        assert(map_of(s.remove(i)) == map_of(s.drop_last().remove(i)).insert(s.last().0@, s.last().1));
        assert(map_of(s.drop_last()).remove(k).insert(s.last().0@, s.last().1) =~= map_of(
            s.drop_last(),
        ).insert(s.last().0@, s.last().1).remove(k));
    }
}

/// The store itself. The entry vector never holds two entries for one key.
pub struct ChallengeStore {
    entries: Vec<(String, ChallengeData)>,
}

impl View for ChallengeStore {
    type V = Map<Seq<char>, ChallengeData>;

    closed spec fn view(&self) -> Map<Seq<char>, ChallengeData> {
        map_of(self.entries@)
    }
}

impl ChallengeStore {
    /// Structural invariant: keys are unique and issuance times are
    /// non-negative unix timestamps.
    pub closed spec fn wf(&self) -> bool {
        &&& unique_keys(self.entries@)
        &&& forall|i: int|
            0 <= i < self.entries@.len() ==> (#[trigger] self.entries@[i]).1.timestamp >= 0
    }

    /// Every stored issuance time is a non-negative unix timestamp.
    pub proof fn lemma_wf_timestamps(&self, k: Seq<char>)
        requires
            self.wf(),
            self@.contains_key(k),
        ensures
            self@[k].timestamp >= 0,
    {
        lemma_map_of_dom(self.entries@, k);
        let i = choose|i: int|
            0 <= i < self.entries@.len() && (#[trigger] self.entries@[i]).0@ == k;
        lemma_map_of_get(self.entries@, i);
    }

    /// An empty store.
    pub fn new() -> (r: Self)
        ensures
            r.wf(),
            r@ == Map::<Seq<char>, ChallengeData>::empty(),
    {
        ChallengeStore { entries: Vec::new() }
    }

    /// The index of the entry for `address`, if one exists.
    fn find_index(&self, address: &String) -> (r: Option<usize>)
        ensures
            match r {
                Some(i) => i < self.entries@.len() && self.entries@[i as int].0@ == address@,
                None => forall|j: int|
                    0 <= j < self.entries@.len() ==> (#[trigger] self.entries@[j]).0@ != address@,
            },
    {
        let mut i: usize = 0;
        while i < self.entries.len()
            invariant
                i <= self.entries@.len(),
                forall|j: int| 0 <= j < i ==> (#[trigger] self.entries@[j]).0@ != address@,
            decreases self.entries@.len() - i,
        {
            if self.entries[i].0 == *address {
                return Some(i);
            }
            i = i + 1;
        }
        None
    }

    /// Stores `data` for `address`, replacing any prior challenge for the
    /// same address.
    pub fn upsert(&mut self, address: String, data: ChallengeData)
        requires
            old(self).wf(),
            data.timestamp >= 0,
        ensures
            final(self).wf(),
            final(self)@ == old(self)@.insert(address@, data),
    {
        let ghost s0 = self.entries@;
        match self.find_index(&address) {
            Some(i) => {
                proof {
                    lemma_map_of_remove(s0, i as int);
                }
                self.entries.remove(i);
            }
            None => {
                proof {
                    lemma_map_of_dom(s0, address@);
                    assert(map_of(s0).remove(address@) =~= map_of(s0));
                }
            }
        }
        let ghost s1 = self.entries@;
        assert(unique_keys(s1) && map_of(s1) == map_of(s0).remove(address@));
        assert(forall|j: int| 0 <= j < s1.len() ==> (#[trigger] s1[j]).0@ != address@) by {
            lemma_map_of_dom(s1, address@);
            if exists|j: int| 0 <= j < s1.len() && (#[trigger] s1[j]).0@ == address@ {
                let j = choose|j: int| 0 <= j < s1.len() && (#[trigger] s1[j]).0@ == address@;
                lemma_map_of_get(s1, j);
            }
        }
        self.entries.push((address, data));
        proof {
            assert(self.entries@.drop_last() =~= s1);
            assert(map_of(self.entries@) == map_of(s1).insert(address@, data));
            assert(map_of(s0).remove(address@).insert(address@, data) =~= map_of(s0).insert(
                address@,
                data,
            ));
        }
    }

    /// Returns the stored challenge for `address` without removing it, so a
    /// failed verification does not burn the challenge.
    pub fn lookup(&self, address: &String) -> (r: Option<ChallengeData>)
        requires
            self.wf(),
        ensures
            match r {
                Some(d) => self@.contains_key(address@) && d == self@[address@],
                None => !self@.contains_key(address@),
            },
    {
        proof {
            lemma_map_of_dom(self.entries@, address@);
        }
        match self.find_index(address) {
            Some(i) => {
                proof {
                    lemma_map_of_get(self.entries@, i as int);
                }
                Some(self.entries[i].1.clone())
            }
            None => None,
        }
    }

    /// Deletes the entry for `address`, if any; called once verification
    /// succeeds, so a challenge is used at most once.
    pub fn remove(&mut self, address: &String)
        requires
            old(self).wf(),
        ensures
            final(self).wf(),
            final(self)@ == old(self)@.remove(address@),
    {
        let ghost s0 = self.entries@;
        match self.find_index(address) {
            Some(i) => {
                proof {
                    lemma_map_of_remove(s0, i as int);
                }
                self.entries.remove(i);
                proof {
                    assert(forall|a: int, b: int|
                        0 <= a < b < self.entries@.len() ==> exists|x: int, y: int|
                            0 <= x < y < s0.len() && s0[x] == (#[trigger] self.entries@[a])
                                && s0[y] == (#[trigger] self.entries@[b]));
                }
            }
            None => {
                proof {
                    lemma_map_of_dom(s0, address@);
                    assert(map_of(s0).remove(address@) =~= map_of(s0));
                }
            }
        }
    }

    /// Evicts every entry whose age at `now` exceeds the time-to-live.
    #[verifier::rlimit(60)]
    pub fn evict_expired(&mut self, now: i64)
        requires
            old(self).wf(),
            now >= 0,
        ensures
            final(self).wf(),
            forall|k: Seq<char>|
                final(self)@.contains_key(k) <==> (old(self)@.contains_key(k) && spec_fresh(
                    old(self)@[k].timestamp as int,
                    now as int,
                )),
            forall|k: Seq<char>|
                final(self)@.contains_key(k) ==> final(self)@[k] == old(self)@[k],
    {
        let ghost s0 = self.entries@;
        let mut kept: Vec<(String, ChallengeData)> = Vec::new();
        let mut i: usize = 0;
        while i < self.entries.len()
            invariant
                unique_keys(s0),
                forall|j: int| 0 <= j < s0.len() ==> (#[trigger] s0[j]).1.timestamp >= 0,
                self.entries@ == s0,
                i <= s0.len(),
                now >= 0,
                forall|a: int|
                    0 <= a < kept@.len() ==> exists|j: int|
                        0 <= j < i && s0[j] == #[trigger] kept@[a],
                forall|j: int|
                    0 <= j < i && spec_fresh(s0[j].1.timestamp as int, now as int)
                        ==> exists|a: int| 0 <= a < kept@.len() && (#[trigger] s0[j]) == kept@[a],
                forall|a: int|
                    0 <= a < kept@.len() ==> spec_fresh(
                        (#[trigger] kept@[a]).1.timestamp as int,
                        now as int,
                    ),
                unique_keys(kept@),
            decreases s0.len() - i,
        {
            let ghost kept0 = kept@;
            let ts = self.entries[i].1.timestamp;
            if now - ts <= CHALLENGE_TTL_SECS {
                let e = &self.entries[i];
                let entry = (e.0.clone(), e.1.clone());
                assert(entry == s0[i as int]);
                assert forall|a: int|
                    0 <= a < kept@.len() implies (#[trigger] kept@[a]).0@ != entry.0@ by {
                    let j = choose|j: int| 0 <= j < i && s0[j] == kept@[a];
                    assert(s0[j].0@ != s0[i as int].0@);
                }
                kept.push(entry);
                proof {
                    assert(kept@ == kept0.push(s0[i as int]));
                    assert forall|j: int|
                        0 <= j < i + 1 && spec_fresh(s0[j].1.timestamp as int, now as int)
                            implies exists|a: int|
                            0 <= a < kept@.len() && (#[trigger] s0[j]) == kept@[a] by {
                        if j < i {
                            let a = choose|a: int| 0 <= a < kept0.len() && s0[j] == kept0[a];
                            assert(kept@[a] == s0[j]);
                        } else {
                            assert(kept@[kept0.len() as int] == s0[i as int]);
                        }
                    }
                }
            } else {
                proof {
                    assert forall|j: int|
                        0 <= j < i + 1 && spec_fresh(s0[j].1.timestamp as int, now as int)
                            implies exists|a: int|
                            0 <= a < kept@.len() && (#[trigger] s0[j]) == kept@[a] by {
                        assert(j < i);
                    }
                }
            }
            i = i + 1;
        }
        self.entries = kept;
        proof {
            let s1 = self.entries@;
            assert forall|k: Seq<char>|
                map_of(s1).contains_key(k) <==> (map_of(s0).contains_key(k) && spec_fresh(
                    map_of(s0)[k].timestamp as int,
                    now as int,
                )) by {
                lemma_map_of_dom(s0, k);
                lemma_map_of_dom(s1, k);
                if map_of(s1).contains_key(k) {
                    let a = choose|a: int| 0 <= a < s1.len() && (#[trigger] s1[a]).0@ == k;
                    let j = choose|j: int| 0 <= j < s0.len() && s0[j] == s1[a];
                    lemma_map_of_get(s0, j);
                }
                if map_of(s0).contains_key(k) && spec_fresh(map_of(s0)[k].timestamp as int, now as int) {
                    let j = choose|j: int| 0 <= j < s0.len() && (#[trigger] s0[j]).0@ == k;
                    lemma_map_of_get(s0, j);
                    let a = choose|a: int| 0 <= a < s1.len() && s0[j] == s1[a];
                    assert(s1[a].0@ == k);
                }
            }
            assert forall|k: Seq<char>|
                map_of(s1).contains_key(k) implies map_of(s1)[k] == map_of(s0)[k] by {
                lemma_map_of_dom(s1, k);
                let a = choose|a: int| 0 <= a < s1.len() && (#[trigger] s1[a]).0@ == k;
                lemma_map_of_get(s1, a);
                let j = choose|j: int| 0 <= j < s0.len() && s0[j] == s1[a];
                lemma_map_of_get(s0, j);
            }
        }
    }
}

} // verus!
