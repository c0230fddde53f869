//! A verified association-list map from `u64` keys to copyable values.
//!
//! The registry keeps its two lazily populated tables (per-wallet mint
//! counters and token ownership) in this structure; its abstract contents
//! are a `Map<u64, V>`.

use vstd::prelude::*;

verus! {

/// The map described by a sequence of key/value entries; later entries win.
pub open spec fn map_of<V>(s: Seq<(u64, V)>) -> Map<u64, V>
    decreases s.len(),
{
    if s.len() == 0 {
        Map::empty()
    } else {
        map_of(s.drop_last()).insert(s.last().0, s.last().1)
    }
}

/// No key occurs twice in the entry sequence.
pub open spec fn unique_keys<V>(s: Seq<(u64, V)>) -> bool {
    forall|i: int, j: int| 0 <= i < j < s.len() ==> s[i].0 != s[j].0
}

proof fn lemma_map_of_domain<V>(s: Seq<(u64, V)>, k: u64)
    ensures
        map_of(s).contains_key(k) <==> exists|i: int| 0 <= i < s.len() && s[i].0 == k,
    decreases s.len(),
{
    if s.len() > 0 {
        let t = s.drop_last();
        lemma_map_of_domain(t, k);
        if s.last().0 == k {
            assert(s[s.len() - 1].0 == k);
        } else {
            if map_of(t).contains_key(k) {
                let i = choose|i: int| 0 <= i < t.len() && t[i].0 == k;
                assert(s[i].0 == k);
            }
            if exists|i: int| 0 <= i < s.len() && s[i].0 == k {
                let i = choose|i: int| 0 <= i < s.len() && s[i].0 == k;
                assert(i < t.len());
                assert(t[i].0 == k);
            }
        }
    }
}

proof fn lemma_map_of_unique_at<V>(s: Seq<(u64, V)>, i: int)
    requires
        unique_keys(s),
        0 <= i < s.len(),
    ensures
        map_of(s).contains_key(s[i].0),
        map_of(s)[s[i].0] == s[i].1,
    decreases s.len(),
{
    if i == s.len() - 1 {
    } else {
        let t = s.drop_last();
        assert(t[i] == s[i]);
        lemma_map_of_unique_at(t, i);
        assert(s[i].0 != s[s.len() - 1].0);
    }
}

proof fn lemma_map_of_update<V>(s: Seq<(u64, V)>, i: int, v: V)
    requires
        unique_keys(s),
        0 <= i < s.len(),
    ensures
        map_of(s.update(i, (s[i].0, v))) == map_of(s).insert(s[i].0, v),
    decreases s.len(),
{
    let u = s.update(i, (s[i].0, v));
    if i == s.len() - 1 {
        assert(u.drop_last() =~= s.drop_last());
        assert(u.last() == (s[i].0, v));
        assert(map_of(s).insert(s[i].0, v) =~= map_of(s.drop_last()).insert(s[i].0, v));
    } else {
        let t = s.drop_last();
        assert(t[i] == s[i]);
        lemma_map_of_update(t, i, v);
        assert(u.drop_last() =~= t.update(i, (s[i].0, v)));
        assert(u.last() == s.last());
        assert(s[i].0 != s.last().0);
        assert(map_of(t).insert(s[i].0, v).insert(s.last().0, s.last().1) =~= map_of(t).insert(
            s.last().0,
            s.last().1,
        ).insert(s[i].0, v));
    }
}

/// An association list with unique keys and a `Map` view.
pub struct KvMap<V: Copy> {
    entries: Vec<(u64, V)>,
}

impl<V: Copy> View for KvMap<V> {
    type V = Map<u64, V>;

    closed spec fn view(&self) -> Map<u64, V> {
        map_of(self.entries@)
    }
}

impl<V: Copy> KvMap<V> {
    /// Internal shape: every key stored at most once.
    pub closed spec fn wf(&self) -> bool {
        unique_keys(self.entries@)
    }

    pub fn new() -> (r: KvMap<V>)
        ensures
            r.wf(),
            r@ == Map::<u64, V>::empty(),
    {
        KvMap { entries: Vec::new() }
    }

    /// The value stored under `key`, if any.
    pub fn get(&self, key: u64) -> (r: Option<V>)
        requires
            self.wf(),
        ensures
            r == if self@.contains_key(key) {
                Some(self@[key])
            } else {
                None::<V>
            },
    {
        let n: usize = self.entries.len();
        let mut idx: usize = 0;
        while idx < n
            invariant
                n == self.entries@.len(),
                idx <= n,
                self.wf(),
                forall|i: int| 0 <= i < idx ==> self.entries@[i].0 != key,
            decreases n - idx,
        {
            if self.entries[idx].0 == key {
                proof {
                    lemma_map_of_unique_at(self.entries@, idx as int);
                }
                return Some(self.entries[idx].1);
            }
            idx += 1;
        }
        proof {
            lemma_map_of_domain(self.entries@, key);
        }
        None
    }

    /// Stores `value` under `key`, replacing any earlier entry for that key.
    pub fn set(&mut self, key: u64, value: V)
        requires
            old(self).wf(),
        ensures
            final(self).wf(),
            final(self)@ == old(self)@.insert(key, value),
    {
        let n: usize = self.entries.len();
        let mut idx: usize = 0;
        while idx < n
            invariant
                n == self.entries@.len(),
                idx <= n,
                self.wf(),
                self.entries@ == old(self).entries@,
                forall|i: int| 0 <= i < idx ==> self.entries@[i].0 != key,
            decreases n - idx,
        {
            if self.entries[idx].0 == key {
                proof {
                    lemma_map_of_update(self.entries@, idx as int, value);
                    assert((key, value) == (self.entries@[idx as int].0, value));
                }
                self.entries.set(idx, (key, value));
                proof {
                    assert(self.entries@ == old(self).entries@.update(
                        idx as int,
                        (old(self).entries@[idx as int].0, value),
                    ));
                    assert forall|i: int, j: int|
                        0 <= i < j < self.entries@.len() implies self.entries@[i].0
                        != self.entries@[j].0 by {
                        assert(old(self).entries@[i].0 != old(self).entries@[j].0);
                    }
                }
                return;
            }
            idx += 1;
        }
        self.entries.push((key, value));
        proof {
            let t = self.entries@;
            assert forall|i: int, j: int| 0 <= i < j < t.len() implies t[i].0 != t[j].0 by {
                if j < t.len() - 1 {
                    assert(old(self).entries@[i].0 != old(self).entries@[j].0);
                } else {
                    assert(t[i].0 == old(self).entries@[i].0);
                }
            }
            assert(t.drop_last() =~= old(self).entries@);
            assert(t.last() == (key, value));
        }
    }
}

} // verus!
