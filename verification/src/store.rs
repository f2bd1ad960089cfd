//! A key-value store keyed by account address, the in-library model of the
//! host's persistent per-account rows. Reads and writes are per key, so
//! every update is a read-check-write scoped to a single account.

use vstd::prelude::*;

verus! {

/// The map an entry list denotes: later entries shadow earlier ones (the
/// store itself keeps keys unique, so nothing is ever shadowed).
pub open spec fn kv_map<V>(s: Seq<(String, V)>) -> Map<Seq<char>, V>
    decreases s.len(),
{
    if s.len() == 0 {
        Map::empty()
    } else {
        kv_map(s.drop_last()).insert(s.last().0@, s.last().1)
    }
}

/// No two entries share a key.
pub open spec fn distinct_keys<V>(s: Seq<(String, V)>) -> bool {
    forall|i: int, j: int| 0 <= i < j < s.len() ==> s[i].0@ != s[j].0@
}

proof fn lemma_kv_absent<V>(s: Seq<(String, V)>, k: Seq<char>)
    requires
        forall|j: int| 0 <= j < s.len() ==> s[j].0@ != k,
    ensures
        !kv_map(s).contains_key(k),
    decreases s.len(),
{
    if s.len() > 0 {
        lemma_kv_absent(s.drop_last(), k);
    }
}

proof fn lemma_kv_index<V>(s: Seq<(String, V)>, i: int)
    requires
        distinct_keys(s),
        0 <= i < s.len(),
    ensures
        kv_map(s).contains_key(s[i].0@),
        kv_map(s)[s[i].0@] == s[i].1,
    decreases s.len(),
{
    if i < s.len() - 1 {
        lemma_kv_index(s.drop_last(), i);
        assert(s[i].0@ != s.last().0@);
    }
}

proof fn lemma_kv_remove<V>(s: Seq<(String, V)>, i: int)
    requires
        distinct_keys(s),
        0 <= i < s.len(),
    ensures
        kv_map(s.remove(i)) == kv_map(s).remove(s[i].0@),
    decreases s.len(),
{
    if i == s.len() - 1 {
        assert(s.remove(i) =~= s.drop_last());
        lemma_kv_absent(s.drop_last(), s[i].0@);
        assert(kv_map(s.drop_last()) =~= kv_map(s).remove(s[i].0@));
    } else {
        lemma_kv_remove(s.drop_last(), i);
        assert(s.remove(i).drop_last() =~= s.drop_last().remove(i));
        assert(s.remove(i).last() == s.last());
        assert(s[i].0@ != s.last().0@);
        assert(kv_map(s.drop_last().remove(i)).insert(s.last().0@, s.last().1) =~= kv_map(
            s,
        ).remove(s[i].0@));
    }
}

/// Per-account rows with unique keys.
pub struct AddrMap<V> {
    entries: Vec<(String, V)>,
}

impl<V> View for AddrMap<V> {
    type V = Map<Seq<char>, V>;

    closed spec fn view(&self) -> Map<Seq<char>, V> {
        kv_map(self.entries@)
    }
}

impl<V> AddrMap<V> {
    /// The store's internal invariant: no key appears twice.
    pub closed spec fn wf(&self) -> bool {
        distinct_keys(self.entries@)
    }

    /// An empty store.
    pub fn new() -> (m: Self)
        ensures
            m.wf(),
            m@ == Map::<Seq<char>, V>::empty(),
    {
        AddrMap { entries: Vec::new() }
    }

    fn index_of(&self, key: &String) -> (r: Option<usize>)
        ensures
            match r {
                Some(i) => i < self.entries@.len() && self.entries@[i as int].0@ == key@,
                None => forall|j: int| 0 <= j < self.entries@.len() ==> self.entries@[j].0@ != key@,
            },
    {
        let mut i: usize = 0;
        while i < self.entries.len()
            invariant
                i <= self.entries@.len(),
                forall|j: int| 0 <= j < i ==> self.entries@[j].0@ != key@,
            decreases self.entries@.len() - i,
        {
            if self.entries[i].0 == *key {
                return Some(i);
            }
            i = i + 1;
        }
        None
    }

    /// Reads the row stored under `key`, if any.
    pub fn get<'a>(&'a self, key: &String) -> (r: Option<&'a V>)
        requires
            self.wf(),
        ensures
            match r {
                Some(v) => self@.contains_key(key@) && *v == self@[key@],
                None => !self@.contains_key(key@),
            },
    {
        match self.index_of(key) {
            Some(i) => {
                proof {
                    lemma_kv_index(self.entries@, i as int);
                }
                Some(&self.entries[i].1)
            },
            None => {
                proof {
                    lemma_kv_absent(self.entries@, key@);
                }
                None
            },
        }
    }

    /// Writes the row under `key`, creating or overwriting it: the
    /// per-key atomic store step of a read-check-write.
    pub fn put(&mut self, key: &String, value: V)
        requires
            old(self).wf(),
        ensures
            final(self).wf(),
            final(self)@ == old(self)@.insert(key@, value),
    {
        let ghost pre = self.entries@;
        match self.index_of(key) {
            Some(i) => {
                proof {
                    lemma_kv_remove(pre, i as int);
                }
                self.entries.remove(i);
                proof {
                    let cur = self.entries@;
                    assert forall|a: int, b: int| 0 <= a < b < cur.len() implies cur[a].0@
                        != cur[b].0@ by {
                        if b < i {
                            assert(cur[a] == pre[a] && cur[b] == pre[b]);
                        } else if a < i {
                            assert(cur[a] == pre[a] && cur[b] == pre[b + 1]);
                        } else {
                            assert(cur[a] == pre[a + 1] && cur[b] == pre[b + 1]);
                        }
                    }
                    assert forall|j: int| 0 <= j < cur.len() implies cur[j].0@ != key@ by {
                        if j < i {
                            assert(cur[j] == pre[j] && pre[j].0@ != pre[i as int].0@);
                        } else {
                            assert(cur[j] == pre[j + 1] && pre[i as int].0@ != pre[j + 1].0@);
                        }
                    }
                }
                self.entries.push((key.clone(), value));
                proof {
                    assert(self.entries@.drop_last() =~= pre.remove(i as int));
                    assert(self@ =~= old(self)@.insert(key@, value));
                }
            },
            None => {
                self.entries.push((key.clone(), value));
                proof {
                    assert(self.entries@.drop_last() =~= pre);
                    assert(self@ =~= old(self)@.insert(key@, value));
                }
            },
        }
    }
}

} // verus!
