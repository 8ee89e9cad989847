use vstd::prelude::*;

use crate::serial::Serial;

verus! {

/// A small map keyed by serial: one entry per serial, in order of first insertion.
pub struct SerialMap<V> {
    pub entries: Vec<(Serial, V)>,
}

pub open spec fn has_key<V>(s: Seq<(Serial, V)>, k: Seq<u8>) -> bool {
    exists|i: int| 0 <= i < s.len() && (#[trigger] s[i]).0@ == k
}

pub open spec fn keys_unique<V>(s: Seq<(Serial, V)>) -> bool {
    forall|i: int, j: int|
        0 <= i < s.len() && 0 <= j < s.len() && (#[trigger] s[i]).0@ == (#[trigger] s[j]).0@ ==> i
            == j
}

pub open spec fn index_of<V>(s: Seq<(Serial, V)>, k: Seq<u8>) -> int {
    choose|i: int| 0 <= i < s.len() && (#[trigger] s[i]).0@ == k
}

pub open spec fn entries_map<V>(s: Seq<(Serial, V)>) -> Map<Seq<u8>, V> {
    Map::new(|k: Seq<u8>| has_key(s, k), |k: Seq<u8>| s[index_of(s, k)].1)
}

proof fn lemma_index_of<V>(s: Seq<(Serial, V)>, i: int)
    requires
        keys_unique(s),
        0 <= i < s.len(),
    ensures
        index_of(s, s[i].0@) == i,
        has_key(s, s[i].0@),
{
    let k = s[i].0@;
    assert(has_key(s, k));
    let j = index_of(s, k);
    assert(s[j].0@ == k);
}

/// Replacing the value of entry `i` replaces the value of its key in the map.
pub proof fn lemma_set_value<V>(s: Seq<(Serial, V)>, i: int, v: V)
    requires
        keys_unique(s),
        0 <= i < s.len(),
    ensures
        keys_unique(s.update(i, (s[i].0, v))),
        entries_map(s.update(i, (s[i].0, v))) == entries_map(s).insert(s[i].0@, v),
{
    let t = s.update(i, (s[i].0, v));
    assert forall|a: int, b: int|
        0 <= a < t.len() && 0 <= b < t.len() && (#[trigger] t[a]).0@ == (#[trigger] t[b]).0@ implies a
        == b by {
        assert(s[a].0@ == t[a].0@);
        assert(s[b].0@ == t[b].0@);
    }
    assert forall|k: Seq<u8>| has_key(t, k) == has_key(s, k) by {
        if has_key(t, k) {
            let a = choose|a: int| 0 <= a < t.len() && (#[trigger] t[a]).0@ == k;
            assert(s[a].0@ == k);
        }
        if has_key(s, k) {
            let a = choose|a: int| 0 <= a < s.len() && (#[trigger] s[a]).0@ == k;
            assert(t[a].0@ == k);
        }
    }
    assert forall|k: Seq<u8>| has_key(t, k) implies t[index_of(t, k)].1 == entries_map(s).insert(
        s[i].0@,
        v,
    )[k] by {
        let a = index_of(t, k);
        assert(t[a].0@ == k);
        lemma_index_of(t, a);
        assert(s[a].0@ == k);
        lemma_index_of(s, a);
    }
    assert(entries_map(t) =~= entries_map(s).insert(s[i].0@, v));
}

/// Adding an entry under a new key adds that key to the map.
pub proof fn lemma_push<V>(s: Seq<(Serial, V)>, k: Serial, v: V)
    requires
        keys_unique(s),
        !has_key(s, k@),
    ensures
        keys_unique(s.push((k, v))),
        entries_map(s.push((k, v))) == entries_map(s).insert(k@, v),
{
    let t = s.push((k, v));
    assert forall|a: int, b: int|
        0 <= a < t.len() && 0 <= b < t.len() && (#[trigger] t[a]).0@ == (#[trigger] t[b]).0@ implies a
        == b by {
        if a < s.len() {
            assert(t[a] == s[a]);
        }
        if b < s.len() {
            assert(t[b] == s[b]);
        }
    }
    assert forall|q: Seq<u8>| has_key(t, q) == (has_key(s, q) || q == k@) by {
        if has_key(t, q) {
            let a = choose|a: int| 0 <= a < t.len() && (#[trigger] t[a]).0@ == q;
            if a < s.len() {
                assert(s[a].0@ == q);
            }
        }
        if has_key(s, q) {
            let a = choose|a: int| 0 <= a < s.len() && (#[trigger] s[a]).0@ == q;
            assert(t[a].0@ == q);
        }
        if q == k@ {
            assert(t[s.len() as int].0@ == q);
        }
    }
    assert forall|q: Seq<u8>| has_key(t, q) implies t[index_of(t, q)].1 == entries_map(s).insert(
        k@,
        v,
    )[q] by {
        let a = index_of(t, q);
        assert(t[a].0@ == q);
        lemma_index_of(t, a);
        if a < s.len() {
            assert(t[a] == s[a]);
            lemma_index_of(s, a);
        }
    }
    assert(entries_map(t) =~= entries_map(s).insert(k@, v));
}

impl<V> SerialMap<V> {
    pub open spec fn view(&self) -> Map<Seq<u8>, V> {
        entries_map(self.entries@)
    }

    pub open spec fn wf(&self) -> bool {
        keys_unique(self.entries@)
    }

    pub fn new() -> (r: SerialMap<V>)
        ensures
            r.wf(),
            r.view() == Map::<Seq<u8>, V>::empty(),
    {
        let r = SerialMap { entries: Vec::new() };
        assert(r.view() =~= Map::<Seq<u8>, V>::empty());
        r
    }

    /// The position of the entry for `k`.
    pub fn find(&self, k: &Serial) -> (r: Option<usize>)
        requires
            self.wf(),
        ensures
            match r {
                Some(i) => i < self.entries@.len() && self.entries@[i as int].0@ == k@
                    && index_of(self.entries@, k@) == i && self.view().contains_key(k@),
                None => !self.view().contains_key(k@),
            },
    {
        let mut i: usize = 0;
        while i < self.entries.len()
            invariant
                self.wf(),
                i <= self.entries@.len(),
                forall|j: int| 0 <= j < i ==> (#[trigger] self.entries@[j]).0@ != k@,
            decreases self.entries@.len() - i,
        {
            if self.entries[i].0.same(k) {
                proof {
                    lemma_index_of(self.entries@, i as int);
                }
                return Some(i);
            }
            i = i + 1;
        }
        None
    }

    pub fn get(&self, k: &Serial) -> (r: Option<&V>)
        requires
            self.wf(),
        ensures
            match r {
                Some(v) => self.view().contains_key(k@) && *v == self.view()[k@],
                None => !self.view().contains_key(k@),
            },
    {
        match self.find(k) {
            Some(i) => Some(&self.entries[i].1),
            None => None,
        }
    }

    pub fn insert(&mut self, k: Serial, v: V)
        requires
            old(self).wf(),
        ensures
            final(self).wf(),
            final(self).view() == old(self).view().insert(k@, v),
    {
        match self.find(&k) {
            Some(i) => {
                let ghost key = self.entries@[i as int].0;
                proof {
                    lemma_set_value(self.entries@, i as int, v);
                    assert(k.bytes =~= key.bytes);
                }
                self.entries.set(i, (k, v));
            },
            None => {
                proof {
                    lemma_push(self.entries@, k, v);
                }
                self.entries.push((k, v));
            },
        }
    }
}

} // verus!
