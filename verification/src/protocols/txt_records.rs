//! The key/value dictionary carried in a service's TXT record.

use vstd::prelude::*;
use crate::utils::text::same_text;

verus! {

/// A stored pair, as plain text.
pub type Pair = (Seq<char>, Seq<char>);

/// Pair `i` of `pairs` has the key `k`.
pub open spec fn key_at(pairs: Seq<Pair>, i: int, k: Seq<char>) -> bool {
    0 <= i < pairs.len() && pairs[i].0 == k
}

/// No key occurs in two pairs.
pub open spec fn distinct_keys(pairs: Seq<Pair>) -> bool {
    forall|i: int, j: int, k: Seq<char>|
        #[trigger] key_at(pairs, i, k) && #[trigger] key_at(pairs, j, k) ==> i == j
}

/// The map that a list of pairs with distinct keys stands for.
pub open spec fn map_of(pairs: Seq<Pair>) -> Map<Seq<char>, Seq<char>> {
    Map::new(
        |k: Seq<char>| exists|i: int| key_at(pairs, i, k),
        |k: Seq<char>| pairs[choose|i: int| key_at(pairs, i, k)].1,
    )
}

/// With distinct keys, each pair is an entry of the map and each entry of
/// the map is a pair.
pub proof fn lemma_map_of(pairs: Seq<Pair>)
    requires
        distinct_keys(pairs),
    ensures
        forall|i: int|
            0 <= i < pairs.len() ==> map_of(pairs).contains_key(#[trigger] pairs[i].0) && map_of(
                pairs,
            )[pairs[i].0] == pairs[i].1,
        forall|k: Seq<char>|
            map_of(pairs).contains_key(k) ==> exists|i: int| #[trigger] key_at(pairs, i, k),
{
    assert forall|i: int| 0 <= i < pairs.len() implies map_of(pairs).contains_key(
        #[trigger] pairs[i].0,
    ) && map_of(pairs)[pairs[i].0] == pairs[i].1 by {
        let k = pairs[i].0;
        assert(key_at(pairs, i, k));
        let c = choose|c: int| key_at(pairs, c, k);
        assert(key_at(pairs, c, k));
    }
}

/// The character at a place of a key, or a space where the key ends
/// before it.
pub open spec fn char_at(key: Seq<char>, i: int) -> char {
    if 0 <= i < key.len() {
        key[i]
    } else {
        ' '
    }
}

/// What tells the keys of this crate's records apart: a key's length and
/// its characters at four places. Keys of different marks are different
/// keys.
pub open spec fn key_mark(key: Seq<char>) -> (nat, char, char, char, char) {
    (key.len(), char_at(key, 0), char_at(key, 2), char_at(key, 3), char_at(key, 9))
}

/// With distinct keys, the map has as many entries as there are pairs.
pub proof fn lemma_map_of_len(pairs: Seq<Pair>)
    requires
        distinct_keys(pairs),
    ensures
        map_of(pairs).dom().finite(),
        map_of(pairs).dom().len() == pairs.len(),
    decreases pairs.len(),
{
    if pairs.len() == 0 {
        assert(map_of(pairs).dom() =~= Set::<Seq<char>>::empty());
    } else {
        let front = pairs.drop_last();
        let last = pairs.last();
        let n = front.len() as int;
        assert forall|i: int, k: Seq<char>| key_at(front, i, k) implies key_at(pairs, i, k) by {}
        assert forall|i: int, j: int, k: Seq<char>| #[trigger]
            key_at(front, i, k) && #[trigger] key_at(front, j, k) implies i == j by {
            assert(key_at(pairs, i, k) && key_at(pairs, j, k));
        }
        lemma_map_of_len(front);
        assert(!map_of(front).contains_key(last.0)) by {
            if map_of(front).contains_key(last.0) {
                let i = choose|i: int| key_at(front, i, last.0);
                assert(key_at(pairs, i, last.0));
                assert(key_at(pairs, n, last.0));
            }
        }
        lemma_map_of_push(front, last.0, last.1);
        assert(front.push((last.0, last.1)) =~= pairs);
        assert(map_of(pairs).dom() =~= map_of(front).dom().insert(last.0));
    }
}

/// Appending a pair with a new key adds one entry to the map.
pub proof fn lemma_map_of_push(pairs: Seq<Pair>, k: Seq<char>, v: Seq<char>)
    requires
        distinct_keys(pairs),
        !map_of(pairs).contains_key(k),
    ensures
        distinct_keys(pairs.push((k, v))),
        map_of(pairs.push((k, v))) == map_of(pairs).insert(k, v),
{
    let after = pairs.push((k, v));
    let n = pairs.len() as int;
    assert forall|i: int, q: Seq<char>| i < n implies key_at(after, i, q) == key_at(
        pairs,
        i,
        q,
    ) by {}
    assert forall|i: int, j: int, q: Seq<char>| #[trigger]
        key_at(after, i, q) && #[trigger] key_at(after, j, q) implies i == j by {
        if i < n {
            assert(key_at(pairs, i, q));
        }
        if j < n {
            assert(key_at(pairs, j, q));
        }
    }
    lemma_map_of(pairs);
    lemma_map_of(after);
    assert(key_at(after, n, k));
    assert forall|q: Seq<char>| map_of(after).contains_key(q) == map_of(pairs).insert(
        k,
        v,
    ).contains_key(q) by {
        if map_of(after).contains_key(q) {
            let i = choose|i: int| key_at(after, i, q);
            if i < n {
                assert(key_at(pairs, i, q));
            }
        }
        if map_of(pairs).contains_key(q) {
            let i = choose|i: int| key_at(pairs, i, q);
            assert(key_at(after, i, q));
        }
    }
    assert forall|q: Seq<char>| map_of(after).contains_key(q) implies map_of(after)[q] == map_of(
        pairs,
    ).insert(k, v)[q] by {
        let i = choose|i: int| key_at(after, i, q);
        assert(after[i].0 == q);
        if i < n {
            assert(key_at(pairs, i, q));
            assert(pairs[i].0 == q);
        }
    }
    assert(map_of(after) =~= map_of(pairs).insert(k, v));
}

/// Replacing the value of the pair that holds a key updates that entry.
pub proof fn lemma_map_of_update(pairs: Seq<Pair>, at: int, v: Seq<char>)
    requires
        distinct_keys(pairs),
        0 <= at < pairs.len(),
    ensures
        distinct_keys(pairs.update(at, (pairs[at].0, v))),
        map_of(pairs.update(at, (pairs[at].0, v))) == map_of(pairs).insert(pairs[at].0, v),
{
    let k = pairs[at].0;
    let after = pairs.update(at, (k, v));
    assert forall|i: int, q: Seq<char>| key_at(after, i, q) == key_at(pairs, i, q) by {}
    lemma_map_of(pairs);
    lemma_map_of(after);
    assert(key_at(pairs, at, k));
    assert forall|q: Seq<char>| map_of(after).contains_key(q) == map_of(pairs).insert(
        k,
        v,
    ).contains_key(q) by {
        if map_of(after).contains_key(q) {
            let i = choose|i: int| key_at(after, i, q);
            assert(key_at(pairs, i, q));
        }
        if map_of(pairs).contains_key(q) {
            let i = choose|i: int| key_at(pairs, i, q);
            assert(key_at(after, i, q));
        }
    }
    assert forall|q: Seq<char>| map_of(after).contains_key(q) implies map_of(after)[q] == map_of(
        pairs,
    ).insert(k, v)[q] by {
        let i = choose|i: int| key_at(after, i, q);
        assert(key_at(pairs, i, q));
        assert(after[i].0 == q);
        assert(pairs[i].0 == q);
        if q == k {
            assert(i == at);
        }
    }
    assert(map_of(after) =~= map_of(pairs).insert(k, v));
}

/// A dictionary from text keys to text values. Its view is the map it
/// stands for; no key is stored twice. The pairs are kept in a vector:
/// std's hash map is specified in vstd under a model of its keys that
/// vstd gives for integers, not for `String`.
#[derive(Debug)]
pub struct TxtRecords {
    entries: Vec<(String, String)>,
}

impl View for TxtRecords {
    type V = Map<Seq<char>, Seq<char>>;

    closed spec fn view(&self) -> Map<Seq<char>, Seq<char>> {
        map_of(self.pairs())
    }
}

impl TxtRecords {
    /// The stored pairs, in storage order.
    pub closed spec fn pairs(&self) -> Seq<Pair> {
        Seq::new(self.entries@.len(), |i: int| (self.entries@[i].0@, self.entries@[i].1@))
    }

    /// No key is stored twice.
    pub open spec fn wf(&self) -> bool {
        distinct_keys(self.pairs())
    }

    pub fn new() -> (records: Self)
        ensures
            records.wf(),
            records@ == Map::<Seq<char>, Seq<char>>::empty(),
            records.pairs().len() == 0,
    {
        let records = TxtRecords { entries: Vec::new() };
        assert(records@ =~= Map::<Seq<char>, Seq<char>>::empty());
        records
    }

    /// The number of entries.
    pub fn len(&self) -> (n: usize)
        ensures
            n == self.pairs().len(),
            self.wf() ==> self@.dom().finite() && n == self@.dom().len(),
    {
        proof {
            if self.wf() {
                lemma_map_of_len(self.pairs());
            }
        }
        self.entries.len()
    }

    /// The storage index of `key`, if it is present.
    fn find(&self, key: &str) -> (found: Option<usize>)
        ensures
            match found {
                Some(i) => key_at(self.pairs(), i as int, key@),
                None => !self@.contains_key(key@),
            },
    {
        let mut i: usize = 0;
        while i < self.entries.len()
            invariant
                i <= self.entries@.len(),
                forall|j: int| 0 <= j < i ==> !key_at(self.pairs(), j, key@),
            decreases self.entries@.len() - i,
        {
            if same_text(self.entries[i].0.as_str(), key) {
                return Some(i);
            }
            i += 1;
        }
        None
    }

    pub fn contains_key(&self, key: &str) -> (present: bool)
        ensures
            present == self@.contains_key(key@),
    {
        self.find(key).is_some()
    }

    /// The value stored under `key`.
    pub fn get(&self, key: &str) -> (value: Option<String>)
        requires
            self.wf(),
        ensures
            match value {
                Some(v) => self@.contains_key(key@) && v@ == self@[key@],
                None => !self@.contains_key(key@),
            },
    {
        match self.find(key) {
            Some(i) => {
                proof {
                    lemma_map_of(self.pairs());
                    assert(self.pairs()[i as int].0 == key@);
                }
                Some(self.entries[i].1.clone())
            },
            None => None,
        }
    }

    /// A copy of the stored pairs, in storage order.
    pub fn to_pairs(&self) -> (copied: Vec<(String, String)>)
        ensures
            copied@.len() == self.pairs().len(),
            forall|i: int|
                0 <= i < copied@.len() ==> (#[trigger] copied@[i]).0@ == self.pairs()[i].0
                    && copied@[i].1@ == self.pairs()[i].1,
    {
        let mut copied: Vec<(String, String)> = Vec::new();
        let mut i: usize = 0;
        while i < self.entries.len()
            invariant
                i <= self.entries@.len(),
                copied@.len() == i,
                forall|j: int|
                    0 <= j < i ==> (#[trigger] copied@[j]).0@ == self.entries@[j].0@
                        && copied@[j].1@ == self.entries@[j].1@,
            decreases self.entries@.len() - i,
        {
            copied.push((self.entries[i].0.clone(), self.entries[i].1.clone()));
            i += 1;
        }
        copied
    }

    /// Stores `value` under `key`, replacing what was stored there.
    pub fn insert(&mut self, key: String, value: String)
        requires
            old(self).wf(),
        ensures
            final(self).wf(),
            final(self)@ == old(self)@.insert(key@, value@),
            final(self).pairs().len() == if old(self)@.contains_key(key@) {
                old(self).pairs().len()
            } else {
                old(self).pairs().len() + 1
            },
    {
        let ghost before = self.pairs();
        let ghost k = key@;
        let ghost v = value@;
        match self.find(key.as_str()) {
            Some(i) => {
                self.entries.set(i, (key, value));
                proof {
                    assert(self.pairs() =~= before.update(i as int, (k, v)));
                    lemma_map_of_update(before, i as int, v);
                }
            },
            None => {
                self.entries.push((key, value));
                proof {
                    assert(self.pairs() =~= before.push((k, v)));
                    lemma_map_of_push(before, k, v);
                }
            },
        }
    }
}

impl Clone for TxtRecords {
    fn clone(&self) -> (copy: Self)
        ensures
            copy.pairs() == self.pairs(),
            copy@ == self@,
    {
        let copy = TxtRecords { entries: self.to_pairs() };
        assert(copy.pairs() =~= self.pairs());
        copy
    }
}

} // verus!
