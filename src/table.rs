//! An insertion-ordered table keyed by strings, with unique keys, viewed as a
//! `Map` from key text to value.

use vstd::prelude::*;
use vstd::string::*;

verus! {

/// The map that a list of key/value pairs denotes: a later pair for a key
/// replaces an earlier one.
pub open spec fn map_of<V>(pairs: Seq<(String, V)>) -> Map<Seq<char>, V>
    decreases pairs.len(),
{
    if pairs.len() == 0 {
        Map::empty()
    } else {
        map_of(pairs.drop_last()).insert(pairs.last().0@, pairs.last().1)
    }
}

/// No key text occurs twice.
pub open spec fn keys_unique<V>(pairs: Seq<(String, V)>) -> bool {
    forall|i: int, j: int| 0 <= i < j < pairs.len() ==> pairs[i].0@ != pairs[j].0@
}

/// With unique keys, a key is in the map exactly where some pair holds it, and
/// it maps to that pair's value.
pub proof fn lemma_map_of<V>(pairs: Seq<(String, V)>)
    requires
        keys_unique(pairs),
    ensures
        forall|k: Seq<char>| #[trigger]
            map_of(pairs).contains_key(k) <==> exists|i: int|
                0 <= i < pairs.len() && pairs[i].0@ == k,
        forall|i: int| 0 <= i < pairs.len() ==> #[trigger] map_of(pairs)[pairs[i].0@] == pairs[i].1,
    decreases pairs.len(),
{
    if pairs.len() > 0 {
        let init = pairs.drop_last();
        assert(keys_unique(init)) by {
            assert forall|a: int, b: int| 0 <= a < b < init.len() implies init[a].0@
                != init[b].0@ by {
                assert(init[a] == pairs[a] && init[b] == pairs[b]);
            }
        }
        lemma_map_of(init);
        assert(map_of(pairs) == map_of(init).insert(pairs.last().0@, pairs.last().1));
        assert forall|k: Seq<char>| #[trigger]
            map_of(pairs).contains_key(k) <==> exists|i: int|
                0 <= i < pairs.len() && pairs[i].0@ == k by {
            if map_of(pairs).contains_key(k) && k != pairs.last().0@ {
                assert(map_of(init).contains_key(k));
                let i = choose|i: int| 0 <= i < init.len() && init[i].0@ == k;
                assert(pairs[i].0@ == k);
            }
            if exists|i: int| 0 <= i < pairs.len() && pairs[i].0@ == k {
                let i = choose|i: int| 0 <= i < pairs.len() && pairs[i].0@ == k;
                if i < init.len() {
                    assert(init[i].0@ == k);
                }
            }
        }
        assert forall|i: int| 0 <= i < pairs.len() implies #[trigger] map_of(pairs)[pairs[i].0@]
            == pairs[i].1 by {
            if i < init.len() {
                assert(init[i] == pairs[i]);
                assert(pairs[i].0@ != pairs.last().0@);
            }
        }
    }
}

/// Replacing the value of the pair at `i`, keeping its key text, replaces that
/// key's value in the map.
proof fn lemma_map_of_update<V>(pairs: Seq<(String, V)>, i: int, entry: (String, V))
    requires
        keys_unique(pairs),
        0 <= i < pairs.len(),
        entry.0@ == pairs[i].0@,
    ensures
        keys_unique(pairs.update(i, entry)),
        map_of(pairs.update(i, entry)) == map_of(pairs).insert(entry.0@, entry.1),
{
    let updated = pairs.update(i, entry);
    assert(keys_unique(updated)) by {
        assert forall|a: int, b: int| 0 <= a < b < updated.len() implies updated[a].0@
            != updated[b].0@ by {
            assert(pairs[a].0@ != pairs[b].0@);
        }
    }
    lemma_map_of(pairs);
    lemma_map_of(updated);
    let lhs = map_of(updated);
    let rhs = map_of(pairs).insert(entry.0@, entry.1);
    assert forall|k: Seq<char>| #[trigger] lhs.contains_key(k) <==> rhs.contains_key(k) by {
        if lhs.contains_key(k) {
            let j = choose|j: int| 0 <= j < updated.len() && updated[j].0@ == k;
            if j != i {
                assert(pairs[j].0@ == k);
            }
        }
        if map_of(pairs).contains_key(k) {
            let j = choose|j: int| 0 <= j < pairs.len() && pairs[j].0@ == k;
            if j != i {
                assert(updated[j].0@ == k);
            } else {
                assert(updated[i].0@ == k);
            }
        }
        if k == entry.0@ {
            assert(updated[i].0@ == k);
        }
    }
    assert forall|k: Seq<char>| lhs.contains_key(k) implies #[trigger] lhs[k] == rhs[k] by {
        let j = choose|j: int| 0 <= j < updated.len() && updated[j].0@ == k;
        assert(lhs[updated[j].0@] == updated[j].1);
        if j != i {
            assert(pairs[j] == updated[j]);
            assert(map_of(pairs)[pairs[j].0@] == pairs[j].1);
        }
    }
    assert(lhs =~= rhs);
}

/// A table of values keyed by strings; each key occurs at most once.
#[derive(Debug)]
pub struct Table<V> {
    entries: Vec<(String, V)>,
}

impl<V> Table<V> {
    /// The key/value pairs, in insertion order.
    pub closed spec fn pairs(&self) -> Seq<(String, V)> {
        self.entries@
    }

    /// Keys are unique.
    pub open spec fn wf(&self) -> bool {
        keys_unique(self.pairs())
    }

    /// The table as a map from key text to value.
    pub open spec fn view(&self) -> Map<Seq<char>, V> {
        map_of(self.pairs())
    }

    /// An empty table.
    pub fn new() -> (t: Self)
        ensures
            t.wf(),
            t@ == Map::<Seq<char>, V>::empty(),
            t.pairs().len() == 0,
    {
        Table { entries: Vec::new() }
    }

    /// The pairs of the table, in insertion order.
    pub fn entries(&self) -> (r: &Vec<(String, V)>)
        ensures
            r@ == self.pairs(),
    {
        &self.entries
    }

    fn position(&self, key: &str) -> (r: Option<usize>)
        requires
            self.wf(),
        ensures
            match r {
                Some(i) => i < self.pairs().len() && self.pairs()[i as int].0@ == key@,
                None => !self@.contains_key(key@),
            },
    {
        proof {
            lemma_map_of(self.entries@);
        }
        let wanted = String::from_str(key);
        let mut i: usize = 0;
        while i < self.entries.len()
            invariant
                i <= self.entries@.len(),
                wanted@ == key@,
                forall|j: int| 0 <= j < i ==> self.entries@[j].0@ != key@,
            decreases self.entries.len() - i,
        {
            if self.entries[i].0.eq(&wanted) {
                return Some(i);
            }
            i = i + 1;
        }
        None
    }

    /// Whether the table holds `key`.
    pub fn contains_key(&self, key: &str) -> (r: bool)
        requires
            self.wf(),
        ensures
            r == self@.contains_key(key@),
    {
        proof {
            lemma_map_of(self.entries@);
        }
        self.position(key).is_some()
    }

    /// The value stored under `key`.
    pub fn get(&self, key: &str) -> (r: Option<&V>)
        requires
            self.wf(),
        ensures
            match r {
                Some(v) => self@.contains_key(key@) && *v == self@[key@],
                None => !self@.contains_key(key@),
            },
    {
        proof {
            lemma_map_of(self.entries@);
        }
        match self.position(key) {
            Some(i) => Some(&self.entries[i].1),
            None => None,
        }
    }

    /// Stores `value` under `key`, replacing any earlier value.
    pub fn insert(&mut self, key: String, value: V)
        requires
            old(self).wf(),
        ensures
            final(self).wf(),
            final(self)@ == old(self)@.insert(key@, value),
    {
        match self.position(key.as_str()) {
            Some(i) => {
                proof {
                    lemma_map_of_update(self.entries@, i as int, (key, value));
                }
                self.entries.set(i, (key, value));
            },
            None => {
                proof {
                    lemma_map_of(self.entries@);
                    let pushed = self.entries@.push((key, value));
                    assert(pushed.drop_last() =~= self.entries@);
                    assert forall|a: int, b: int| 0 <= a < b < pushed.len() implies pushed[a].0@
                        != pushed[b].0@ by {
                        if b == pushed.len() - 1 {
                            assert(self.entries@[a].0@ != key@);
                        }
                    }
                }
                self.entries.push((key, value));
            },
        }
    }
}

} // verus!
