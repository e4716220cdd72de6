//! A finite map keyed by strings.
//!
//! The map is kept as a list of entries whose keys are pairwise distinct.
//! Its view is a `Map` from the key's characters to the value's view.

use vstd::prelude::*;

verus! {

/// The map that a list of entries stands for. The entries are inserted in
/// order, so of two entries with one key the later one stands.
pub open spec fn entries_view<V: View>(s: Seq<(String, V)>) -> Map<Seq<char>, V::V>
    decreases s.len(),
{
    if s.len() == 0 {
        Map::empty()
    } else {
        entries_view(s.drop_last()).insert(s.last().0@, s.last().1@)
    }
}

/// No two entries of the list have the same key.
pub open spec fn keys_distinct<V>(s: Seq<(String, V)>) -> bool {
    forall|i: int, j: int| 0 <= i < j < s.len() ==> s[i].0@ != s[j].0@
}

/// Some entry of the list has the key `k`.
pub open spec fn has_key<V>(s: Seq<(String, V)>, k: Seq<char>) -> bool {
    exists|i: int| 0 <= i < s.len() && #[trigger] s[i].0@ == k
}

/// The keys of `entries_view(s)` are the keys that occur in `s`.
pub proof fn lemma_entries_view_dom<V: View>(s: Seq<(String, V)>)
    ensures
        forall|k: Seq<char>| #[trigger] entries_view(s).contains_key(k) <==> has_key(s, k),
        entries_view(s).dom().finite(),
    decreases s.len(),
{
    if s.len() > 0 {
        let t = s.drop_last();
        lemma_entries_view_dom(t);
        assert forall|k: Seq<char>| #[trigger]
            entries_view(s).contains_key(k) <==> has_key(s, k) by {
            if has_key(t, k) {
                let i = choose|i: int| 0 <= i < t.len() && #[trigger] t[i].0@ == k;
                assert(s[i].0@ == k);
            }
            if s.last().0@ == k {
                assert(s[s.len() - 1].0@ == k);
            }
            if has_key(s, k) {
                let i = choose|i: int| 0 <= i < s.len() && #[trigger] s[i].0@ == k;
                if i < s.len() - 1 {
                    assert(t[i].0@ == k);
                }
            }
        }
    }
}

/// Where the keys are distinct, each entry's value is the one the map holds.
pub proof fn lemma_entries_view_value<V: View>(s: Seq<(String, V)>, i: int)
    requires
        keys_distinct(s),
        0 <= i < s.len(),
    ensures
        entries_view(s).contains_key(s[i].0@),
        entries_view(s)[s[i].0@] == s[i].1@,
    decreases s.len(),
{
    if i < s.len() - 1 {
        let t = s.drop_last();
        assert(t[i] == s[i]);
        lemma_entries_view_value(t, i);
    }
}

/// Where the keys are distinct, the map has as many keys as the list has entries.
pub proof fn lemma_entries_view_len<V: View>(s: Seq<(String, V)>)
    requires
        keys_distinct(s),
    ensures
        entries_view(s).dom().finite(),
        entries_view(s).len() == s.len(),
    decreases s.len(),
{
    lemma_entries_view_dom(s);
    if s.len() > 0 {
        let t = s.drop_last();
        lemma_entries_view_len(t);
        lemma_entries_view_dom(t);
        if has_key(t, s.last().0@) {
            let i = choose|i: int| 0 <= i < t.len() && #[trigger] t[i].0@ == s.last().0@;
            assert(s[i].0@ == s[s.len() - 1].0@);
        }
        assert(entries_view(s).dom() =~= entries_view(t).dom().insert(s.last().0@));
    } else {
        assert(entries_view(s).dom() =~= Set::<Seq<char>>::empty());
    }
}

/// A finite map from strings to values.
#[derive(Debug)]
pub struct StrMap<V> {
    entries: Vec<(String, V)>,
}

impl<V: View> View for StrMap<V> {
    type V = Map<Seq<char>, V::V>;

    closed spec fn view(&self) -> Map<Seq<char>, V::V> {
        entries_view(self.entries@)
    }
}

impl<V> StrMap<V> {
    #[verifier::type_invariant]
    spec fn inv(self) -> bool {
        keys_distinct(self.entries@)
    }
}

impl<V: Clone> Clone for StrMap<V> {
    /// A map with the same keys, each with a clone of its value.
    fn clone(&self) -> (r: Self) {
        proof {
            use_type_invariant(self);
        }
        let mut entries: Vec<(String, V)> = Vec::new();
        let mut i: usize = 0;
        while i < self.entries.len()
            invariant
                0 <= i <= self.entries@.len(),
                entries@.len() == i,
                keys_distinct(self.entries@),
                forall|j: int| 0 <= j < i ==> entries@[j].0@ == self.entries@[j].0@,
            decreases self.entries@.len() - i,
        {
            let key = self.entries[i].0.clone();
            let value = self.entries[i].1.clone();
            entries.push((key, value));
            i += 1;
        }
        StrMap { entries }
    }
}

impl<V: View> StrMap<V> {
    /// The empty map.
    pub fn new() -> (m: Self)
        ensures
            m@ == Map::<Seq<char>, V::V>::empty(),
    {
        StrMap { entries: Vec::new() }
    }

    /// The index of the entry with the given key, if there is one.
    fn position(&self, key: &str) -> (r: Option<usize>)
        ensures
            match r {
                Some(i) => i < self.entries@.len() && self.entries@[i as int].0@ == key@,
                None => !has_key(self.entries@, key@),
            },
    {
        let wanted = key.to_owned();
        let mut i: usize = 0;
        while i < self.entries.len()
            invariant
                0 <= i <= self.entries@.len(),
                wanted@ == key@,
                forall|j: int| 0 <= j < i ==> self.entries@[j].0@ != key@,
            decreases self.entries@.len() - i,
        {
            if self.entries[i].0 == wanted {
                return Some(i);
            }
            i += 1;
        }
        None
    }

    /// Whether the map holds a value under `key`.
    pub fn contains_key(&self, key: &str) -> (b: bool)
        ensures
            b == self@.contains_key(key@),
    {
        proof {
            lemma_entries_view_dom(self.entries@);
        }
        self.position(key).is_some()
    }

    /// The value under `key`, if the map holds one.
    pub fn get(&self, key: &str) -> (r: Option<&V>)
        ensures
            match r {
                Some(v) => self@.contains_key(key@) && v@ == self@[key@],
                None => !self@.contains_key(key@),
            },
    {
        proof {
            use_type_invariant(self);
            lemma_entries_view_dom(self.entries@);
        }
        match self.position(key) {
            Some(i) => {
                proof {
                    lemma_entries_view_value(self.entries@, i as int);
                }
                Some(&self.entries[i].1)
            },
            None => None,
        }
    }

    /// Puts `value` under `key`, in place of the value that was there, if any.
    pub fn insert(&mut self, key: String, value: V)
        ensures
            final(self)@ == old(self)@.insert(key@, value@),
    {
        proof {
            use_type_invariant(&*self);
        }
        let found = self.position(key.as_str());
        let ghost before = self.entries@;
        let mut entries: Vec<(String, V)> = Vec::new();
        core::mem::swap(&mut self.entries, &mut entries);
        match found {
            Some(i) => {
                entries.set(i, (key, value));
                proof {
                    let after = entries@;
                    assert forall|a: int, b: int| 0 <= a < b < after.len() implies after[a].0@
                        != after[b].0@ by {
                        assert(after[a].0@ == before[a].0@);
                        assert(after[b].0@ == before[b].0@);
                    }
                    lemma_upsert_view(before, after, i as int);
                }
            },
            None => {
                entries.push((key, value));
                proof {
                    let after = entries@;
                    assert(after.drop_last() =~= before);
                    assert forall|a: int, b: int| 0 <= a < b < after.len() implies after[a].0@
                        != after[b].0@ by {
                        assert(after[a].0@ == before[a].0@);
                        if b < before.len() {
                            assert(after[b].0@ == before[b].0@);
                        }
                    }
                }
            },
        }
        self.entries = entries;
    }

    /// Takes out the value under `key`, if the map holds one.
    pub fn remove(&mut self, key: &str) -> (r: Option<V>)
        ensures
            final(self)@ == old(self)@.remove(key@),
            match r {
                Some(v) => old(self)@.contains_key(key@) && v@ == old(self)@[key@],
                None => !old(self)@.contains_key(key@),
            },
    {
        proof {
            use_type_invariant(&*self);
            lemma_entries_view_dom(self.entries@);
        }
        let found = self.position(key);
        let ghost before = self.entries@;
        match found {
            Some(i) => {
                let mut entries: Vec<(String, V)> = Vec::new();
                core::mem::swap(&mut self.entries, &mut entries);
                let entry = entries.remove(i);
                proof {
                    lemma_entries_view_value(before, i as int);
                    lemma_remove_view(before, entries@, i as int);
                }
                self.entries = entries;
                Some(entry.1)
            },
            None => {
                assert(self@ =~= old(self)@.remove(key@));
                None
            },
        }
    }

    /// The number of keys.
    pub fn len(&self) -> (n: usize)
        ensures
            self@.dom().finite(),
            n == self@.len(),
    {
        proof {
            use_type_invariant(self);
            lemma_entries_view_len(self.entries@);
        }
        self.entries.len()
    }

    /// The entries of the map, one for each key.
    pub fn entries(&self) -> (r: &Vec<(String, V)>)
        ensures
            keys_distinct(r@),
            entries_view(r@) == self@,
    {
        proof {
            use_type_invariant(self);
        }
        &self.entries
    }

    /// The map that holds the given entries; of two entries with one key the
    /// later one stands.
    pub fn from_entries(entries: Vec<(String, V)>) -> (m: Self)
        ensures
            m@ == entries_view(entries@),
    {
        let mut m = StrMap::new();
        let ghost all = entries@;
        for entry in it: entries
            invariant
                it.seq() == all,
                m@ == entries_view(all.take(it.index() as int)),
        {
            proof {
                assert(all.take(it.index() + 1).drop_last() =~= all.take(it.index() as int));
            }
            m.insert(entry.0, entry.1);
        }
        proof {
            assert(all.take(all.len() as int) =~= all);
        }
        m
    }
}

/// Replacing the entry at `i` by one with the same key gives the map with
/// that key set to the new value.
proof fn lemma_upsert_view<V: View>(before: Seq<(String, V)>, after: Seq<(String, V)>, i: int)
    requires
        keys_distinct(before),
        keys_distinct(after),
        0 <= i < before.len(),
        after.len() == before.len(),
        after[i].0@ == before[i].0@,
        forall|j: int| 0 <= j < before.len() && j != i ==> after[j] == before[j],
    ensures
        entries_view(after) == entries_view(before).insert(after[i].0@, after[i].1@),
{
    lemma_entries_view_dom(before);
    lemma_entries_view_dom(after);
    let m = entries_view(before).insert(after[i].0@, after[i].1@);
    assert forall|k: Seq<char>| entries_view(after).contains_key(k) <==> m.contains_key(k) by {
        if has_key(before, k) {
            let j = choose|j: int| 0 <= j < before.len() && #[trigger] before[j].0@ == k;
            assert(after[j].0@ == k);
        }
        if has_key(after, k) {
            let j = choose|j: int| 0 <= j < after.len() && #[trigger] after[j].0@ == k;
            assert(before[j].0@ == k);
        }
    }
    assert forall|k: Seq<char>| entries_view(after).contains_key(k) implies entries_view(after)[k]
        == m[k] by {
        let j = choose|j: int| 0 <= j < after.len() && #[trigger] after[j].0@ == k;
        lemma_entries_view_value(after, j);
        if j != i {
            lemma_entries_view_value(before, j);
        }
    }
    assert(entries_view(after) =~= m);
}

/// Taking out the entry at `i` gives the map without that entry's key.
proof fn lemma_remove_view<V: View>(before: Seq<(String, V)>, after: Seq<(String, V)>, i: int)
    requires
        keys_distinct(before),
        0 <= i < before.len(),
        after == before.remove(i),
    ensures
        keys_distinct(after),
        entries_view(after) == entries_view(before).remove(before[i].0@),
{
    assert forall|a: int, b: int| 0 <= a < b < after.len() implies after[a].0@ != after[b].0@ by {
        let a0 = if a < i { a } else { a + 1 };
        let b0 = if b < i { b } else { b + 1 };
        assert(after[a] == before[a0]);
        assert(after[b] == before[b0]);
    }
    lemma_entries_view_dom(before);
    lemma_entries_view_dom(after);
    let m = entries_view(before).remove(before[i].0@);
    assert forall|k: Seq<char>| entries_view(after).contains_key(k) <==> m.contains_key(k) by {
        if has_key(after, k) {
            let j = choose|j: int| 0 <= j < after.len() && #[trigger] after[j].0@ == k;
            let j0 = if j < i { j } else { j + 1 };
            assert(before[j0].0@ == k);
        }
        if m.contains_key(k) {
            let j = choose|j: int| 0 <= j < before.len() && #[trigger] before[j].0@ == k;
            let j1 = if j < i { j } else { j - 1 };
            assert(after[j1].0@ == k);
        }
    }
    assert forall|k: Seq<char>| entries_view(after).contains_key(k) implies entries_view(after)[k]
        == m[k] by {
        let j = choose|j: int| 0 <= j < after.len() && #[trigger] after[j].0@ == k;
        let j0 = if j < i { j } else { j + 1 };
        assert(after[j] == before[j0]);
        lemma_entries_view_value(after, j);
        lemma_entries_view_value(before, j0);
    }
    assert(entries_view(after) =~= m);
}

} // verus!
