//! A map from names to values, kept as a list of entries with distinct names.
use vstd::prelude::*;

verus! {

/// The map made by inserting the entries in order: a later entry for a name
/// replaces an earlier one.
pub open spec fn entries_map<V>(entries: Seq<(String, V)>) -> Map<Seq<char>, V>
    decreases entries.len(),
{
    if entries.len() == 0 {
        Map::empty()
    } else {
        entries_map(entries.drop_last()).insert(entries.last().0@, entries.last().1)
    }
}

/// No two entries bear the same name.
pub open spec fn distinct_names<V>(entries: Seq<(String, V)>) -> bool {
    forall|i: int, j: int| 0 <= i < j < entries.len() ==> entries[i].0@ != entries[j].0@
}

/// With distinct names, the map holds exactly the names of the entries, each
/// with the value of its entry.
pub proof fn lemma_entries_map<V>(entries: Seq<(String, V)>)
    requires
        distinct_names(entries),
    ensures
        forall|k: Seq<char>| #[trigger] entries_map(entries).contains_key(k) <==> exists|i: int|
            0 <= i < entries.len() && entries[i].0@ == k,
        forall|i: int| 0 <= i < entries.len() ==> #[trigger] entries_map(entries)[entries[i].0@] == entries[i].1,
    decreases entries.len(),
{
    if entries.len() > 0 {
        let prefix = entries.drop_last();
        assert(distinct_names(prefix)) by {
            assert forall|i: int, j: int| 0 <= i < j < prefix.len() implies prefix[i].0@ != prefix[j].0@ by {
                assert(prefix[i] == entries[i] && prefix[j] == entries[j]);
            }
        }
        lemma_entries_map(prefix);
        let last = entries.last();
        assert(entries_map(entries) == entries_map(prefix).insert(last.0@, last.1));
        assert forall|k: Seq<char>| #[trigger] entries_map(entries).contains_key(k) <==> exists|i: int|
            0 <= i < entries.len() && entries[i].0@ == k by {
            if entries_map(entries).contains_key(k) && k != entries.last().0@ {
                assert(entries_map(prefix).contains_key(k));
                let i = choose|i: int| 0 <= i < prefix.len() && prefix[i].0@ == k;
                assert(entries[i].0@ == k);
            }
            if entries_map(entries).contains_key(k) && k == entries.last().0@ {
                assert(entries[entries.len() - 1].0@ == k);
            }
            if exists|i: int| 0 <= i < entries.len() && entries[i].0@ == k {
                let i = choose|i: int| 0 <= i < entries.len() && entries[i].0@ == k;
                if i < entries.len() - 1 {
                    assert(prefix[i].0@ == k);
                }
            }
        }
        assert forall|i: int| 0 <= i < entries.len() implies #[trigger] entries_map(entries)[entries[i].0@]
            == entries[i].1 by {
            if i < entries.len() - 1 {
                assert(prefix[i] == entries[i]);
                assert(entries[i].0@ != last.0@);
                assert(entries_map(prefix)[prefix[i].0@] == prefix[i].1);
            }
        }
    }
}

/// Replacing the value of an entry is inserting it into the map.
proof fn lemma_entries_map_update<V>(entries: Seq<(String, V)>, i: int, entry: (String, V))
    requires
        distinct_names(entries),
        0 <= i < entries.len(),
        entry.0@ == entries[i].0@,
    ensures
        entries_map(entries.update(i, entry)) == entries_map(entries).insert(entry.0@, entry.1),
        distinct_names(entries.update(i, entry)),
{
    let updated = entries.update(i, entry);
    assert(distinct_names(updated));
    lemma_entries_map(entries);
    lemma_entries_map(updated);
    assert forall|k: Seq<char>| #[trigger] entries_map(updated).contains_key(k) <==> entries_map(entries).insert(
        entry.0@,
        entry.1,
    ).contains_key(k) by {
        if exists|j: int| 0 <= j < entries.len() && entries[j].0@ == k {
            let j = choose|j: int| 0 <= j < entries.len() && entries[j].0@ == k;
            assert(updated[j].0@ == k);
        }
        if exists|j: int| 0 <= j < updated.len() && updated[j].0@ == k {
            let j = choose|j: int| 0 <= j < updated.len() && updated[j].0@ == k;
            assert(entries[j].0@ == k);
        }
    }
    assert forall|k: Seq<char>| #[trigger] entries_map(updated).contains_key(k) implies entries_map(updated)[k]
        == entries_map(entries).insert(entry.0@, entry.1)[k] by {
        let j = choose|j: int| 0 <= j < updated.len() && updated[j].0@ == k;
        assert(entries_map(updated)[updated[j].0@] == updated[j].1);
        if j != i {
            assert(entries_map(entries)[entries[j].0@] == entries[j].1);
        }
    }
    assert(entries_map(updated) =~= entries_map(entries).insert(entry.0@, entry.1));
}

/// A map from names to values.
pub struct Registry<V> {
    entries: Vec<(String, V)>,
}

impl<V> Registry<V> {
    /// Names are never repeated.
    #[verifier::type_invariant]
    closed spec fn wf(self) -> bool {
        distinct_names(self.entries@)
    }

    /// The map that the registry holds.
    pub closed spec fn view_map(&self) -> Map<Seq<char>, V> {
        entries_map(self.entries@)
    }

    /// An empty registry.
    pub fn new() -> (r: Self)
        ensures
            r.view_map() == Map::<Seq<char>, V>::empty(),
    {
        Registry { entries: Vec::new() }
    }

    fn position(&self, key: &str) -> (r: Option<usize>)
        ensures
            match r {
                Some(i) => i < self.entries@.len() && self.entries@[i as int].0@ == key@,
                None => !self.view_map().contains_key(key@),
            },
    {
        proof {
            use_type_invariant(self);
            lemma_entries_map(self.entries@);
        }
        let mut i: usize = 0;
        while i < self.entries.len()
            invariant
                i <= self.entries@.len(),
                forall|j: int| 0 <= j < i ==> self.entries@[j].0@ != key@,
            decreases self.entries@.len() - i,
        {
            if self.entries[i].0.as_str().eq(key) {
                return Some(i);
            }
            i = i + 1;
        }
        None
    }

    /// Whether `key` is in the map.
    pub fn contains_key(&self, key: &str) -> (b: bool)
        ensures
            b == self.view_map().contains_key(key@),
    {
        proof {
            use_type_invariant(self);
            lemma_entries_map(self.entries@);
        }
        self.position(key).is_some()
    }

    /// The value of `key`, if any.
    pub fn get(&self, key: &str) -> (r: Option<&V>)
        ensures
            match r {
                Some(v) => self.view_map().contains_key(key@) && *v == self.view_map()[key@],
                None => !self.view_map().contains_key(key@),
            },
    {
        proof {
            use_type_invariant(self);
            lemma_entries_map(self.entries@);
        }
        match self.position(key) {
            Some(i) => Some(&self.entries[i].1),
            None => None,
        }
    }

    /// Binds `key` to `value`, replacing the previous value of `key`.
    pub fn insert(&mut self, key: String, value: V)
        ensures
            final(self).view_map() == old(self).view_map().insert(key@, value),
    {
        proof {
            use_type_invariant(&*self);
        }
        match self.position(key.as_str()) {
            Some(i) => {
                proof {
                    lemma_entries_map_update(self.entries@, i as int, (key, value));
                }
                let ghost old_entries = self.entries@;
                let ghost entry = (key, value);
                let mut entries = Vec::new();
                std::mem::swap(&mut entries, &mut self.entries);
                entries.set(i, (key, value));
                assert(entries@ == old_entries.update(i as int, entry));
                self.entries = entries;
            },
            None => {
                proof {
                    lemma_entries_map(self.entries@);
                    assert forall|j: int| 0 <= j < self.entries@.len() implies self.entries@[j].0@ != key@ by {
                        assert(self.view_map().contains_key(self.entries@[j].0@));
                    }
                }
                let ghost old_entries = self.entries@;
                let mut entries = Vec::new();
                std::mem::swap(&mut entries, &mut self.entries);
                entries.push((key, value));
                assert(entries@.drop_last() =~= old_entries);
                self.entries = entries;
            },
        }
    }

    /// The entries of the registry, one per name.
    pub fn entries(&self) -> (e: &Vec<(String, V)>)
        ensures
            entries_map(e@) == self.view_map(),
            distinct_names(e@),
    {
        proof {
            use_type_invariant(self);
        }
        &self.entries
    }

    /// The number of names in the map.
    pub fn len(&self) -> (n: usize)
        ensures
            n == self.view_map().dom().len(),
    {
        proof {
            use_type_invariant(self);
            lemma_entries_map_len(self.entries@);
        }
        self.entries.len()
    }
}

/// With distinct names the map has as many names as there are entries.
proof fn lemma_entries_map_len<V>(entries: Seq<(String, V)>)
    requires
        distinct_names(entries),
    ensures
        entries_map(entries).dom().finite(),
        entries_map(entries).dom().len() == entries.len(),
    decreases entries.len(),
{
    if entries.len() > 0 {
        let prefix = entries.drop_last();
        assert(distinct_names(prefix)) by {
            assert forall|i: int, j: int| 0 <= i < j < prefix.len() implies prefix[i].0@ != prefix[j].0@ by {
                assert(prefix[i] == entries[i] && prefix[j] == entries[j]);
            }
        }
        lemma_entries_map_len(prefix);
        lemma_entries_map(prefix);
        assert(!entries_map(prefix).contains_key(entries.last().0@));
    }
}

/// Law: after binding `key` to `value`, `key` is bound to `value` and every
/// other name keeps its value.
pub proof fn lemma_insert_then_get<V>(before: Map<Seq<char>, V>, key: Seq<char>, value: V, other: Seq<char>)
    requires
        other != key,
    ensures
        before.insert(key, value).contains_key(key),
        before.insert(key, value)[key] == value,
        before.insert(key, value).contains_key(other) == before.contains_key(other),
        before.contains_key(other) ==> before.insert(key, value)[other] == before[other],
{
}

} // verus!
