//! A small table keyed by token spelling. It backs the named memory and the
//! command table, and is seen by contracts as a `Map`.
use vstd::prelude::*;
use vstd::string::*;
use crate::queue::{texts, Text};

verus! {

/// A table from token spellings to values of type `V`. No two of its
/// entries have the same key.
pub struct Table<V> {
    pub(crate) entries: Vec<(String, V)>,
}

/// Whether no key occurs twice among the entries.
pub open spec fn keys_differ<V>(s: Seq<(String, V)>) -> bool {
    forall|i: int, j: int| 0 <= i < j < s.len() ==> (#[trigger] s[i]).0@ != (#[trigger] s[j]).0@
}

/// The map that a list of entries stands for: a later entry for a key
/// replaces an earlier one.
pub open spec fn entries_map<V>(s: Seq<(String, V)>) -> Map<Text, V>
    decreases s.len(),
{
    if s.len() == 0 {
        Map::empty()
    } else {
        entries_map(s.drop_last()).insert(s.last().0@, s.last().1)
    }
}

/// The entry at `i` decides the value of its key where no later entry has
/// the same key.
pub proof fn lemma_entry_decides<V>(s: Seq<(String, V)>, i: int)
    requires
        0 <= i < s.len(),
        forall|j: int| i < j < s.len() ==> (#[trigger] s[j]).0@ != s[i].0@,
    ensures
        entries_map(s).dom().contains(s[i].0@),
        entries_map(s)[s[i].0@] == s[i].1,
    decreases s.len(),
{
    if i < s.len() - 1 {
        assert forall|j: int| i < j < s.drop_last().len() implies (#[trigger] s.drop_last()[j]).0@
            != s.drop_last()[i].0@ by {
        }
        lemma_entry_decides(s.drop_last(), i);
    }
}

/// The keys of the map are the keys of the entries.
pub proof fn lemma_entries_keys<V>(s: Seq<(String, V)>, key: Text)
    ensures
        entries_map(s).dom().contains(key) <==> exists|j: int|
            0 <= j < s.len() && (#[trigger] s[j]).0@ == key,
    decreases s.len(),
{
    if s.len() > 0 {
        lemma_entries_keys(s.drop_last(), key);
        if entries_map(s).dom().contains(key) {
            if s.last().0@ == key {
            } else {
                let j = choose|j: int|
                    0 <= j < s.drop_last().len() && (#[trigger] s.drop_last()[j]).0@ == key;
            }
        }
        if exists|j: int| 0 <= j < s.len() && (#[trigger] s[j]).0@ == key {
            let j = choose|j: int| 0 <= j < s.len() && (#[trigger] s[j]).0@ == key;
            if j < s.len() - 1 {
                assert(s.drop_last()[j].0@ == key);
            }
        }
    }
}

/// Replacing the deciding entry of a key replaces the key's value.
pub proof fn lemma_entry_replaced<V>(s: Seq<(String, V)>, i: int, entry: (String, V))
    requires
        0 <= i < s.len(),
        entry.0@ == s[i].0@,
        forall|j: int| i < j < s.len() ==> (#[trigger] s[j]).0@ != s[i].0@,
    ensures
        entries_map(s.update(i, entry)) == entries_map(s).insert(entry.0@, entry.1),
    decreases s.len(),
{
    let t = s.update(i, entry);
    if i == s.len() - 1 {
        assert(t.drop_last() =~= s.drop_last());
    } else {
        assert(t.drop_last() =~= s.drop_last().update(i, entry));
        assert forall|j: int| i < j < s.drop_last().len() implies (#[trigger] s.drop_last()[j]).0@
            != s.drop_last()[i].0@ by {
        }
        lemma_entry_replaced(s.drop_last(), i, entry);
    }
}

impl<V> View for Table<V> {
    type V = Map<Text, V>;

    closed spec fn view(&self) -> Map<Text, V> {
        entries_map(self.entries@)
    }
}

impl<V> Table<V> {
    #[verifier::type_invariant]
    spec fn well_formed(self) -> bool {
        keys_differ(self.entries@)
    }

    /// A table without entries.
    pub fn new() -> (r: Self)
        ensures
            r@ == Map::<Text, V>::empty(),
    {
        Table { entries: Vec::new() }
    }

    /// The place of the entry that decides the value of `key`.
    fn position(&self, key: &str) -> (r: Option<usize>)
        ensures
            match r {
                Some(i) => i < self.entries.len() && self@.dom().contains(key@) && self@[key@]
                    == self.entries[i as int].1 && self.entries[i as int].0@ == key@ && forall|
                    j: int,
                | i < j < self.entries.len() ==> (#[trigger] self.entries[j]).0@ != key@,
                None => !self@.dom().contains(key@),
            },
    {
        let wanted = String::from_str(key);
        let mut i: usize = self.entries.len();
        while i > 0
            invariant
                i <= self.entries.len(),
                wanted@ == key@,
                forall|j: int|
                    i <= j < self.entries.len() ==> (#[trigger] self.entries[j]).0@ != key@,
            decreases i,
        {
            i = i - 1;
            if self.entries[i].0 == wanted {
                proof {
                    lemma_entry_decides(self.entries@, i as int);
                }
                return Some(i);
            }
        }
        proof {
            lemma_entries_keys(self.entries@, key@);
        }
        None
    }

    /// Whether the table has a value for `key`.
    pub fn contains_key(&self, key: &str) -> (r: bool)
        ensures
            r == self@.dom().contains(key@),
    {
        self.position(key).is_some()
    }

    /// The value for `key`, if the table has one.
    pub fn get(&self, key: &str) -> (r: Option<&V>)
        ensures
            match r {
                Some(v) => self@.dom().contains(key@) && *v == self@[key@],
                None => !self@.dom().contains(key@),
            },
    {
        match self.position(key) {
            Some(i) => Some(&self.entries[i].1),
            None => None,
        }
    }

    /// Sets the value for `key`, replacing the one it had.
    pub fn insert(&mut self, key: String, value: V)
        ensures
            final(self)@ == old(self)@.insert(key@, value),
    {
        let found = self.position(key.as_str());
        proof {
            use_type_invariant(&*self);
        }
        let mut taken = Table { entries: Vec::new() };
        core::mem::swap(self, &mut taken);
        let mut entries = taken.entries;
        match found {
            Some(i) => {
                proof {
                    lemma_entry_replaced(entries@, i as int, (key, value));
                }
                entries.set(i, (key, value));
            },
            None => {
                proof {
                    lemma_entries_keys(entries@, key@);
                }
                let ghost before = entries@;
                entries.push((key, value));
                proof {
                    assert(entries@.drop_last() =~= before);
                }
            },
        }
        *self = Table { entries };
    }

    /// The keys of the table, each once.
    pub fn keys(&self) -> (r: Vec<String>)
        ensures
            texts(r@).no_duplicates(),
            forall|key: Text| texts(r@).contains(key) <==> self@.dom().contains(key),
    {
        let mut out: Vec<String> = Vec::new();
        let mut i: usize = 0;
        while i < self.entries.len()
            invariant
                i <= self.entries.len(),
                out.len() == i,
                forall|j: int| 0 <= j < i ==> (#[trigger] out[j])@ == self.entries[j].0@,
            decreases self.entries.len() - i,
        {
            out.push(self.entries[i].0.clone());
            i = i + 1;
        }
        proof {
            use_type_invariant(self);
            assert forall|i: int, j: int|
                0 <= i < texts(out@).len() && 0 <= j < texts(out@).len() && i != j implies texts(
                out@,
            )[i] != texts(out@)[j] by {
            }
            assert forall|key: Text| texts(out@).contains(key) <==> self@.dom().contains(key) by {
                lemma_entries_keys(self.entries@, key);
                if texts(out@).contains(key) {
                    let j = choose|j: int| 0 <= j < texts(out@).len() && texts(out@)[j] == key;
                }
                if self@.dom().contains(key) {
                    let j = choose|j: int|
                        0 <= j < self.entries@.len() && (#[trigger] self.entries@[j]).0@ == key;
                    assert(texts(out@)[j] == key);
                }
            }
        }
        out
    }
}

} // verus!
