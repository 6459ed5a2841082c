//! A dictionary from field names to values that keeps the order in which its
//! keys first came in.

use vstd::prelude::*;

verus! {

/// Whether some entry of an association list has the key.
pub open spec fn has_key<K, V>(entries: Seq<(K, V)>, key: K) -> bool {
    exists|i: int| 0 <= i < entries.len() && (#[trigger] entries[i]).0 == key
}

/// A position at which an association list has the key.
pub open spec fn key_position<K, V>(entries: Seq<(K, V)>, key: K) -> int {
    choose|i: int| 0 <= i < entries.len() && (#[trigger] entries[i]).0 == key
}

/// Whether no key occurs twice.
pub open spec fn distinct_keys<K, V>(entries: Seq<(K, V)>) -> bool {
    forall|i: int, j: int|
        0 <= i < j < entries.len() ==> (#[trigger] entries[i]).0 != (#[trigger] entries[j]).0
}

/// The value stored under a key, if there is one.
pub open spec fn assoc_get<K, V>(entries: Seq<(K, V)>, key: K) -> Option<V> {
    if has_key(entries, key) {
        Some(entries[key_position(entries, key)].1)
    } else {
        None
    }
}

/// The list after a value was stored under a key: a key that is there keeps
/// its place and gets the new value, a new key goes to the end.
pub open spec fn assoc_insert<K, V>(entries: Seq<(K, V)>, key: K, value: V) -> Seq<(K, V)> {
    if has_key(entries, key) {
        entries.update(key_position(entries, key), (key, value))
    } else {
        entries.push((key, value))
    }
}

/// In a list without repeated keys a key has one position only.
pub proof fn lemma_key_position_is_unique<K, V>(entries: Seq<(K, V)>, key: K, i: int)
    requires
        distinct_keys(entries),
        0 <= i < entries.len(),
        entries[i].0 == key,
    ensures
        has_key(entries, key),
        key_position(entries, key) == i,
{
    let p = key_position(entries, key);
    if p < i {
        assert(entries[p].0 != entries[i].0);
    } else if i < p {
        assert(entries[i].0 != entries[p].0);
    }
}

/// Storing a value keeps the keys distinct.
pub proof fn lemma_insert_keeps_keys_distinct<K, V>(entries: Seq<(K, V)>, key: K, value: V)
    requires
        distinct_keys(entries),
    ensures
        distinct_keys(assoc_insert(entries, key, value)),
{
    let after = assoc_insert(entries, key, value);
    if has_key(entries, key) {
        let p = key_position(entries, key);
        assert forall|i: int, j: int| 0 <= i < j < after.len() implies (#[trigger] after[i]).0 != (
        #[trigger] after[j]).0 by {
            assert(entries[i].0 != entries[j].0);
        }
    } else {
        assert forall|i: int, j: int| 0 <= i < j < after.len() implies (#[trigger] after[i]).0 != (
        #[trigger] after[j]).0 by {
            if j < entries.len() {
                assert(entries[i].0 != entries[j].0);
            } else {
                assert(entries[i].0 != key);
            }
        }
    }
}

/// What was stored under a key is what is found there.
pub proof fn lemma_get_after_insert<K, V>(entries: Seq<(K, V)>, key: K, value: V)
    requires
        distinct_keys(entries),
    ensures
        assoc_get(assoc_insert(entries, key, value), key) == Some(value),
{
    let after = assoc_insert(entries, key, value);
    lemma_insert_keeps_keys_distinct(entries, key, value);
    if has_key(entries, key) {
        let p = key_position(entries, key);
        assert(after[p].0 == key);
        lemma_key_position_is_unique(after, key, p);
    } else {
        let p = entries.len() as int;
        assert(after[p].0 == key);
        lemma_key_position_is_unique(after, key, p);
    }
}

/// Storing twice under one key leaves what storing the second value alone
/// would have left: the last write wins, and nothing is added up.
pub proof fn lemma_last_insert_wins<K, V>(entries: Seq<(K, V)>, key: K, first: V, second: V)
    requires
        distinct_keys(entries),
    ensures
        assoc_insert(assoc_insert(entries, key, first), key, second) == assoc_insert(
            entries,
            key,
            second,
        ),
{
    let once = assoc_insert(entries, key, first);
    lemma_insert_keeps_keys_distinct(entries, key, first);
    if has_key(entries, key) {
        let p = key_position(entries, key);
        assert(once[p].0 == key);
        lemma_key_position_is_unique(once, key, p);
        assert(once.update(p, (key, second)) =~= entries.update(p, (key, second)));
    } else {
        let p = entries.len() as int;
        assert(once[p].0 == key);
        lemma_key_position_is_unique(once, key, p);
        assert(once.update(p, (key, second)) =~= entries.push((key, second)));
    }
}

/// One entry of a dictionary.
pub struct DictEntry {
    pub key: String,
    pub value: String,
}

/// A dictionary from strings to strings, in the order in which the keys
/// first came in.
pub struct FieldDict {
    entries: Vec<DictEntry>,
}

impl View for FieldDict {
    type V = Seq<(Seq<char>, Seq<char>)>;

    closed spec fn view(&self) -> Seq<(Seq<char>, Seq<char>)> {
        Seq::new(self.entries@.len(), |i: int| (self.entries@[i].key@, self.entries@[i].value@))
    }
}

impl FieldDict {
    /// No key occurs twice.
    #[verifier::type_invariant]
    pub open spec fn well_formed(self) -> bool {
        distinct_keys(self@)
    }

    /// The empty dictionary.
    pub fn new() -> (d: FieldDict)
        ensures
            d@ == Seq::<(Seq<char>, Seq<char>)>::empty(),
    {
        let d = FieldDict { entries: Vec::new() };
        assert(d@ =~= Seq::<(Seq<char>, Seq<char>)>::empty());
        d
    }

    /// The number of entries.
    pub fn len(&self) -> (n: usize)
        ensures
            n == self@.len(),
    {
        self.entries.len()
    }

    /// The entry at a position, if the dictionary is that long.
    pub fn entry(&self, i: usize) -> (r: Option<&DictEntry>)
        ensures
            i < self@.len() ==> r is Some && (r.unwrap().key@, r.unwrap().value@) == self@[i as int],
            i >= self@.len() ==> r is None,
    {
        if i < self.entries.len() {
            Some(&self.entries[i])
        } else {
            None
        }
    }

    fn position(&self, key: &String) -> (r: Option<usize>)
        ensures
            match r {
                Some(i) => i < self@.len() && self@[i as int].0 == key@ && has_key(self@, key@)
                    && key_position(self@, key@) == i,
                None => !has_key(self@, key@),
            },
    {
        proof {
            use_type_invariant(self);
        }
        let n: usize = self.entries.len();
        let mut i: usize = 0;
        while i < n
            invariant
                n == self.entries@.len(),
                n == self@.len(),
                i <= n,
                distinct_keys(self@),
                forall|j: int| 0 <= j < i ==> (#[trigger] self@[j]).0 != key@,
            decreases n - i,
        {
            if self.entries[i].key == *key {
                proof {
                    lemma_key_position_is_unique(self@, key@, i as int);
                }
                return Some(i);
            }
            i += 1;
        }
        None
    }

    /// The value stored under a key, if there is one.
    pub fn get(&self, key: &String) -> (r: Option<&String>)
        ensures
            match assoc_get(self@, key@) {
                Some(value) => r is Some && r.unwrap()@ == value,
                None => r is None,
            },
    {
        match self.position(key) {
            Some(i) => Some(&self.entries[i].value),
            None => None,
        }
    }

    /// Stores a value under a key. A key that is there keeps its place and
    /// gets the new value; a new key goes to the end.
    pub fn insert(&mut self, key: String, value: String)
        ensures
            final(self)@ == assoc_insert(old(self)@, key@, value@),
    {
        proof {
            use_type_invariant(&*self);
            lemma_insert_keeps_keys_distinct(self@, key@, value@);
        }
        let found = self.position(&key);
        let mut entries: Vec<DictEntry> = Vec::new();
        std::mem::swap(&mut entries, &mut self.entries);
        let ghost before = entries@;
        match found {
            Some(i) => {
                entries.set(i, DictEntry { key, value });
            },
            None => {
                entries.push(DictEntry { key, value });
            },
        }
        let ghost after = Seq::new(entries@.len(), |i: int| (entries@[i].key@, entries@[i].value@));
        assert(after =~= assoc_insert(old(self)@, key@, value@));
        self.entries = entries;
        assert(self@ =~= after);
    }
}

} // verus!
