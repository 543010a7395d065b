//! A map from header names to header values that keeps the order in which
//! its names were first inserted.

use crate::text::same_text;
use vstd::prelude::*;

verus! {

/// Whether the entry of `list` at index `i` has the key `key`.
pub open spec fn has_key_at(list: Seq<(Seq<char>, Seq<char>)>, key: Seq<char>, i: int) -> bool {
    0 <= i < list.len() && list[i].0 == key
}

/// Whether no key occurs twice in `list`.
pub open spec fn distinct_keys(list: Seq<(Seq<char>, Seq<char>)>) -> bool {
    forall|i: int, j: int| 0 <= i < j < list.len() ==> list[i].0 != list[j].0
}

/// The map that `list` spells: its keys, each with the value listed beside it.
pub open spec fn listed_map(list: Seq<(Seq<char>, Seq<char>)>) -> Map<Seq<char>, Seq<char>> {
    Map::new(
        |key: Seq<char>| exists|i: int| has_key_at(list, key, i),
        |key: Seq<char>| list[choose|i: int| has_key_at(list, key, i)].1,
    )
}

/// In a list without repeated keys, each entry is what the map holds for its
/// key.
pub proof fn lemma_listed_entry(list: Seq<(Seq<char>, Seq<char>)>, i: int)
    requires
        distinct_keys(list),
        0 <= i < list.len(),
    ensures
        listed_map(list).contains_key(list[i].0),
        listed_map(list)[list[i].0] == list[i].1,
{
    assert(has_key_at(list, list[i].0, i));
    let j = choose|j: int| has_key_at(list, list[i].0, j);
    assert(j == i);
}

/// A map from names to values. No name occurs twice; names are listed in the
/// order of their first insertion.
#[derive(Debug)]
pub struct Headers {
    entries: Vec<(String, String)>,
}

impl View for Headers {
    type V = Map<Seq<char>, Seq<char>>;

    open spec fn view(&self) -> Map<Seq<char>, Seq<char>> {
        listed_map(self.entries())
    }
}

impl Clone for Headers {
    fn clone(&self) -> (copy: Headers)
        ensures
            copy.entries() == self.entries(),
            copy@ == self@,
    {
        proof {
            use_type_invariant(self);
        }
        let mut entries: Vec<(String, String)> = Vec::new();
        let mut i: usize = 0;
        while i < self.entries.len()
            invariant
                i <= self.entries@.len(),
                entries@.len() == i,
                forall|k: int| 0 <= k < i ==> entries@[k] == self.entries@[k],
            decreases self.entries@.len() - i,
        {
            entries.push((self.entries[i].0.clone(), self.entries[i].1.clone()));
            i += 1;
        }
        assert(entries@.map_values(|e: (String, String)| (e.0@, e.1@)) =~= self.entries());
        Headers { entries }
    }
}

impl Headers {
    /// The entries as pairs of texts, in order.
    pub closed spec fn entries(&self) -> Seq<(Seq<char>, Seq<char>)> {
        self.entries@.map_values(|e: (String, String)| (e.0@, e.1@))
    }

    /// No name occurs twice.
    #[verifier::type_invariant]
    spec fn well_formed(&self) -> bool {
        distinct_keys(self.entries())
    }

    /// The empty map.
    pub fn new() -> (map: Headers)
        ensures
            map.entries() == Seq::<(Seq<char>, Seq<char>)>::empty(),
            map@ == Map::<Seq<char>, Seq<char>>::empty(),
    {
        let map = Headers { entries: Vec::new() };
        assert(map.entries() =~= Seq::empty());
        assert(map@ =~= Map::empty());
        map
    }

    /// The number of entries, which is the number of names.
    pub fn len(&self) -> (n: usize)
        ensures
            n == self.entries().len(),
            n == self@.len(),
            distinct_keys(self.entries()),
    {
        proof {
            use_type_invariant(self);
            lemma_listed_len(self.entries());
        }
        self.entries.len()
    }

    /// The key of the entry at index `i`.
    pub fn key_at(&self, i: usize) -> (key: &String)
        requires
            i < self.entries().len(),
        ensures
            key@ == self.entries()[i as int].0,
    {
        &self.entries[i].0
    }

    /// The value of the entry at index `i`.
    pub fn value_at(&self, i: usize) -> (value: &String)
        requires
            i < self.entries().len(),
        ensures
            value@ == self.entries()[i as int].1,
    {
        &self.entries[i].1
    }

    /// The index of the entry with the key `key`, if there is one.
    pub fn position(&self, key: &str) -> (found: Option<usize>)
        ensures
            match found {
                Some(i) => has_key_at(self.entries(), key@, i as int),
                None => !self@.contains_key(key@),
            },
    {
        let mut i: usize = 0;
        while i < self.entries.len()
            invariant
                i <= self.entries@.len(),
                forall|k: int| 0 <= k < i ==> self.entries()[k].0 != key@,
            decreases self.entries@.len() - i,
        {
            if same_text(self.entries[i].0.as_str(), key) {
                return Some(i);
            }
            i += 1;
        }
        assert forall|k: int| !has_key_at(self.entries(), key@, k) by {}
        None
    }

    /// The value held for `key`, if there is one.
    pub fn get(&self, key: &str) -> (value: Option<&String>)
        ensures
            match value {
                Some(v) => self@.contains_key(key@) && self@[key@] == v@,
                None => !self@.contains_key(key@),
            },
    {
        proof {
            use_type_invariant(self);
        }
        match self.position(key) {
            Some(i) => {
                proof {
                    lemma_listed_entry(self.entries(), i as int);
                }
                Some(&self.entries[i].1)
            },
            None => None,
        }
    }

    /// Replaces the value of the entry at index `i`.
    pub fn set_value_at(&mut self, i: usize, value: String)
        requires
            i < old(self).entries().len(),
        ensures
            final(self).entries() == old(self).entries().update(
                i as int,
                (old(self).entries()[i as int].0, value@),
            ),
            final(self)@ == old(self)@.insert(old(self).entries()[i as int].0, value@),
    {
        proof {
            use_type_invariant(&*self);
        }
        let ghost before = self.entries();
        let mut entries: Vec<(String, String)> = Vec::new();
        std::mem::swap(&mut entries, &mut self.entries);
        let slot = &mut entries[i];
        slot.1 = value;
        proof {
            let after = entries@.map_values(|e: (String, String)| (e.0@, e.1@));
            assert(after =~= before.update(i as int, (before[i as int].0, value@)));
            lemma_listed_update(before, i as int, value@);
        }
        self.entries = entries;
    }

    /// Sets the value held for `key`. A key that is there keeps its place in
    /// the list; a new key goes to the end.
    pub fn insert(&mut self, key: String, value: String)
        ensures
            final(self)@ == old(self)@.insert(key@, value@),
            old(self)@.contains_key(key@) ==> exists|i: int|
                has_key_at(old(self).entries(), key@, i) && final(self).entries() == old(
                    self,
                ).entries().update(i, (key@, value@)),
            !old(self)@.contains_key(key@) ==> final(self).entries() == old(self).entries().push(
                (key@, value@),
            ),
    {
        proof {
            use_type_invariant(&*self);
        }
        match self.position(key.as_str()) {
            Some(i) => {
                assert(has_key_at(old(self).entries(), key@, i as int));
                self.set_value_at(i, value);
            },
            None => {
                let ghost before = self.entries();
                let mut entries: Vec<(String, String)> = Vec::new();
                std::mem::swap(&mut entries, &mut self.entries);
                entries.push((key, value));
                proof {
                    let after = entries@.map_values(|e: (String, String)| (e.0@, e.1@));
                    assert(after =~= before.push((key@, value@)));
                    lemma_listed_push(before, key@, value@);
                }
                self.entries = entries;
            },
        }
    }
}

/// A list without repeated keys spells a map of as many keys as it has
/// entries.
pub proof fn lemma_listed_len(list: Seq<(Seq<char>, Seq<char>)>)
    requires
        distinct_keys(list),
    ensures
        listed_map(list).dom().finite(),
        listed_map(list).len() == list.len(),
    decreases list.len(),
{
    if list.len() == 0 {
        assert(listed_map(list) =~= Map::empty());
    } else {
        let init = list.drop_last();
        let last = list.last();
        lemma_listed_len(init);
        assert forall|j: int| !has_key_at(init, last.0, j) by {
            if has_key_at(init, last.0, j) {
                assert(list[j].0 != list[list.len() - 1].0);
            }
        }
        lemma_listed_push(init, last.0, last.1);
        assert(init.push(last) =~= list);
    }
}

/// Replacing the value of one entry of a list without repeated keys sets the
/// value that the map holds for that entry's key.
pub proof fn lemma_listed_update(list: Seq<(Seq<char>, Seq<char>)>, i: int, value: Seq<char>)
    requires
        distinct_keys(list),
        0 <= i < list.len(),
    ensures
        distinct_keys(list.update(i, (list[i].0, value))),
        listed_map(list.update(i, (list[i].0, value))) == listed_map(list).insert(
            list[i].0,
            value,
        ),
{
    let after = list.update(i, (list[i].0, value));
    let target = listed_map(list).insert(list[i].0, value);
    assert forall|key: Seq<char>| listed_map(after).contains_key(key) <==> target.contains_key(
        key,
    ) by {
        if listed_map(after).contains_key(key) {
            let j = choose|j: int| has_key_at(after, key, j);
            assert(has_key_at(list, key, j));
        }
        if target.contains_key(key) {
            if key == list[i].0 {
                assert(has_key_at(after, key, i));
            } else {
                let j = choose|j: int| has_key_at(list, key, j);
                assert(has_key_at(after, key, j));
            }
        }
    }
    assert forall|key: Seq<char>| listed_map(after).contains_key(key) implies listed_map(
        after,
    )[key] == target[key] by {
        let j = choose|j: int| has_key_at(after, key, j);
        assert(has_key_at(list, key, j));
        if key != list[i].0 {
            lemma_listed_entry(list, j);
        }
    }
    assert(listed_map(after) =~= target);
}

/// Appending an entry with a new key to a list without repeated keys adds
/// that key to the map.
pub proof fn lemma_listed_push(list: Seq<(Seq<char>, Seq<char>)>, key: Seq<char>, value: Seq<char>)
    requires
        distinct_keys(list),
        !listed_map(list).contains_key(key),
    ensures
        distinct_keys(list.push((key, value))),
        listed_map(list.push((key, value))) == listed_map(list).insert(key, value),
{
    let after = list.push((key, value));
    let target = listed_map(list).insert(key, value);
    assert forall|i: int, j: int| 0 <= i < j < after.len() implies after[i].0 != after[j].0 by {
        if j == list.len() {
            assert(!has_key_at(list, key, i));
        }
    }
    assert forall|k: Seq<char>| listed_map(after).contains_key(k) <==> target.contains_key(
        k,
    ) by {
        if listed_map(after).contains_key(k) {
            let j = choose|j: int| has_key_at(after, k, j);
            if j < list.len() {
                assert(has_key_at(list, k, j));
            }
        }
        if target.contains_key(k) {
            if k == key {
                assert(has_key_at(after, k, list.len() as int));
            } else {
                let j = choose|j: int| has_key_at(list, k, j);
                assert(has_key_at(after, k, j));
            }
        }
    }
    assert forall|k: Seq<char>| listed_map(after).contains_key(k) implies listed_map(after)[k]
        == target[k] by {
        let j = choose|j: int| has_key_at(after, k, j);
        if k != key {
            assert(has_key_at(list, k, j));
            lemma_listed_entry(list, j);
        } else if j < list.len() {
            assert(has_key_at(list, key, j));
        }
    }
    assert(listed_map(after) =~= target);
}

} // verus!
