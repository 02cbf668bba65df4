//! A small map from texts to values, kept in the order of first insertion.

use vstd::prelude::*;

verus! {

/// A map keyed by text. No key occurs twice in it.
#[derive(Debug)]
pub struct Keyed<V> {
    entries: Vec<(String, V)>,
}

/// Whether no two items of the sequence share a key.
pub open spec fn keys_distinct<V>(entries: Seq<(String, V)>) -> bool {
    forall|i: int, j: int|
        0 <= i < entries.len() && 0 <= j < entries.len() && i != j ==> (#[trigger] entries[i]).0@
            != (#[trigger] entries[j]).0@
}

/// Whether some item of the sequence has this key.
pub open spec fn has_key<V>(entries: Seq<(String, V)>, key: Seq<char>) -> bool {
    exists|i: int| 0 <= i < entries.len() && (#[trigger] entries[i]).0@ == key
}

/// The place of an item with this key.
pub open spec fn index_of_key<V>(entries: Seq<(String, V)>, key: Seq<char>) -> int {
    choose|i: int| 0 <= i < entries.len() && (#[trigger] entries[i]).0@ == key
}

/// The map that the items stand for.
pub open spec fn entries_map<V>(entries: Seq<(String, V)>) -> Map<Seq<char>, V> {
    Map::new(
        |key: Seq<char>| has_key(entries, key),
        |key: Seq<char>| entries[index_of_key(entries, key)].1,
    )
}

impl<V> View for Keyed<V> {
    type V = Map<Seq<char>, V>;

    closed spec fn view(&self) -> Map<Seq<char>, V> {
        entries_map(self.entries@)
    }
}

impl<V> Keyed<V> {
    #[verifier::type_invariant]
    spec fn distinct(&self) -> bool {
        keys_distinct(self.entries@)
    }

    /// The empty map.
    pub fn new() -> (map: Keyed<V>)
        ensures
            map@ == Map::<Seq<char>, V>::empty(),
    {
        let map = Keyed { entries: Vec::new() };
        assert(map@ =~= Map::<Seq<char>, V>::empty());
        map
    }

    /// How many keys the map holds.
    pub fn len(&self) -> (count: usize)
        ensures
            count == self@.dom().len(),
            self@.dom().finite(),
    {
        proof {
            use_type_invariant(self);
            lemma_domain_size(self.entries@);
        }
        self.entries.len()
    }

    /// The value stored under `key`, if there is one.
    pub fn get(&self, key: &str) -> (found: Option<&V>)
        ensures
            match found {
                Some(value) => self@.dom().contains(key@) && self@[key@] == *value,
                None => !self@.dom().contains(key@),
            },
    {
        proof {
            use_type_invariant(self);
        }
        let wanted = String::from_str(key);
        let mut index: usize = 0;
        while index < self.entries.len()
            invariant
                index <= self.entries.len(),
                wanted@ == key@,
                keys_distinct(self.entries@),
                forall|i: int| 0 <= i < index ==> (#[trigger] self.entries@[i]).0@ != key@,
            decreases self.entries.len() - index,
        {
            if self.entries[index].0 == wanted {
                assert(has_key(self.entries@, key@));
                return Some(&self.entries[index].1);
            }
            index += 1;
        }
        None
    }

    /// Whether a value is stored under `key`.
    pub fn contains_key(&self, key: &str) -> (found: bool)
        ensures
            found == self@.dom().contains(key@),
    {
        self.get(key).is_some()
    }

    /// A copy of the map, with each value copied by `copy_value`.
    pub fn clone_by<F: Fn(&V) -> V>(&self, copy_value: F) -> (copy: Keyed<V>)
        requires
            forall|value: &V| call_requires(copy_value, (value,)),
        ensures
            copy@.dom() == self@.dom(),
            forall|key: Seq<char>|
                self@.dom().contains(key) ==> call_ensures(
                    copy_value,
                    (&self@[key],),
                    #[trigger] copy@[key],
                ),
    {
        proof {
            use_type_invariant(self);
        }
        let mut entries: Vec<(String, V)> = Vec::new();
        let mut index: usize = 0;
        while index < self.entries.len()
            invariant
                index <= self.entries.len(),
                entries.len() == index,
                forall|value: &V| call_requires(copy_value, (value,)),
                forall|i: int|
                    0 <= i < index ==> (#[trigger] entries@[i]).0@ == self.entries@[i].0@
                        && call_ensures(copy_value, (&self.entries@[i].1,), entries@[i].1),
            decreases self.entries.len() - index,
        {
            let value = copy_value(&self.entries[index].1);
            entries.push((self.entries[index].0.clone(), value));
            index += 1;
        }
        proof {
            let from = self.entries@;
            let to = entries@;
            assert forall|k: Seq<char>| has_key(to, k) == has_key(from, k) by {
                if has_key(to, k) {
                    let i = index_of_key(to, k);
                    assert(from[i].0@ == k);
                }
                if has_key(from, k) {
                    let i = index_of_key(from, k);
                    assert(to[i].0@ == k);
                }
            }
            assert(entries_map(to).dom() =~= entries_map(from).dom());
            assert forall|k: Seq<char>| has_key(from, k) implies call_ensures(
                copy_value,
                (&entries_map(from)[k],),
                #[trigger] entries_map(to)[k],
            ) by {
                let i = index_of_key(from, k);
                let j = index_of_key(to, k);
                assert(to[i].0@ == k);
                assert(from[j].0@ == k);
                assert(i == j);
            }
            assert forall|i: int, j: int|
                0 <= i < to.len() && 0 <= j < to.len() && i != j implies (#[trigger] to[i]).0@ != (
            #[trigger] to[j]).0@ by {
                assert(from[i].0@ != from[j].0@);
            }
        }
        Keyed { entries }
    }

    /// Stores `value` under `key`, in place of what was stored there.
    pub fn insert(&mut self, key: String, value: V)
        ensures
            final(self)@ == old(self)@.insert(key@, value),
    {
        proof {
            use_type_invariant(&*self);
        }
        let mut taken = Keyed { entries: Vec::new() };
        core::mem::swap(self, &mut taken);
        let Keyed { entries } = taken;
        let mut entries = entries;
        let ghost before = entries@;
        let mut index: usize = 0;
        while index < entries.len() && !(entries[index].0 == key)
            invariant
                index <= entries.len(),
                entries@ == before,
                forall|i: int| 0 <= i < index ==> (#[trigger] before[i]).0@ != key@,
            decreases entries.len() - index,
        {
            index += 1;
        }
        if index < entries.len() {
            entries.set(index, (key, value));
        } else {
            entries.push((key, value));
        }
        proof {
            let after = entries@;
            let place = index as int;
            assert(after[place].0@ == key@);
            assert forall|k: Seq<char>| has_key(after, k) == (has_key(before, k) || k
                == key@) by {
                if has_key(before, k) {
                    let i = index_of_key(before, k);
                    assert(after[i].0@ == k);
                }
                if has_key(after, k) {
                    let i = index_of_key(after, k);
                    if i != place {
                        assert(before[i].0@ == k);
                    }
                }
            }
            assert forall|k: Seq<char>| has_key(after, k) implies entries_map(after)[k]
                == entries_map(before).insert(key@, value)[k] by {
                let i = index_of_key(after, k);
                if k != key@ {
                    assert(i != place);
                    assert(before[i].0@ == k);
                    let j = index_of_key(before, k);
                    assert(before[j].0@ == k);
                    assert(i == j);
                } else {
                    assert(i == place);
                }
            }
            assert(entries_map(after) =~= entries_map(before).insert(key@, value));
        }
        *self = Keyed { entries };
    }
}

/// A sequence without repeated keys stands for a map of as many keys.
pub proof fn lemma_domain_size<V>(entries: Seq<(String, V)>)
    requires
        keys_distinct(entries),
    ensures
        entries_map(entries).dom().finite(),
        entries_map(entries).dom().len() == entries.len(),
    decreases entries.len(),
{
    if entries.len() == 0 {
        assert(entries_map(entries).dom() =~= Set::<Seq<char>>::empty());
    } else {
        let shorter = entries.drop_last();
        let last = entries.last();
        lemma_domain_size(shorter);
        assert forall|k: Seq<char>|
            entries_map(entries).dom().contains(k) == entries_map(shorter).dom().insert(
                last.0@,
            ).contains(k) by {
            if has_key(entries, k) {
                let i = index_of_key(entries, k);
                if i < shorter.len() {
                    assert(shorter[i].0@ == k);
                }
            }
            if has_key(shorter, k) {
                let i = index_of_key(shorter, k);
                assert(entries[i].0@ == k);
            }
            if k == last.0@ {
                assert(entries[entries.len() - 1].0@ == k);
            }
        }
        assert(entries_map(entries).dom() =~= entries_map(shorter).dom().insert(last.0@));
        if has_key(shorter, last.0@) {
            let i = index_of_key(shorter, last.0@);
            assert(entries[i].0@ == last.0@);
            assert(entries[entries.len() - 1].0@ == last.0@);
        }
    }
}

} // verus!
