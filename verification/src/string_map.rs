//! A map keyed by strings that remembers the order in which its keys came.
//!
//! The values lie in a vector, in the order in which their keys were first
//! bound; a hash map finds the place of a key.

use vstd::prelude::*;

verus! {

/// One key with its value.
#[derive(Debug, Clone, PartialEq, Eq)]
pub struct Entry<V> {
    pub key: String,
    pub value: V,
}

/// The places of the keys: a hash map of `bevy::utils`, from a key to the
/// place of its value.
#[derive(Debug)]
#[verifier::external_body]
pub struct IndexTable {
    index: bevy::utils::HashMap<String, usize>,
}

/// What an [`IndexTable`] holds: for each key that is bound, its place.
pub uninterp spec fn places(table: IndexTable) -> Map<Seq<char>, usize>;

/// Calls `HashMap::default` of `hashbrown`, whose map `bevy::utils` hands
/// on: the map that it creates, with a default hasher, holds nothing.
#[verifier::external_body]
fn no_places() -> (made: IndexTable)
    ensures
        places(made) == (Map::<Seq<char>, usize>::empty()),
{
    IndexTable { index: bevy::utils::HashMap::default() }
}

/// Calls `HashMap::get` of `hashbrown` with `key` as the key: the value that
/// the key is bound to, if it is bound, is returned.
#[verifier::external_body]
fn find_place(table: &IndexTable, key: &str) -> (found: Option<usize>)
    ensures
        found == if places(*table).contains_key(key@) {
            Some(places(*table)[key@])
        } else {
            None
        },
{
    table.index.get(key).copied()
}

/// Calls `HashMap::insert` of `hashbrown` with `key` as the key: the key is
/// bound to `place`, in place of what it was bound to; the other keys stay
/// as they are.
#[verifier::external_body]
fn put_place(table: &mut IndexTable, key: String, place: usize)
    ensures
        places(*final(table)) == places(*old(table)).insert(key@, place),
{
    table.index.insert(key, place);
}

/// A map from strings to values.
#[derive(Debug)]
pub struct StringMap<V> {
    index: IndexTable,
    keys: Vec<String>,
    values: Vec<V>,
}

impl<V> View for StringMap<V> {
    type V = Map<Seq<char>, V>;

    closed spec fn view(&self) -> Map<Seq<char>, V> {
        Map::new(
            |key: Seq<char>| places(self.index).contains_key(key),
            |key: Seq<char>| self.values@[places(self.index)[key] as int],
        )
    }
}

impl<V> StringMap<V> {
    /// Every key has a value, the index finds every key at its place, and
    /// finds nothing else.
    #[verifier::type_invariant]
    spec fn well_formed(self) -> bool {
        &&& self.keys@.len() == self.values@.len()
        &&& forall|key: Seq<char>| #[trigger]
            places(self.index).contains_key(key) ==> places(self.index)[key] < self.keys@.len()
                && self.keys@[places(self.index)[key] as int]@ == key
        &&& forall|i: int|
            0 <= i < self.keys@.len() ==> places(self.index).contains_key((#[trigger] self.keys@[i])@) && places(
                self.index,
            )[self.keys@[i]@] == i
    }

    /// The map without keys.
    pub fn new() -> (map: StringMap<V>)
        ensures
            map@ == Map::<Seq<char>, V>::empty(),
    {
        let map = StringMap { index: no_places(), keys: Vec::new(), values: Vec::new() };
        assert(map@ =~= Map::<Seq<char>, V>::empty());
        map
    }

    /// The value that `key` is bound to.
    pub fn get(&self, key: &str) -> (value: Option<&V>)
        ensures
            match value {
                Some(v) => self@.contains_key(key@) && *v == self@[key@],
                None => !self@.contains_key(key@),
            },
    {
        proof {
            use_type_invariant(self);
        }
        match find_place(&self.index, key) {
            Some(at) => Some(&self.values[at]),
            None => None,
        }
    }

    /// Whether `key` is bound.
    pub fn contains_key(&self, key: &str) -> (bound: bool)
        ensures
            bound == self@.contains_key(key@),
    {
        find_place(&self.index, key).is_some()
    }

    /// Binds `key` to `value` and returns what it was bound to before.
    pub fn insert(&mut self, key: String, value: V) -> (previous: Option<V>)
        ensures
            final(self)@ == old(self)@.insert(key@, value),
            previous == if old(self)@.contains_key(key@) {
                Some(old(self)@[key@])
            } else {
                None
            },
    {
        let mut taken = StringMap::new();
        core::mem::swap(self, &mut taken);
        proof {
            use_type_invariant(&taken);
        }
        let ghost before = taken@;
        let StringMap { index, keys, values } = taken;
        let mut index = index;
        let mut keys = keys;
        let mut values = values;
        let found = find_place(&index, key.as_str());
        values.push(value);
        let previous = match found {
            Some(at) => Some(values.swap_remove(at)),
            None => {
                put_place(&mut index, key.clone(), keys.len());
                keys.push(key);
                None
            },
        };
        *self = StringMap { index, keys, values };
        assert(self@ =~= before.insert(key@, value));
        previous
    }

    /// The bindings of the map, each key once, in no particular order.
    pub fn into_entries(self) -> (entries: Vec<Entry<V>>)
        ensures
            forall|i: int|
                0 <= i < entries@.len() ==> self@.contains_key((#[trigger] entries@[i]).key@) && self@[entries@[i].key@]
                    == entries@[i].value,
            forall|i: int, j: int|
                0 <= i < j < entries@.len() ==> (#[trigger] entries@[i]).key@ != (#[trigger] entries@[j]).key@,
            forall|key: Seq<char>|
                self@.contains_key(key) ==> exists|i: int|
                    0 <= i < entries@.len() && (#[trigger] entries@[i]).key@ == key,
    {
        proof {
            use_type_invariant(&self);
        }
        let ghost all = self@;
        let ghost places = places(self.index);
        let StringMap { index, keys, values } = self;
        let mut keys = keys;
        let mut values = values;
        let ghost all_keys = keys@;
        let ghost all_values = values@;
        let mut entries: Vec<Entry<V>> = Vec::new();
        while keys.len() > 0
            invariant
                all_keys.len() == all_values.len(),
                keys@.len() == values@.len(),
                keys@.len() + entries@.len() == all_keys.len(),
                keys@ == all_keys.take(keys@.len() as int),
                values@ == all_values.take(values@.len() as int),
                forall|j: int|
                    0 <= j < entries@.len() ==> (#[trigger] entries@[j]).key == all_keys[all_keys.len() - 1 - j]
                        && entries@[j].value == all_values[all_keys.len() - 1 - j],
            decreases keys@.len(),
        {
            let key = keys.pop().unwrap();
            let value = values.pop().unwrap();
            entries.push(Entry { key, value });
        }
        proof {
            assert forall|i: int| 0 <= i < entries@.len() implies all.contains_key((#[trigger] entries@[i]).key@)
                && all[entries@[i].key@] == entries@[i].value by {
                let at = all_keys.len() - 1 - i;
                assert(places[all_keys[at]@] == at);
            }
            assert forall|i: int, j: int| 0 <= i < j < entries@.len() implies (#[trigger] entries@[i]).key@ != (
            #[trigger] entries@[j]).key@ by {
                assert(places[all_keys[all_keys.len() - 1 - i]@] == all_keys.len() - 1 - i);
                assert(places[all_keys[all_keys.len() - 1 - j]@] == all_keys.len() - 1 - j);
            }
            assert forall|key: Seq<char>| all.contains_key(key) implies exists|i: int|
                0 <= i < entries@.len() && (#[trigger] entries@[i]).key@ == key by {
                let at = places[key] as int;
                let i = all_keys.len() - 1 - at;
                assert(entries@[i].key@ == key);
            }
        }
        entries
    }
}

} // verus!
