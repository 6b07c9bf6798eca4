//! A small string-keyed dictionary, kept as a list of entries in which no key
//! occurs twice. It stands where the wire format has a JSON object with
//! free-form member names.

use vstd::prelude::*;
use vstd::string::*;

verus! {

/// One member of a [`Dict`].
#[derive(Debug)]
pub struct Entry<V> {
    pub key: String,
    pub value: V,
}

/// A dictionary from strings to `V`.
///
/// Its view is the mathematical map from keys (as character sequences) to
/// values. The entries keep the order in which their keys first arrived.
#[derive(Debug)]
pub struct Dict<V> {
    entries: Vec<Entry<V>>,
}

/// No two entries of `entries` have the same key.
pub open spec fn distinct_keys<V>(entries: Seq<Entry<V>>) -> bool {
    forall|i: int, j: int|
        0 <= i < entries.len() && 0 <= j < entries.len() && i != j
            ==> (#[trigger] entries[i]).key@ != (#[trigger] entries[j]).key@
}

/// Whether some entry of `entries` has the key `key`.
pub open spec fn has_key<V>(entries: Seq<Entry<V>>, key: Seq<char>) -> bool {
    exists|i: int| 0 <= i < entries.len() && (#[trigger] entries[i]).key@ == key
}

/// The position of an entry with the key `key`, if there is one.
pub open spec fn position<V>(entries: Seq<Entry<V>>, key: Seq<char>) -> int {
    choose|i: int| 0 <= i < entries.len() && (#[trigger] entries[i]).key@ == key
}

/// The map that a list of entries stands for.
pub open spec fn as_map<V>(entries: Seq<Entry<V>>) -> Map<Seq<char>, V> {
    Map::new(
        |key: Seq<char>| has_key(entries, key),
        |key: Seq<char>| entries[position(entries, key)].value,
    )
}

impl<V> View for Dict<V> {
    type V = Map<Seq<char>, V>;

    closed spec fn view(&self) -> Map<Seq<char>, V> {
        as_map(self.entries@)
    }
}

impl<V> Dict<V> {
    #[verifier::type_invariant]
    spec fn well_formed(self) -> bool {
        distinct_keys(self.entries@)
    }

    /// The entries, in arrival order.
    pub closed spec fn spec_entries(self) -> Seq<Entry<V>> {
        self.entries@
    }

    /// The empty dictionary.
    pub fn new() -> (d: Dict<V>)
        ensures
            d@ == Map::<Seq<char>, V>::empty(),
            d.spec_entries() == Seq::<Entry<V>>::empty(),
    {
        let d = Dict { entries: Vec::new() };
        assert(d@ =~= Map::<Seq<char>, V>::empty());
        d
    }

    /// The number of keys.
    pub fn len(&self) -> (n: usize)
        ensures
            n == self.spec_entries().len(),
    {
        self.entries.len()
    }

    /// Where `key` stands among the entries, if it does.
    fn find(&self, key: &str) -> (r: Option<usize>)
        ensures
            match r {
                Some(i) => i < self.entries@.len() && self.entries@[i as int].key@ == key@,
                None => !has_key(self.entries@, key@),
            },
    {
        let wanted = String::from_str(key);
        let mut i: usize = 0;
        while i < self.entries.len()
            invariant
                wanted@ == key@,
                i <= self.entries@.len(),
                forall|j: int| 0 <= j < i ==> (#[trigger] self.entries@[j]).key@ != key@,
            decreases self.entries@.len() - i,
        {
            if self.entries[i].key == wanted {
                return Some(i);
            }
            i += 1;
        }
        None
    }

    /// The value stored under `key`, if any.
    pub fn get(&self, key: &str) -> (r: Option<&V>)
        ensures
            match r {
                Some(v) => self@.dom().contains(key@) && *v == self@[key@],
                None => !self@.dom().contains(key@),
            },
    {
        proof {
            use_type_invariant(self);
        }
        match self.find(key) {
            Some(i) => {
                assert(has_key(self.entries@, key@));
                Some(&self.entries[i].value)
            },
            None => None,
        }
    }

    /// Stores `value` under `key`. A value that was there before is replaced
    /// and handed back.
    pub fn insert(&mut self, key: String, value: V) -> (previous: Option<V>)
        ensures
            final(self)@ == old(self)@.insert(key@, value),
            previous == if old(self)@.dom().contains(key@) {
                Some(old(self)@[key@])
            } else {
                None::<V>
            },
    {
        proof {
            use_type_invariant(&*self);
        }
        let found = self.find(key.as_str());
        let mut entries: Vec<Entry<V>> = Vec::new();
        std::mem::swap(&mut entries, &mut self.entries);
        let ghost before = entries@;
        let previous = match found {
            Some(i) => {
                let mut held = value;
                std::mem::swap(&mut entries[i].value, &mut held);
                proof {
                    let after = entries@;
                    assert(has_key(before, key@));
                    assert(after.len() == before.len());
                    assert forall|k: Seq<char>| has_key(after, k) == has_key(before, k) by {
                        if has_key(before, k) {
                            let j = position(before, k);
                            assert(after[j].key@ == k);
                        }
                        if has_key(after, k) {
                            let j = position(after, k);
                            assert(before[j].key@ == k);
                        }
                    }
                    assert(as_map(after) =~= as_map(before).insert(key@, value));
                }
                Some(held)
            },
            None => {
                entries.push(Entry { key, value });
                proof {
                    let after = entries@;
                    assert(after[before.len() as int].key@ == key@);
                    assert forall|k: Seq<char>| has_key(after, k) == (has_key(before, k) || k == key@) by {
                        if has_key(before, k) {
                            let j = position(before, k);
                            assert(after[j].key@ == k);
                        }
                        if has_key(after, k) {
                            let j = position(after, k);
                            if j < before.len() {
                                assert(before[j].key@ == k);
                            }
                        }
                    }
                    assert forall|k: Seq<char>| has_key(before, k) implies
                        after[position(after, k)].value == before[position(before, k)].value by {
                        let j = position(before, k);
                        assert(after[j].key@ == k);
                    }
                    assert(as_map(after) =~= as_map(before).insert(key@, value));
                }
                None
            },
        };
        self.entries = entries;
        previous
    }

    /// The entries, in arrival order.
    pub fn entries(&self) -> (r: &Vec<Entry<V>>)
        ensures
            r@ == self.spec_entries(),
            distinct_keys(r@),
            self@ == as_map(r@),
    {
        proof {
            use_type_invariant(self);
        }
        &self.entries
    }

    /// Gives up the dictionary for its entries, in arrival order.
    pub fn into_entries(self) -> (r: Vec<Entry<V>>)
        ensures
            r@ == self.spec_entries(),
            distinct_keys(r@),
            self@ == as_map(r@),
    {
        proof {
            use_type_invariant(&self);
        }
        self.entries
    }
}

} // verus!
