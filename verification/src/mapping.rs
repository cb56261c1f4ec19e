//! A mapping from column names to script values.

use crate::value::HostValue;
use crate::value::HostView;
use vstd::prelude::*;

verus! {

/// A mapping from names to script values, with each name held once.
#[derive(Debug)]
pub struct Mapping {
    keys: Vec<String>,
    values: Vec<HostValue>,
}

/// Whether `k` stands at place `i` of `keys`.
pub open spec fn key_at(keys: Seq<String>, i: int, k: Seq<char>) -> bool {
    0 <= i < keys.len() && keys[i]@ == k
}

/// The mapping that the two columns of an association list stand for.
pub open spec fn assoc(keys: Seq<String>, values: Seq<HostValue>) -> Map<Seq<char>, HostView> {
    Map::new(
        |k: Seq<char>| exists|i: int| key_at(keys, i, k),
        |k: Seq<char>| values[choose|i: int| key_at(keys, i, k)]@,
    )
}

/// No name stands at two places.
pub open spec fn distinct(keys: Seq<String>) -> bool {
    forall|i: int, j: int| 0 <= i < j < keys.len() ==> keys[i]@ != keys[j]@
}

impl View for Mapping {
    type V = Map<Seq<char>, HostView>;

    closed spec fn view(&self) -> Map<Seq<char>, HostView> {
        assoc(self.keys@, self.values@)
    }
}

impl Mapping {
    #[verifier::type_invariant]
    spec fn inv(self) -> bool {
        self.keys.len() == self.values.len() && distinct(self.keys@)
    }

    /// The mapping with no entry.
    pub fn new() -> (m: Mapping)
        ensures
            m@ == Map::<Seq<char>, HostView>::empty(),
    {
        let m = Mapping { keys: Vec::new(), values: Vec::new() };
        proof {
            assert(m@ =~= Map::<Seq<char>, HostView>::empty());
        }
        m
    }

    fn position(&self, key: &String) -> (at: Option<usize>)
        ensures
            match at {
                Some(i) => key_at(self.keys@, i as int, key@),
                None => forall|i: int| !key_at(self.keys@, i, key@),
            },
    {
        let mut i: usize = 0;
        while i < self.keys.len()
            invariant
                i <= self.keys.len(),
                forall|j: int| 0 <= j < i ==> self.keys[j]@ != key@,
            decreases self.keys.len() - i,
        {
            if self.keys[i] == *key {
                return Some(i);
            }
            i = i + 1;
        }
        None
    }

    /// Files `value` under `key`, in place of whatever stood there.
    pub fn set(&mut self, key: String, value: HostValue)
        ensures
            final(self)@ == old(self)@.insert(key@, value@),
    {
        proof {
            use_type_invariant(&*self);
        }
        let at = self.position(&key);
        let ghost before = *self;
        let mut taken = Mapping::new();
        core::mem::swap(self, &mut taken);
        let Mapping { keys, values } = taken;
        let mut keys = keys;
        let mut values = values;
        match at {
            Some(i) => {
                values.set(i, value);
                proof {
                    lemma_assoc_replace(keys@, before.values@, values@, i as int, value);
                }
            },
            None => {
                proof {
                    lemma_assoc_extend(keys@, values@, key, value);
                }
                keys.push(key);
                values.push(value);
            },
        }
        *self = Mapping { keys, values };
    }

    /// The value filed under `key`, if there is one.
    pub fn get(&self, key: &String) -> (found: Option<&HostValue>)
        ensures
            match found {
                Some(v) => self@.dom().contains(key@) && self@[key@] == v@,
                None => !self@.dom().contains(key@),
            },
    {
        proof {
            use_type_invariant(self);
        }
        match self.position(key) {
            Some(i) => {
                proof {
                    let j = choose|j: int| key_at(self.keys@, j, key@);
                    assert(j == i);
                }
                Some(&self.values[i])
            },
            None => None,
        }
    }

    /// The number of entries.
    pub fn len(&self) -> (n: usize)
        ensures
            n == self@.dom().len(),
            self@.dom().finite(),
    {
        proof {
            use_type_invariant(self);
            lemma_assoc_size(self.keys@, self.values@);
        }
        self.keys.len()
    }

    /// Takes the mapping apart into its names and, place for place, their values.
    pub fn into_pairs(self) -> (pairs: (Vec<String>, Vec<HostValue>))
        ensures
            pairs.0.len() == pairs.1.len(),
            distinct(pairs.0@),
            self@ == assoc(pairs.0@, pairs.1@),
            forall|i: int|
                0 <= i < pairs.0.len() ==> self@.dom().contains(#[trigger] pairs.0[i]@) && self@[pairs.0[i]@]
                    == pairs.1[i]@,
    {
        proof {
            use_type_invariant(&self);
            assert forall|i: int| 0 <= i < self.keys.len() implies self@.dom().contains(
                #[trigger] self.keys[i]@,
            ) && self@[self.keys[i]@] == self.values[i]@ by {
                assert(key_at(self.keys@, i, self.keys[i]@));
                let j = choose|j: int| key_at(self.keys@, j, self.keys[i]@);
                assert(j == i);
            }
        }
        (self.keys, self.values)
    }
}

/// Putting a new value at the place of a name files it under that name.
proof fn lemma_assoc_replace(
    keys: Seq<String>,
    before: Seq<HostValue>,
    after: Seq<HostValue>,
    i: int,
    value: HostValue,
)
    requires
        distinct(keys),
        keys.len() == before.len(),
        0 <= i < keys.len(),
        after == before.update(i, value),
    ensures
        assoc(keys, after) == assoc(keys, before).insert(keys[i]@, value@),
{
    let key = keys[i]@;
    let target = assoc(keys, before).insert(key, value@);
    assert forall|k: Seq<char>| #[trigger]
        assoc(keys, after).dom().contains(k) == target.dom().contains(k) by {
        if k == key {
            assert(key_at(keys, i, k));
        }
    }
    assert forall|k: Seq<char>| #[trigger] assoc(keys, after).dom().contains(k) implies assoc(
        keys,
        after,
    )[k] == target[k] by {
        let j = choose|j: int| key_at(keys, j, k);
        if k == key {
            assert(j == i);
        } else {
            assert(j != i);
        }
    }
    assert(assoc(keys, after) =~= target);
}

/// Adding a name that is not there yet, with its value, files the value
/// under that name and keeps the names distinct.
proof fn lemma_assoc_extend(keys: Seq<String>, values: Seq<HostValue>, key: String, value: HostValue)
    requires
        distinct(keys),
        keys.len() == values.len(),
        forall|i: int| !key_at(keys, i, key@),
    ensures
        distinct(keys.push(key)),
        assoc(keys.push(key), values.push(value)) == assoc(keys, values).insert(key@, value@),
{
    let n = keys.len() as int;
    let keys2 = keys.push(key);
    let values2 = values.push(value);
    let target = assoc(keys, values).insert(key@, value@);
    assert forall|i: int, j: int| 0 <= i < j < keys2.len() implies keys2[i]@ != keys2[j]@ by {
        if j == n {
            assert(!key_at(keys, i, key@));
        }
    }
    assert forall|k: Seq<char>| #[trigger]
        assoc(keys2, values2).dom().contains(k) == target.dom().contains(k) by {
        if k == key@ {
            assert(key_at(keys2, n, k));
        } else if assoc(keys, values).dom().contains(k) {
            let j = choose|j: int| key_at(keys, j, k);
            assert(key_at(keys2, j, k));
        } else if assoc(keys2, values2).dom().contains(k) {
            let j = choose|j: int| key_at(keys2, j, k);
            assert(key_at(keys, j, k));
        }
    }
    assert forall|k: Seq<char>| #[trigger] assoc(keys2, values2).dom().contains(k) implies assoc(
        keys2,
        values2,
    )[k] == target[k] by {
        let j = choose|j: int| key_at(keys2, j, k);
        if k == key@ {
            if j != n {
                assert(key_at(keys, j, key@));
            }
        } else {
            assert(key_at(keys, j, k));
            let j0 = choose|j0: int| key_at(keys, j0, k);
            assert(j0 == j);
        }
    }
    assert(assoc(keys2, values2) =~= target);
}

/// An association list with distinct names has as many entries as names.
proof fn lemma_assoc_size(keys: Seq<String>, values: Seq<HostValue>)
    requires
        distinct(keys),
    ensures
        assoc(keys, values).dom().finite(),
        assoc(keys, values).dom().len() == keys.len(),
    decreases keys.len(),
{
    if keys.len() == 0 {
        assert(assoc(keys, values).dom() =~= Set::<Seq<char>>::empty());
    } else {
        let front = keys.drop_last();
        lemma_assoc_size(front, values);
        let last = keys.last()@;
        assert forall|k: Seq<char>| #[trigger]
            assoc(keys, values).dom().contains(k) == assoc(front, values).dom().insert(
                last,
            ).contains(k) by {
            if k == last {
                assert(key_at(keys, keys.len() - 1, k));
            } else if assoc(front, values).dom().contains(k) {
                let j = choose|j: int| key_at(front, j, k);
                assert(key_at(keys, j, k));
            } else if assoc(keys, values).dom().contains(k) {
                let j = choose|j: int| key_at(keys, j, k);
                assert(key_at(front, j, k));
            }
        }
        assert(assoc(keys, values).dom() =~= assoc(front, values).dom().insert(last));
        assert(!assoc(front, values).dom().contains(last)) by {
            if assoc(front, values).dom().contains(last) {
                let j = choose|j: int| key_at(front, j, last);
                assert(keys[j]@ == keys[keys.len() - 1]@);
            }
        }
    }
}

} // verus!
