//! A small map from text keys to values that remembers the order of insertion.
//!
//! Both registries of the server are such maps: sessions by session
//! identifier, connections by connection identifier.

use crate::model::list_view;
use crate::text::same_text;
use vstd::prelude::*;

verus! {

/// The map that pairs `keys[i]` with `values[i]`.
pub open spec fn keyed<V>(keys: Seq<Seq<char>>, values: Seq<V>) -> Map<Seq<char>, V> {
    Map::new(|k: Seq<char>| keys.contains(k), |k: Seq<char>| values[keys.index_of(k)])
}

/// In a list of distinct keys, the value paired with `keys[i]` is `values[i]`.
pub proof fn lemma_keyed_at<V>(keys: Seq<Seq<char>>, values: Seq<V>, i: int)
    requires
        keys.no_duplicates(),
        0 <= i < keys.len(),
    ensures
        keyed(keys, values).contains_key(keys[i]),
        keyed(keys, values)[keys[i]] == values[i],
        keys.index_of(keys[i]) == i,
{
    assert(keys.contains(keys[i]));
    let j = keys.index_of(keys[i]);
    assert(0 <= j < keys.len() && keys[j] == keys[i]);
}

/// Appending a pair whose key is new inserts it into the map.
pub proof fn lemma_keyed_push<V>(keys: Seq<Seq<char>>, values: Seq<V>, k: Seq<char>, v: V)
    requires
        keys.no_duplicates(),
        keys.len() == values.len(),
        !keys.contains(k),
    ensures
        keys.push(k).no_duplicates(),
        keyed(keys.push(k), values.push(v)) == keyed(keys, values).insert(k, v),
{
    let keys2 = keys.push(k);
    let values2 = values.push(v);
    assert forall|i: int, j: int| 0 <= i < keys2.len() && 0 <= j < keys2.len() && i != j implies keys2[i]
        != keys2[j] by {
        if i < keys.len() && j < keys.len() {
        } else if i < keys.len() {
            assert(keys.contains(keys[i]));
        } else {
            assert(keys.contains(keys[j]));
        }
    }
    let m1 = keyed(keys2, values2);
    let m2 = keyed(keys, values).insert(k, v);
    assert forall|x: Seq<char>| m1.contains_key(x) <==> m2.contains_key(x) by {
        if keys2.contains(x) {
            let i = choose|i: int| 0 <= i < keys2.len() && keys2[i] == x;
            if i < keys.len() {
                assert(keys[i] == x);
                assert(keys.contains(x));
            }
        }
        if keys.contains(x) {
            let i = choose|i: int| 0 <= i < keys.len() && keys[i] == x;
            assert(keys2[i] == x);
        }
        assert(keys2[keys.len() as int] == k);
    }
    assert forall|x: Seq<char>| m1.contains_key(x) implies m1[x] == m2[x] by {
        let i = keys2.index_of(x);
        assert(0 <= i < keys2.len() && keys2[i] == x);
        lemma_keyed_at(keys2, values2, i);
        if i < keys.len() {
            assert(keys[i] == x);
            lemma_keyed_at(keys, values, i);
        }
    }
    assert(m1 =~= m2);
}

/// Replacing the value at position `i` replaces the value of `keys[i]`.
pub proof fn lemma_keyed_update<V>(keys: Seq<Seq<char>>, values: Seq<V>, i: int, v: V)
    requires
        keys.no_duplicates(),
        keys.len() == values.len(),
        0 <= i < keys.len(),
    ensures
        keyed(keys, values.update(i, v)) == keyed(keys, values).insert(keys[i], v),
{
    let m1 = keyed(keys, values.update(i, v));
    let m2 = keyed(keys, values).insert(keys[i], v);
    assert(keys.contains(keys[i]));
    assert forall|x: Seq<char>| m1.contains_key(x) implies m1[x] == m2[x] by {
        let j = keys.index_of(x);
        assert(0 <= j < keys.len() && keys[j] == x);
    }
    assert(m1 =~= m2);
}

/// Removing the pair at position `i` removes `keys[i]` from the map.
pub proof fn lemma_keyed_remove<V>(keys: Seq<Seq<char>>, values: Seq<V>, i: int)
    requires
        keys.no_duplicates(),
        keys.len() == values.len(),
        0 <= i < keys.len(),
    ensures
        keys.remove(i).no_duplicates(),
        keyed(keys.remove(i), values.remove(i)) == keyed(keys, values).remove(keys[i]),
{
    let keys2 = keys.remove(i);
    let values2 = values.remove(i);
    assert forall|a: int, b: int| 0 <= a < keys2.len() && 0 <= b < keys2.len() && a != b implies keys2[a]
        != keys2[b] by {
        let a0 = if a < i { a } else { a + 1 };
        let b0 = if b < i { b } else { b + 1 };
        assert(keys2[a] == keys[a0] && keys2[b] == keys[b0]);
    }
    let m1 = keyed(keys2, values2);
    let m2 = keyed(keys, values).remove(keys[i]);
    assert forall|x: Seq<char>| m1.contains_key(x) <==> m2.contains_key(x) by {
        if keys2.contains(x) {
            let a = choose|a: int| 0 <= a < keys2.len() && keys2[a] == x;
            let a0 = if a < i { a } else { a + 1 };
            assert(keys[a0] == x);
            assert(keys.contains(x));
        }
        if keys.contains(x) && x != keys[i] {
            let a0 = choose|a0: int| 0 <= a0 < keys.len() && keys[a0] == x;
            let a = if a0 < i { a0 } else { a0 - 1 };
            assert(keys2[a] == x);
        }
    }
    assert forall|x: Seq<char>| m1.contains_key(x) implies m1[x] == m2[x] by {
        let a = keys2.index_of(x);
        assert(0 <= a < keys2.len() && keys2[a] == x);
        lemma_keyed_at(keys2, values2, a);
        let a0 = if a < i { a } else { a + 1 };
        assert(keys[a0] == x);
        lemma_keyed_at(keys, values, a0);
    }
    assert(m1 =~= m2);
}

/// A list of distinct keys makes a finite map with one entry for each key.
pub proof fn lemma_keyed_len<V>(keys: Seq<Seq<char>>, values: Seq<V>)
    requires
        keys.no_duplicates(),
    ensures
        keyed(keys, values).dom().finite(),
        keyed(keys, values).len() == keys.len(),
{
    assert(keyed(keys, values).dom() =~= keys.to_set());
    keys.unique_seq_to_set();
}

/// A map from text keys to values, in order of insertion. No key occurs twice.
#[derive(Debug)]
pub struct Registry<T> {
    keys: Vec<String>,
    values: Vec<T>,
}

impl<T: View> View for Registry<T> {
    type V = Map<Seq<char>, T::V>;

    /// The registry as a map from key to the view of its value.
    open spec fn view(&self) -> Map<Seq<char>, T::V> {
        keyed(self.keys(), self.values())
    }
}

impl<T: View> Registry<T> {
    /// The keys in order of insertion.
    pub closed spec fn keys(&self) -> Seq<Seq<char>> {
        self.keys@.map_values(|k: String| k@)
    }

    /// The views of the values, each at the position of its key.
    pub closed spec fn values(&self) -> Seq<T::V> {
        list_view(self.values@)
    }

    /// Every key has its value and no key occurs twice.
    pub open spec fn wf(&self) -> bool {
        &&& self.keys().len() == self.values().len()
        &&& self.keys().no_duplicates()
    }

    /// The number of entries.
    pub open spec fn count(&self) -> nat {
        self.keys().len()
    }

    /// The map has exactly one entry for each position.
    pub proof fn lemma_view(&self)
        requires
            self.wf(),
        ensures
            self@.dom().finite(),
            self@.len() == self.count(),
            forall|i: int|
                0 <= i < self.count() ==> self@.contains_key(#[trigger] self.keys()[i]) && self@[self.keys()[i]]
                    == self.values()[i],
            forall|k: Seq<char>|
                self@.contains_key(k) ==> 0 <= self.keys().index_of(k) < self.count() && self.keys()[self.keys().index_of(
                    k,
                )] == k,
    {
        lemma_keyed_len(self.keys(), self.values());
        assert forall|i: int| 0 <= i < self.count() implies self@.contains_key(#[trigger] self.keys()[i])
            && self@[self.keys()[i]] == self.values()[i] by {
            lemma_keyed_at(self.keys(), self.values(), i);
        }
    }

    /// An empty registry.
    pub fn new() -> (r: Self)
        ensures
            r.wf(),
            r@ == Map::<Seq<char>, T::V>::empty(),
            r.count() == 0,
    {
        let r = Registry { keys: Vec::new(), values: Vec::new() };
        assert(r@ =~= Map::<Seq<char>, T::V>::empty());
        r
    }

    /// The number of entries.
    pub fn len(&self) -> (r: usize)
        requires
            self.wf(),
        ensures
            r == self.count(),
            r == self@.len(),
    {
        proof {
            self.lemma_view();
        }
        self.keys.len()
    }

    /// The position of `key`, if the registry holds it.
    pub fn position(&self, key: &str) -> (r: Option<usize>)
        requires
            self.wf(),
        ensures
            match r {
                Some(i) => i < self.count() && self.keys()[i as int] == key@ && self@.contains_key(key@)
                    && self@[key@] == self.values()[i as int],
                None => !self@.contains_key(key@),
            },
    {
        let mut i: usize = 0;
        while i < self.keys.len()
            invariant
                self.wf(),
                i <= self.keys.len(),
                forall|j: int| 0 <= j < i ==> self.keys()[j] != key@,
            decreases self.keys.len() - i,
        {
            if same_text(self.keys[i].as_str(), key) {
                proof {
                    lemma_keyed_at(self.keys(), self.values(), i as int);
                }
                return Some(i);
            }
            i += 1;
        }
        assert(!self.keys().contains(key@));
        None
    }

    /// Whether the registry holds `key`.
    pub fn contains_key(&self, key: &str) -> (r: bool)
        requires
            self.wf(),
        ensures
            r == self@.contains_key(key@),
    {
        self.position(key).is_some()
    }

    /// The key at position `i`.
    pub fn key_at(&self, i: usize) -> (r: &String)
        requires
            self.wf(),
            i < self.count(),
        ensures
            r@ == self.keys()[i as int],
    {
        &self.keys[i]
    }

    /// The value at position `i`.
    pub fn value_at(&self, i: usize) -> (r: &T)
        requires
            self.wf(),
            i < self.count(),
        ensures
            r@ == self.values()[i as int],
            self@.contains_key(self.keys()[i as int]),
            self@[self.keys()[i as int]] == r@,
    {
        proof {
            lemma_keyed_at(self.keys(), self.values(), i as int);
        }
        &self.values[i]
    }

    /// The value of `key`, if the registry holds it.
    pub fn get(&self, key: &str) -> (r: Option<&T>)
        requires
            self.wf(),
        ensures
            match r {
                Some(v) => self@.contains_key(key@) && v@ == self@[key@],
                None => !self@.contains_key(key@),
            },
    {
        match self.position(key) {
            Some(i) => Some(&self.values[i]),
            None => None,
        }
    }

    /// The value at position `i`, to be changed in place.
    pub fn value_mut(&mut self, i: usize) -> (r: &mut T)
        requires
            old(self).wf(),
            i < old(self).count(),
        ensures
            r@ == old(self).values()[i as int],
            final(self).wf(),
            final(self).keys() == old(self).keys(),
            final(self).values() == old(self).values().update(i as int, final(r)@),
            final(self)@ == old(self)@.insert(old(self).keys()[i as int], final(r)@),
    {
        proof {
            let keys = self.keys();
            let values = self.values();
            assert forall|v: T::V| #[trigger]
                keyed(keys, values.update(i as int, v)) == keyed(keys, values).insert(keys[i as int], v) by {
                lemma_keyed_update(keys, values, i as int, v);
            }
            assert forall|t: T| #[trigger]
                list_view(self.values@.update(i as int, t)) == values.update(i as int, t@) by {
                assert(list_view(self.values@.update(i as int, t)) =~= values.update(i as int, t@));
            }
        }
        &mut self.values[i]
    }

    /// Puts `value` in the place of the value at position `i`, and hands the old one back.
    pub fn replace_at(&mut self, i: usize, value: T) -> (r: T)
        requires
            old(self).wf(),
            i < old(self).count(),
        ensures
            final(self).wf(),
            r@ == old(self).values()[i as int],
            final(self).keys() == old(self).keys(),
            final(self).values() == old(self).values().update(i as int, value@),
            final(self)@ == old(self)@.insert(old(self).keys()[i as int], value@),
    {
        proof {
            lemma_keyed_update(self.keys(), self.values(), i as int, value@);
        }
        let mut value = value;
        self.values.set_and_swap(i, &mut value);
        assert(self.values() =~= old(self).values().update(i as int, self.values@[i as int]@));
        value
    }

    /// Binds `key` to `value`. A value that `key` had before is handed back.
    pub fn insert(&mut self, key: String, value: T) -> (r: Option<T>)
        requires
            old(self).wf(),
        ensures
            final(self).wf(),
            final(self)@ == old(self)@.insert(key@, value@),
            match r {
                Some(v) => old(self)@.contains_key(key@) && v@ == old(self)@[key@] && final(self).keys() == old(
                    self,
                ).keys(),
                None => !old(self)@.contains_key(key@) && final(self).keys() == old(self).keys().push(key@)
                    && final(self).values() == old(self).values().push(value@),
            },
    {
        match self.position(key.as_str()) {
            Some(i) => Some(self.replace_at(i, value)),
            None => {
                proof {
                    lemma_keyed_push(self.keys(), self.values(), key@, value@);
                }
                self.keys.push(key);
                self.values.push(value);
                assert(self.keys() =~= old(self).keys().push(key@));
                assert(self.values() =~= old(self).values().push(value@));
                None
            },
        }
    }

    /// Removes the entry at position `i` and hands its value back.
    pub fn remove_at(&mut self, i: usize) -> (r: T)
        requires
            old(self).wf(),
            i < old(self).count(),
        ensures
            final(self).wf(),
            r@ == old(self).values()[i as int],
            final(self).keys() == old(self).keys().remove(i as int),
            final(self).values() == old(self).values().remove(i as int),
            final(self)@ == old(self)@.remove(old(self).keys()[i as int]),
    {
        proof {
            lemma_keyed_remove(self.keys(), self.values(), i as int);
        }
        self.keys.remove(i);
        let value = self.values.remove(i);
        assert(self.keys() =~= old(self).keys().remove(i as int));
        assert(self.values() =~= old(self).values().remove(i as int));
        value
    }

    /// Removes `key`. The value that it had is handed back.
    pub fn remove(&mut self, key: &str) -> (r: Option<T>)
        requires
            old(self).wf(),
        ensures
            final(self).wf(),
            final(self)@ == old(self)@.remove(key@),
            match r {
                Some(v) => old(self)@.contains_key(key@) && v@ == old(self)@[key@],
                None => !old(self)@.contains_key(key@) && final(self).keys() == old(self).keys()
                    && final(self).values() == old(self).values(),
            },
    {
        match self.position(key) {
            Some(i) => Some(self.remove_at(i)),
            None => {
                assert(self@ =~= old(self)@.remove(key@));
                None
            },
        }
    }
}

} // verus!
