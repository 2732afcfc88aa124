//! A table from numbers to values that remembers the order in which its
//! keys arrived, so that walking it is the same on every replica. The
//! values are kept in a hash map; the order of arrival is kept beside it,
//! since the order in which a hash map is walked is nobody's to tell.

use std::collections::HashMap;
use vstd::prelude::*;

verus! {

broadcast use vstd::std_specs::hash::group_hash_axioms;

/// Table from `u32` keys to values, walked in order of first insertion.
pub struct Tabla<V> {
    orden: Vec<u32>,
    valores: HashMap<u32, V>,
}

impl<V> View for Tabla<V> {
    type V = Map<u32, V>;

    closed spec fn view(&self) -> Map<u32, V> {
        self.valores@
    }
}

impl<V> Tabla<V> {
    /// The keys, oldest first.
    pub closed spec fn orden(&self) -> Seq<u32> {
        self.orden@
    }

    /// The order of arrival names every key of the table, once.
    pub closed spec fn wf(&self) -> bool {
        &&& self.orden@.no_duplicates()
        &&& forall|k: u32| self.valores@.contains_key(k) <==> self.orden@.contains(k)
    }

    /// What a well-formed table guarantees of its keys and their order.
    pub proof fn lemma_orden(&self)
        requires
            self.wf(),
        ensures
            self.orden().no_duplicates(),
            forall|k: u32| self@.contains_key(k) <==> self.orden().contains(k),
            self@.dom().finite(),
            self@.dom().len() == self.orden().len(),
    {
        assert(self@.dom() =~= self.orden@.to_set());
        self.orden@.unique_seq_to_set();
        vstd::seq_lib::seq_to_set_is_finite(self.orden@);
    }

    pub fn new() -> (r: Self)
        ensures
            r.wf(),
            r@ == Map::<u32, V>::empty(),
            r.orden() == Seq::<u32>::empty(),
    {
        Tabla { orden: Vec::new(), valores: HashMap::new() }
    }

    /// Number of keys.
    pub fn len(&self) -> (r: usize)
        requires
            self.wf(),
        ensures
            r == self.orden().len(),
    {
        self.orden.len()
    }

    pub fn contains_key(&self, k: u32) -> (r: bool)
        requires
            self.wf(),
        ensures
            r == self@.contains_key(k),
    {
        self.valores.contains_key(&k)
    }

    pub fn get(&self, k: u32) -> (r: Option<&V>)
        requires
            self.wf(),
        ensures
            r is Some <==> self@.contains_key(k),
            r is Some ==> *r->0 == self@[k],
    {
        self.valores.get(&k)
    }

    /// The key at position `i` of the order.
    pub fn key_at(&self, i: usize) -> (r: u32)
        requires
            self.wf(),
            i < self.orden().len(),
        ensures
            r == self.orden()[i as int],
            self@.contains_key(r),
    {
        assert(self.orden@.contains(self.orden@[i as int]));
        self.orden[i]
    }

    /// The value at position `i` of the order.
    pub fn value_at(&self, i: usize) -> (r: &V)
        requires
            self.wf(),
            i < self.orden().len(),
        ensures
            *r == self@[self.orden()[i as int]],
    {
        let k = self.key_at(i);
        self.valores.get(&k).unwrap()
    }

    /// Sets the value of `k`. A new key goes to the end of the order, a
    /// known one keeps its place.
    pub fn insert(&mut self, k: u32, v: V)
        requires
            old(self).wf(),
        ensures
            final(self).wf(),
            final(self)@ == old(self)@.insert(k, v),
            final(self).orden() == if old(self)@.contains_key(k) {
                old(self).orden()
            } else {
                old(self).orden().push(k)
            },
    {
        if !self.valores.contains_key(&k) {
            self.orden.push(k);
            assert(self.orden@.no_duplicates()) by {
                let n = old(self).orden@.len() as int;
                assert forall|a: int, b: int|
                    0 <= a < self.orden@.len() && 0 <= b < self.orden@.len() && a
                        != b implies self.orden@[a] != self.orden@[b] by {
                    if a < n && b < n {
                    } else if a < n {
                        assert(old(self).orden@.contains(self.orden@[a]));
                    } else {
                        assert(old(self).orden@.contains(self.orden@[b]));
                    }
                }
            }
        }
        self.valores.insert(k, v);
        assert forall|q: u32| self.valores@.contains_key(q) <==> self.orden@.contains(q) by {
            let n = old(self).orden@.len() as int;
            if self.orden@.contains(q) {
                let j = self.orden@.index_of(q);
                if j < n {
                    assert(old(self).orden@[j] == q);
                    assert(old(self).orden@.contains(q));
                }
            }
            if old(self).orden@.contains(q) {
                let j = old(self).orden@.index_of(q);
                assert(self.orden@[j] == q);
            }
            if q == k && !old(self).valores@.contains_key(k) {
                assert(self.orden@[n] == k);
            }
        }
    }
}

} // verus!
