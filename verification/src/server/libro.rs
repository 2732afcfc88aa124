//! The leader's book of transactions: a hash map from the id of a
//! transaction to what the leader knows of it, and beside it the ids in
//! the order in which they were filed. The map finds a transaction; the
//! order says which is older, which the walk of a hash map does not.

use crate::server::coordinador::{
    anotar, anotar_en, con_id, lemma_primero_unico, primero, Transaccion, TransactionCoordinator,
    TransactionState,
};
use std::collections::HashMap;
use vstd::prelude::*;

verus! {

broadcast use vstd::std_specs::hash::group_hash_axioms;

/// The transactions of a leader, oldest first.
pub struct Libro {
    orden: Vec<u32>,
    valores: HashMap<u32, TransactionCoordinator>,
}

impl View for Libro {
    type V = Seq<Transaccion>;

    closed spec fn view(&self) -> Seq<Transaccion> {
        Seq::new(self.orden@.len(), |i: int| self.valores@[self.orden@[i]]@)
    }
}

impl Libro {
    /// Every id is filed once, under itself.
    pub closed spec fn wf(&self) -> bool {
        &&& self.orden@.no_duplicates()
        &&& forall|k: u32| self.valores@.contains_key(k) <==> self.orden@.contains(k)
        &&& forall|k: u32| self.valores@.contains_key(k) ==> (#[trigger] self.valores@[k]).id == k
    }

    /// In a book no two transactions share an id.
    pub proof fn lemma_ids_unicos(&self)
        requires
            self.wf(),
        ensures
            forall|i: int, j: int|
                0 <= i < j < self@.len() ==> (#[trigger] self@[i]).id != (#[trigger] self@[j]).id,
    {
        assert forall|i: int, j: int| 0 <= i < j < self@.len() implies (#[trigger] self@[i]).id != (
        #[trigger] self@[j]).id by {
            self.lemma_lugar(i);
            self.lemma_lugar(j);
        }
    }

    proof fn lemma_lugar(&self, i: int)
        requires
            self.wf(),
            0 <= i < self.orden@.len(),
        ensures
            self.valores@.contains_key(self.orden@[i]),
            self@[i] == self.valores@[self.orden@[i]]@,
            self@[i].id == self.orden@[i],
    {
        assert(self.orden@.contains(self.orden@[i]));
    }

    /// An empty book.
    pub fn new() -> (r: Libro)
        ensures
            r.wf(),
            r@ == Seq::<Transaccion>::empty(),
    {
        let r = Libro { orden: Vec::new(), valores: HashMap::new() };
        assert(r@ =~= Seq::<Transaccion>::empty());
        r
    }

    /// Number of transactions.
    pub fn len(&self) -> (r: usize)
        ensures
            r == self@.len(),
    {
        self.orden.len()
    }

    /// The place of the transaction `id`, or the number of transactions
    /// if the book does not hold it.
    pub fn buscar(&self, id: u32) -> (r: usize)
        requires
            self.wf(),
        ensures
            r == primero(self@, con_id(id)),
            r <= self@.len(),
    {
        if !self.valores.contains_key(&id) {
            proof {
                assert forall|j: int| 0 <= j < self@.len() implies !con_id(id)(
                    #[trigger] self@[j],
                ) by {
                    self.lemma_lugar(j);
                }
                lemma_primero_unico(self@, con_id(id), self@.len() as int);
            }
            return self.orden.len();
        }
        let mut i: usize = 0;
        while i < self.orden.len()
            invariant
                self.wf(),
                i <= self.orden@.len(),
                forall|j: int| 0 <= j < i ==> !con_id(id)(#[trigger] self@[j]),
            decreases self.orden@.len() - i,
        {
            proof {
                self.lemma_lugar(i as int);
            }
            if self.orden[i] == id {
                proof {
                    lemma_primero_unico(self@, con_id(id), i as int);
                }
                return i;
            }
            i = i + 1;
        }
        proof {
            lemma_primero_unico(self@, con_id(id), i as int);
        }
        i
    }

    /// The transaction at the place `i`.
    pub fn get(&self, i: usize) -> (r: &TransactionCoordinator)
        requires
            self.wf(),
            i < self@.len(),
        ensures
            r@ == self@[i as int],
    {
        proof {
            self.lemma_lugar(i as int);
        }
        let k = self.orden[i];
        self.valores.get(&k).unwrap()
    }

    /// Files a transaction that the book does not hold yet, as the
    /// youngest.
    pub fn push(&mut self, t: TransactionCoordinator)
        requires
            old(self).wf(),
            primero(old(self)@, con_id(t.id)) == old(self)@.len(),
        ensures
            final(self).wf(),
            final(self)@ == old(self)@.push(t@),
    {
        let k = t.id;
        let ghost n = self.orden@.len() as int;
        proof {
            crate::server::coordinador::lemma_primero(old(self)@, con_id(k));
            assert forall|j: int| 0 <= j < n implies old(self).orden@[j] != k by {
                old(self).lemma_lugar(j);
                assert(!con_id(k)(old(self)@[j]));
            }
        }
        self.orden.push(k);
        self.valores.insert(k, t);
        proof {
            assert(self.orden@.no_duplicates());
            assert forall|q: u32| self.valores@.contains_key(q) <==> self.orden@.contains(q) by {
                if self.orden@.contains(q) {
                    let j = choose|j: int| 0 <= j < self.orden@.len() && self.orden@[j] == q;
                    if j < n {
                        assert(old(self).orden@[j] == q);
                        assert(old(self).orden@.contains(q));
                    }
                }
                if old(self).orden@.contains(q) {
                    let j = choose|j: int| 0 <= j < n && old(self).orden@[j] == q;
                    assert(self.orden@[j] == q);
                }
                if q == k {
                    assert(self.orden@[n] == k);
                }
            }
            assert forall|j: int| 0 <= j < n + 1 implies #[trigger] self@[j] == old(self)@.push(
                t@,
            )[j] by {
                if j < n {
                    old(self).lemma_lugar(j);
                }
            }
            assert(self@ =~= old(self)@.push(t@));
        }
    }

    /// Takes the transaction at the place `i` out of the map, to be put
    /// back changed.
    fn sacar(&mut self, i: usize) -> (r: TransactionCoordinator)
        requires
            old(self).wf(),
            i < old(self)@.len(),
        ensures
            r@ == old(self)@[i as int],
            r.id == old(self).orden@[i as int],
            final(self).orden@ == old(self).orden@,
            final(self).valores@ == old(self).valores@.remove(r.id),
    {
        proof {
            self.lemma_lugar(i as int);
        }
        let k = self.orden[i];
        self.valores.remove(&k).unwrap()
    }

    /// Puts back, changed, the transaction that `sacar` took from the place
    /// `i`.
    fn reponer(&mut self, Ghost(antes): Ghost<Libro>, i: usize, t: TransactionCoordinator)
        requires
            antes.wf(),
            i < antes@.len(),
            t.id == antes.orden@[i as int],
            old(self).orden@ == antes.orden@,
            old(self).valores@ == antes.valores@.remove(t.id),
        ensures
            final(self).wf(),
            final(self)@ == antes@.update(i as int, t@),
    {
        let k = t.id;
        self.valores.insert(k, t);
        proof {
            assert(antes.orden@.contains(k));
            assert forall|q: u32| self.valores@.contains_key(q) <==> self.orden@.contains(q) by {}
            assert forall|j: int| 0 <= j < antes@.len() implies #[trigger] self@[j] == antes@.update(
                i as int,
                t@,
            )[j] by {
                antes.lemma_lugar(j);
            }
            assert(self@ =~= antes@.update(i as int, t@));
        }
    }

    /// Sets the state of the transaction at the place `i`.
    pub fn set_status(&mut self, i: usize, status: TransactionState)
        requires
            old(self).wf(),
            i < old(self)@.len(),
        ensures
            final(self).wf(),
            final(self)@ == old(self)@.update(
                i as int,
                Transaccion { status, ..old(self)@[i as int] },
            ),
    {
        let ghost antes = *self;
        let mut t = self.sacar(i);
        t.status = status;
        self.reponer(Ghost(antes), i, t);
    }

    /// Forgets the acknowledgements of the transaction at the place `i`.
    pub fn vaciar_ok(&mut self, i: usize)
        requires
            old(self).wf(),
            i < old(self)@.len(),
        ensures
            final(self).wf(),
            final(self)@ == old(self)@.update(
                i as int,
                Transaccion { ok_nodos: Seq::empty(), ..old(self)@[i as int] },
            ),
    {
        let ghost antes = *self;
        let mut t = self.sacar(i);
        t.ok_nodos = Vec::new();
        self.reponer(Ghost(antes), i, t);
    }

    /// Notes the vote of the follower `n` for the transaction at the place
    /// `i`.
    pub fn anotar_yes(&mut self, i: usize, n: u8)
        requires
            old(self).wf(),
            i < old(self)@.len(),
        ensures
            final(self).wf(),
            final(self)@ == old(self)@.update(
                i as int,
                Transaccion {
                    yes_nodos: anotar(old(self)@[i as int].yes_nodos, n),
                    ..old(self)@[i as int]
                },
            ),
    {
        let ghost antes = *self;
        let mut t = self.sacar(i);
        anotar_en(&mut t.yes_nodos, n);
        self.reponer(Ghost(antes), i, t);
    }

    /// Notes the acknowledgement of the follower `n` for the transaction
    /// at the place `i`.
    pub fn anotar_ok(&mut self, i: usize, n: u8)
        requires
            old(self).wf(),
            i < old(self)@.len(),
        ensures
            final(self).wf(),
            final(self)@ == old(self)@.update(
                i as int,
                Transaccion {
                    ok_nodos: anotar(old(self)@[i as int].ok_nodos, n),
                    ..old(self)@[i as int]
                },
            ),
    {
        let ghost antes = *self;
        let mut t = self.sacar(i);
        anotar_en(&mut t.ok_nodos, n);
        self.reponer(Ghost(antes), i, t);
    }
}

} // verus!
