//! The queues in which deductions wait for their account: a hash map from
//! the account to the ids that wait for it, oldest first. What the map
//! holds is told by the list of all entries in their order of arrival,
//! from which the queue of each account is read.

use crate::server::coordinador::{
    cola_de, de_cuenta, de_transaccion, lemma_primero, primero, quitar, EnCola,
};
use std::collections::HashMap;
use vstd::prelude::*;

verus! {

broadcast use vstd::std_specs::hash::group_hash_axioms;

/// The queue of an account in two lists, one after the other, is its queue
/// in the first followed by its queue in the second.
pub proof fn lemma_cola_de_suma(x: Seq<EnCola>, y: Seq<EnCola>, a: u32)
    ensures
        cola_de(x + y, a) == cola_de(x, a) + cola_de(y, a),
    decreases y.len(),
{
    if y.len() == 0 {
        assert(x + y =~= x);
        assert(cola_de(x, a) + cola_de(y, a) =~= cola_de(x, a));
    } else {
        assert((x + y).drop_last() =~= x + y.drop_last());
        assert((x + y).last() == y.last());
        lemma_cola_de_suma(x, y.drop_last(), a);
        assert(cola_de(x + y, a) =~= cola_de(x, a) + cola_de(y, a));
    }
}

/// Every id in the queue of an account comes from an entry for that
/// account.
pub proof fn lemma_cola_de_origen(x: Seq<EnCola>, a: u32, j: int)
    requires
        0 <= j < cola_de(x, a).len(),
    ensures
        exists|k: int|
            0 <= k < x.len() && (#[trigger] x[k]).id_cuenta == a && x[k].id_transaccion == cola_de(
                x,
                a,
            )[j],
    decreases x.len(),
{
    if x.len() > 0 {
        let r = x.drop_last();
        if x.last().id_cuenta == a && j == cola_de(r, a).len() {
            let k = x.len() - 1;
            assert(x[k].id_cuenta == a && x[k].id_transaccion == cola_de(x, a)[j]);
        } else {
            lemma_cola_de_origen(r, a, j);
            let k = choose|k: int|
                0 <= k < r.len() && (#[trigger] r[k]).id_cuenta == a && r[k].id_transaccion
                    == cola_de(r, a)[j];
            assert(x[k] == r[k]);
            assert(x[k].id_cuenta == a && x[k].id_transaccion == cola_de(x, a)[j]);
        }
    }
}

/// A list without entries for an account has an empty queue for it.
pub proof fn lemma_cola_de_vacia(x: Seq<EnCola>, a: u32)
    requires
        forall|k: int| 0 <= k < x.len() ==> (#[trigger] x[k]).id_cuenta != a,
    ensures
        cola_de(x, a).len() == 0,
{
    if cola_de(x, a).len() > 0 {
        lemma_cola_de_origen(x, a, 0);
    }
}

/// Around the entry at the place `k`, the queue of an account is its queue
/// before `k`, the entry itself if it is for the account, and its queue
/// after `k`.
pub proof fn lemma_cola_de_en(x: Seq<EnCola>, k: int, a: u32)
    requires
        0 <= k < x.len(),
    ensures
        cola_de(x, a) == cola_de(x.take(k), a) + (if x[k].id_cuenta == a {
            seq![x[k].id_transaccion]
        } else {
            Seq::<u32>::empty()
        }) + cola_de(x.skip(k + 1), a),
        cola_de(x.remove(k), a) == cola_de(x.take(k), a) + cola_de(x.skip(k + 1), a),
{
    let u = seq![x[k]];
    assert(u.drop_last() =~= Seq::<EnCola>::empty());
    assert(cola_de(u.drop_last(), a) =~= Seq::<u32>::empty());
    assert(cola_de(u, a) =~= if x[k].id_cuenta == a {
        seq![x[k].id_transaccion]
    } else {
        Seq::<u32>::empty()
    });
    assert(x =~= x.take(k) + u + x.skip(k + 1));
    lemma_cola_de_suma(x.take(k) + u, x.skip(k + 1), a);
    lemma_cola_de_suma(x.take(k), u, a);
    assert(x.remove(k) =~= x.take(k) + x.skip(k + 1));
    lemma_cola_de_suma(x.take(k), x.skip(k + 1), a);
}

/// The place of the first `id` in `v`, or the length of `v`.
fn lugar(v: &Vec<u32>, id: u32) -> (r: usize)
    ensures
        r <= v@.len(),
        forall|j: int| 0 <= j < r ==> v@[j] != id,
        r < v@.len() ==> v@[r as int] == id,
{
    let mut i: usize = 0;
    while i < v.len()
        invariant
            i <= v@.len(),
            forall|j: int| 0 <= j < i ==> v@[j] != id,
        decreases v@.len() - i,
    {
        if v[i] == id {
            return i;
        }
        i = i + 1;
    }
    i
}

/// The queues of the accounts.
pub struct Colas {
    mapa: HashMap<u32, Vec<u32>>,
    plana: Ghost<Seq<EnCola>>,
}

impl View for Colas {
    type V = Seq<EnCola>;

    closed spec fn view(&self) -> Seq<EnCola> {
        self.plana@
    }
}

impl Colas {
    /// What the map holds for the account `a`.
    pub closed spec fn de(&self, a: u32) -> Seq<u32> {
        if self.mapa@.contains_key(a) {
            self.mapa@[a]@
        } else {
            Seq::empty()
        }
    }

    /// The map holds, for each account, the queue of that account.
    pub closed spec fn wf(&self) -> bool {
        forall|a: u32| #[trigger] self.de(a) == cola_de(self.plana@, a)
    }

    /// No queues.
    pub fn new() -> (r: Colas)
        ensures
            r.wf(),
            r@ == Seq::<EnCola>::empty(),
    {
        Colas { mapa: HashMap::new(), plana: Ghost(Seq::empty()) }
    }

    /// Number of deductions in the queue of the account `a`.
    pub fn largo(&self, a: u32) -> (r: usize)
        requires
            self.wf(),
        ensures
            r == cola_de(self@, a).len(),
    {
        assert(self.de(a) == cola_de(self.plana@, a));
        match self.mapa.get(&a) {
            Some(v) => v.len(),
            None => 0,
        }
    }

    /// The oldest deduction in the queue of the account `a`, if any.
    pub fn cabeza(&self, a: u32) -> (r: Option<u32>)
        requires
            self.wf(),
        ensures
            match r {
                Some(id) => primero(self@, de_cuenta(a)) < self@.len() && self@[primero(
                    self@,
                    de_cuenta(a),
                )].id_transaccion == id,
                None => primero(self@, de_cuenta(a)) >= self@.len(),
            },
    {
        proof {
            let x = self.plana@;
            let c = primero(x, de_cuenta(a));
            lemma_primero(x, de_cuenta(a));
            assert(self.de(a) == cola_de(x, a));
            if c < x.len() {
                lemma_cola_de_en(x, c, a);
                assert forall|k: int| 0 <= k < x.take(c).len() implies (#[trigger] x.take(
                    c,
                )[k]).id_cuenta != a by {
                    assert(!de_cuenta(a)(x[k]));
                }
                lemma_cola_de_vacia(x.take(c), a);
                assert(de_cuenta(a)(x[c]));
                assert(cola_de(x, a)[0] == x[c].id_transaccion);
            } else {
                assert forall|k: int| 0 <= k < x.len() implies (#[trigger] x[k]).id_cuenta != a by {
                    assert(!de_cuenta(a)(x[k]));
                }
                lemma_cola_de_vacia(x, a);
            }
        }
        match self.mapa.get(&a) {
            Some(v) => {
                if v.len() > 0 {
                    Some(v[0])
                } else {
                    None
                }
            },
            None => None,
        }
    }

    /// Puts the deduction `id` at the end of the queue of the account `a`.
    pub fn push(&mut self, a: u32, id: u32)
        requires
            old(self).wf(),
        ensures
            final(self).wf(),
            final(self)@ == old(self)@.push(EnCola { id_cuenta: a, id_transaccion: id }),
    {
        let ghost x = self.plana@;
        let ghost e = EnCola { id_cuenta: a, id_transaccion: id };
        assert(old(self).de(a) == cola_de(x, a));
        let mut v = match self.mapa.remove(&a) {
            Some(v) => v,
            None => Vec::new(),
        };
        v.push(id);
        self.mapa.insert(a, v);
        self.plana = Ghost(x.push(e));
        proof {
            assert(x.push(e).drop_last() =~= x);
            assert(x.push(e).last() == e);
            assert forall|b: u32| #[trigger] self.de(b) == cola_de(self.plana@, b) by {
                assert(old(self).de(b) == cola_de(x, b));
                if b == a {
                    assert(self.de(b) =~= cola_de(x, a).push(id));
                } else {
                    assert(self.de(b) =~= old(self).de(b));
                }
            }
        }
    }

    /// Takes the deduction `id` out of the queue of its account `a`.
    pub fn quitar(&mut self, a: u32, id: u32)
        requires
            old(self).wf(),
            forall|k: int|
                0 <= k < old(self)@.len() && (#[trigger] old(self)@[k]).id_transaccion == id
                    ==> old(self)@[k].id_cuenta == a,
        ensures
            final(self).wf(),
            final(self)@ == quitar(old(self)@, id),
    {
        let ghost x = self.plana@;
        let ghost i = primero(x, de_transaccion(id));
        proof {
            lemma_primero(x, de_transaccion(id));
            assert(old(self).de(a) == cola_de(x, a));
            if i < x.len() {
                assert(de_transaccion(id)(x[i]));
                assert(old(self)@[i].id_transaccion == id);
                assert(x[i].id_cuenta == a);
                lemma_cola_de_en(x, i, a);
            }
        }
        match self.mapa.remove(&a) {
            None => {
                proof {
                    assert forall|b: u32| #[trigger] self.de(b) == cola_de(self.plana@, b) by {
                        assert(old(self).de(b) == cola_de(x, b));
                    }
                }
            },
            Some(v0) => {
                let mut v = v0;
                let pos = lugar(&v, id);
                if pos < v.len() {
                    proof {
                        lemma_cola_de_origen(x, a, pos as int);
                        let k = choose|k: int|
                            0 <= k < x.len() && (#[trigger] x[k]).id_cuenta == a
                                && x[k].id_transaccion == cola_de(x, a)[pos as int];
                        assert(de_transaccion(id)(x[k]));
                        assert(i < x.len());
                        let antes = cola_de(x.take(i), a);
                        if pos < antes.len() {
                            lemma_cola_de_origen(x.take(i), a, pos as int);
                            let q = choose|q: int|
                                0 <= q < x.take(i).len() && (#[trigger] x.take(i)[q]).id_cuenta == a
                                    && x.take(i)[q].id_transaccion == antes[pos as int];
                            assert(x.take(i)[q] == x[q]);
                            assert(de_transaccion(id)(x[q]));
                        }
                        assert(cola_de(x, a)[antes.len() as int] == id);
                        assert(pos == antes.len());
                    }
                    v.remove(pos);
                    self.plana = Ghost(x.remove(i));
                    proof {
                        assert(v@ =~= cola_de(x.take(i), a) + cola_de(x.skip(i + 1), a));
                    }
                } else {
                    proof {
                        if i < x.len() {
                            let antes = cola_de(x.take(i), a);
                            assert(cola_de(x, a)[antes.len() as int] == id);
                        }
                    }
                }
                self.mapa.insert(a, v);
                proof {
                    assert forall|b: u32| #[trigger] self.de(b) == cola_de(self.plana@, b) by {
                        assert(old(self).de(b) == cola_de(x, b));
                        if b != a && i < x.len() {
                            lemma_cola_de_en(x, i, b);
                            assert(cola_de(x.remove(i), b) =~= cola_de(x, b));
                        }
                    }
                }
            },
        }
    }
}

} // verus!
