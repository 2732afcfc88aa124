//! Orders, and the two queues that carry them through the shop.

use crate::enums::{IngredientStateOfOrder, IngredientType, OrderState};
use crate::error_dispenser::ErrorCafeteria;
use crate::por_ingrediente::PorIngrediente;
use std::collections::VecDeque;
use vstd::prelude::*;

verus! {

/// An order: for each ingredient it asks for, the amount and whether it
/// was applied.
#[derive(Debug, Clone, Copy)]
pub struct Order {
    pub id: i64,
    /// The ingredients of the order. One that is not asked for has no
    /// entry.
    pub ingredientes: PorIngrediente<IngredientStateOfOrder>,
    pub status: OrderState,
}

/// The entry of an ingredient asked for in the amount `cantidad`: none for
/// an amount of zero.
pub open spec fn pedido_de(cantidad: u64) -> Option<IngredientStateOfOrder> {
    if cantidad > 0 {
        Some(IngredientStateOfOrder::NotApplied(cantidad))
    } else {
        None
    }
}

/// True for an entry that is still to be applied.
pub open spec fn sin_aplicar(e: Option<IngredientStateOfOrder>) -> bool {
    e matches Some(IngredientStateOfOrder::NotApplied(_))
}

/// True for an entry that cannot be applied.
pub open spec fn sin_recurso(e: Option<IngredientStateOfOrder>) -> bool {
    e == Some(IngredientStateOfOrder::NoEnoughResourceContainer)
}

/// What an entry still asks for: the amount of one that is to be applied,
/// zero for any other and for none.
pub open spec fn falta_de(e: Option<IngredientStateOfOrder>) -> u64 {
    match e {
        Some(IngredientStateOfOrder::NotApplied(v)) => v,
        _ => 0,
    }
}

/// What was applied of an entry.
pub open spec fn aplicado_de(e: Option<IngredientStateOfOrder>) -> u64 {
    match e {
        Some(IngredientStateOfOrder::Applied(v)) => v,
        _ => 0,
    }
}

impl Order {
    /// The entry of the ingredient `tipo`.
    pub open spec fn entrada(&self, tipo: IngredientType) -> Option<IngredientStateOfOrder> {
        self.ingredientes.casilla(tipo)
    }

    /// What the order still asks of the ingredient `tipo`.
    pub open spec fn falta(&self, tipo: IngredientType) -> u64 {
        falta_de(self.entrada(tipo))
    }

    /// The order as `new_with_id` builds it.
    pub open spec fn spec_new(id: i64, cm: u64, lc: u64, c: u64, ac: u64) -> Order {
        Order {
            id,
            ingredientes: PorIngrediente {
                agua: pedido_de(ac),
                cafe_molido: pedido_de(cm),
                espuma_leche: pedido_de(lc),
                cacao: pedido_de(c),
                leche_fria: None,
                granos_cafe: None,
            },
            status: OrderState::InProgress,
        }
    }

    /// What `get` returns.
    pub open spec fn spec_get(&self, tipo: IngredientType) -> Option<u64> {
        match self.entrada(tipo) {
            Some(IngredientStateOfOrder::Applied(_)) => Some(0),
            Some(IngredientStateOfOrder::NotApplied(v)) => Some(v),
            Some(IngredientStateOfOrder::NoEnoughResourceContainer) => None,
            None => None,
        }
    }

    /// True when some ingredient of the order cannot be applied.
    pub open spec fn algo_sin_recurso(&self) -> bool {
        sin_recurso(self.ingredientes.agua) || sin_recurso(self.ingredientes.cafe_molido)
            || sin_recurso(self.ingredientes.espuma_leche) || sin_recurso(self.ingredientes.cacao)
            || sin_recurso(self.ingredientes.leche_fria) || sin_recurso(
            self.ingredientes.granos_cafe,
        )
    }

    /// True when some ingredient of the order is still to be applied.
    pub open spec fn algo_sin_aplicar(&self) -> bool {
        sin_aplicar(self.ingredientes.agua) || sin_aplicar(self.ingredientes.cafe_molido)
            || sin_aplicar(self.ingredientes.espuma_leche) || sin_aplicar(self.ingredientes.cacao)
            || sin_aplicar(self.ingredientes.leche_fria) || sin_aplicar(
            self.ingredientes.granos_cafe,
        )
    }

    /// Where the order stands by its ingredients: it lacks a resource if
    /// any ingredient does, else it is in progress if any ingredient is to
    /// be applied, else it is completed.
    pub open spec fn estado_actual(&self) -> OrderState {
        if self.algo_sin_recurso() {
            OrderState::NoEnoughResourceContainer
        } else if self.algo_sin_aplicar() {
            OrderState::InProgress
        } else {
            OrderState::Completed
        }
    }

    /// The order after its ingredient `tipo` was applied: an entry that was
    /// to be applied is applied in its amount; any other is as it was.
    pub open spec fn aplicada(self, tipo: IngredientType) -> Order {
        match self.entrada(tipo) {
            Some(IngredientStateOfOrder::NotApplied(v)) => Order {
                ingredientes: self.ingredientes.con(tipo, IngredientStateOfOrder::Applied(v)),
                ..self
            },
            _ => self,
        }
    }

    /// The order after its ingredient `tipo` was found impossible to apply.
    pub open spec fn negada(self, tipo: IngredientType) -> Order {
        Order {
            ingredientes: self.ingredientes.con(
                tipo,
                IngredientStateOfOrder::NoEnoughResourceContainer,
            ),
            ..self
        }
    }

    /// An order for the amounts given, of ground coffee, milk foam, cocoa
    /// and hot water in this order, with the id zero: the first order of a
    /// `Numerador`, which numbers the ones that follow.
    pub fn new(cm: u64, lc: u64, c: u64, ac: u64) -> (r: Order)
        ensures
            r == Self::spec_new(0, cm, lc, c, ac),
    {
        Self::new_with_id(0, cm, lc, c, ac)
    }

    /// An order with the id `id`, if it fits, else the largest id.
    pub fn new_with_id(id: usize, cm: u64, lc: u64, c: u64, ac: u64) -> (r: Order)
        ensures
            r == Self::spec_new(
                if id <= i64::MAX {
                    id as i64
                } else {
                    i64::MAX
                },
                cm,
                lc,
                c,
                ac,
            ),
    {
        Order {
            id: if id as u64 <= 0x7fff_ffff_ffff_ffffu64 {
                id as i64
            } else {
                i64::MAX
            },
            ingredientes: PorIngrediente {
                agua: Self::pedir(ac),
                cafe_molido: Self::pedir(cm),
                espuma_leche: Self::pedir(lc),
                cacao: Self::pedir(c),
                leche_fria: None,
                granos_cafe: None,
            },
            status: OrderState::InProgress,
        }
    }

    fn pedir(cantidad: u64) -> (r: Option<IngredientStateOfOrder>)
        ensures
            r == pedido_de(cantidad),
    {
        if cantidad > 0 {
            Some(IngredientStateOfOrder::NotApplied(cantidad))
        } else {
            None
        }
    }

    /// True when the order still asks for the ingredient `tipo`, and for no
    /// more than `quantity_available`.
    pub fn can_satisfy(&self, tipo: &IngredientType, quantity_available: u64) -> (r: bool)
        ensures
            r == (0 < self.falta(*tipo) <= quantity_available),
    {
        let value_requiered_order = match self.get(tipo) {
            Some(v) => v,
            None => 0,
        };
        0 < value_requiered_order && value_requiered_order <= quantity_available
    }

    /// What the order still asks of the ingredient `tipo`: zero once it was
    /// applied, nothing if it is not asked for or cannot be applied.
    pub fn get(&self, tipo: &IngredientType) -> (r: Option<u64>)
        ensures
            r == self.spec_get(*tipo),
            (match r {
                Some(v) => v,
                None => 0,
            }) == self.falta(*tipo),
    {
        match self.ingredientes.get(*tipo) {
            Some(IngredientStateOfOrder::Applied(_)) => Some(0),
            Some(IngredientStateOfOrder::NotApplied(v)) => Some(v),
            Some(IngredientStateOfOrder::NoEnoughResourceContainer) => None,
            None => None,
        }
    }

    /// Applies the ingredient `tipo` in full and returns the amount
    /// applied: zero if nothing was to be applied.
    pub fn apply(&mut self, tipo: IngredientType) -> (r: u64)
        ensures
            *final(self) == old(self).aplicada(tipo),
            r == old(self).falta(tipo),
    {
        match self.ingredientes.get(tipo) {
            Some(IngredientStateOfOrder::NotApplied(v)) => {
                self.ingredientes.insert(tipo, IngredientStateOfOrder::Applied(v));
                v
            },
            _ => 0,
        }
    }

    /// Marks the ingredient `tipo` as impossible to apply.
    pub fn set_no_enough_resource_container(&mut self, tipo: IngredientType)
        ensures
            *final(self) == old(self).negada(tipo),
    {
        self.ingredientes.insert(tipo, IngredientStateOfOrder::NoEnoughResourceContainer);
    }

    /// True when the order still asks for the ingredient `tipo`.
    pub fn requiere(&self, tipo: &IngredientType) -> (r: bool)
        ensures
            r == (self.falta(*tipo) > 0),
    {
        match self.get(tipo) {
            Some(v) => v > 0,
            None => false,
        }
    }

    /// True when the order still asks for more of the ingredient `tipo`
    /// than `quantity_available_conteiner`.
    pub fn gt(&self, tipo: &IngredientType, quantity_available_conteiner: u64) -> (r: bool)
        ensures
            r == (self.falta(*tipo) > quantity_available_conteiner),
    {
        match self.get(tipo) {
            Some(v) => v > quantity_available_conteiner,
            None => false,
        }
    }

    /// Brings the state of the order up to date with its ingredients and
    /// returns it.
    pub fn get_updated_status(&mut self) -> (r: OrderState)
        ensures
            r == old(self).estado_actual(),
            *final(self) == (Order { status: r, ..*old(self) }),
    {
        let i = &self.ingredientes;
        let new_status = if Self::es_sin_recurso(i.agua) || Self::es_sin_recurso(i.cafe_molido)
            || Self::es_sin_recurso(i.espuma_leche) || Self::es_sin_recurso(i.cacao)
            || Self::es_sin_recurso(i.leche_fria) || Self::es_sin_recurso(i.granos_cafe) {
            OrderState::NoEnoughResourceContainer
        } else if Self::es_sin_aplicar(i.agua) || Self::es_sin_aplicar(i.cafe_molido)
            || Self::es_sin_aplicar(i.espuma_leche) || Self::es_sin_aplicar(i.cacao)
            || Self::es_sin_aplicar(i.leche_fria) || Self::es_sin_aplicar(i.granos_cafe) {
            OrderState::InProgress
        } else {
            OrderState::Completed
        };
        self.status = new_status;
        new_status
    }

    fn es_sin_recurso(e: Option<IngredientStateOfOrder>) -> (r: bool)
        ensures
            r == sin_recurso(e),
    {
        match e {
            Some(IngredientStateOfOrder::NoEnoughResourceContainer) => true,
            _ => false,
        }
    }

    fn es_sin_aplicar(e: Option<IngredientStateOfOrder>) -> (r: bool)
        ensures
            r == sin_aplicar(e),
    {
        match e {
            Some(IngredientStateOfOrder::NotApplied(_)) => true,
            _ => false,
        }
    }
}

/// Numbers orders as they are asked for: the first gets zero, each one
/// after it the number that follows. After the largest number the count
/// goes on from the smallest.
#[derive(Debug)]
pub struct Numerador {
    siguiente: i64,
}

impl Numerador {
    /// The number that the next order gets.
    pub closed spec fn siguiente(&self) -> i64 {
        self.siguiente
    }

    /// The number after `id`.
    pub open spec fn tras(id: i64) -> i64 {
        if id == i64::MAX {
            i64::MIN
        } else {
            (id + 1) as i64
        }
    }

    pub fn new() -> (r: Numerador)
        ensures
            r.siguiente() == 0,
    {
        Numerador { siguiente: 0 }
    }

    /// An order for the amounts given, of ground coffee, milk foam, cocoa
    /// and hot water in this order, under the next number.
    pub fn order(&mut self, cm: u64, lc: u64, c: u64, ac: u64) -> (r: Order)
        ensures
            r == Order::spec_new(old(self).siguiente(), cm, lc, c, ac),
            final(self).siguiente() == Self::tras(old(self).siguiente()),
    {
        let id: i64 = self.siguiente;
        self.siguiente = if id == i64::MAX {
            i64::MIN
        } else {
            id + 1
        };
        let mut o = Order::new_with_id(0, cm, lc, c, ac);
        o.id = id;
        o
    }
}

/// What a step that may have to wait comes to.
#[derive(Debug, Clone, Copy)]
pub enum Turno<T> {
    /// Nothing was done: wait for the next change and try again.
    Esperar,
    /// The step was made.
    Listo(T),
}

/// The orders on their way to the dispensers, oldest first. Once every
/// order is taken the queue is closed, which tells the dispensers to stop.
#[derive(Debug)]
pub struct PendingOrders {
    cola: Option<VecDeque<Order>>,
}

impl View for PendingOrders {
    type V = Option<Seq<Order>>;

    closed spec fn view(&self) -> Option<Seq<Order>> {
        match self.cola {
            Some(v) => Some(v@),
            None => None,
        }
    }
}

/// How many of `n` orders go into an open queue that holds `hay`, for
/// `n_dispensers` dispensers: as many as keep it at no more than the
/// number of dispensers.
pub open spec fn caben(hay: nat, n: nat, n_dispensers: nat) -> nat {
    if hay >= n_dispensers {
        0
    } else if n <= n_dispensers - hay {
        n
    } else {
        (n_dispensers - hay) as nat
    }
}

impl PendingOrders {
    /// An open, empty queue.
    pub fn new() -> (r: PendingOrders)
        ensures
            r@ == Some(Seq::<Order>::empty()),
    {
        PendingOrders { cola: Some(VecDeque::new()) }
    }

    /// Number of orders in the queue; zero when it is closed.
    pub fn len(&self) -> (r: usize)
        ensures
            r == match self@ {
                Some(s) => s.len(),
                None => 0,
            },
    {
        match &self.cola {
            Some(v) => v.len(),
            None => 0,
        }
    }

    /// True when the queue is closed.
    pub fn cerrada(&self) -> (r: bool)
        ensures
            r == (self@ is None),
    {
        self.cola.is_none()
    }
}

/// Moves orders from `orders_to_process`, starting at `desde`, into the
/// queue, oldest first, for as long as the queue holds fewer orders than
/// there are dispensers. Returns the place of the first order left behind:
/// while it is short of the number of orders, wait for a dispenser to take
/// one and call again. A closed queue takes nothing and is an error.
pub fn insert_orders(
    orders_to_process: &Vec<Order>,
    desde: usize,
    cola: &mut PendingOrders,
    n_dispensers: usize,
) -> (r: Result<usize, ErrorCafeteria>)
    requires
        desde <= orders_to_process@.len(),
    ensures
        r is Err <==> old(cola)@ is None,
        r is Err ==> final(cola)@ == old(cola)@,
        r is Ok ==> {
            let hay = old(cola)@->0;
            let n = caben(
                hay.len(),
                (orders_to_process@.len() - desde) as nat,
                n_dispensers as nat,
            );
            &&& r->Ok_0 == desde + n
            &&& final(cola)@ == Some(hay + orders_to_process@.subrange(desde as int, desde + n))
        },
{
    if cola.cola.is_none() {
        return Err(ErrorCafeteria::new("VeqDeque has a None when it shouldn't occur"));
    }
    let mut v = cola.cola.take().unwrap();
    let ghost hay = v@;
    let ghost meta = caben(
        hay.len(),
        (orders_to_process@.len() - desde) as nat,
        n_dispensers as nat,
    );
    let mut i: usize = desde;
    assert(v@ =~= hay + orders_to_process@.subrange(desde as int, desde as int));
    while i < orders_to_process.len() && v.len() < n_dispensers
        invariant
            desde <= i <= orders_to_process@.len(),
            i - desde <= meta,
            v@.len() == hay.len() + (i - desde),
            meta == caben(
                hay.len(),
                (orders_to_process@.len() - desde) as nat,
                n_dispensers as nat,
            ),
            v@ == hay + orders_to_process@.subrange(desde as int, i as int),
        decreases orders_to_process@.len() - i,
    {
        v.push_back(orders_to_process[i]);
        assert(v@ =~= hay + orders_to_process@.subrange(desde as int, i as int + 1));
        i = i + 1;
    }
    cola.cola = Some(v);
    Ok(i)
}

/// The orders that are over, oldest first, on their way to the reporter.
#[derive(Debug)]
pub struct FinishedOrders {
    cola: VecDeque<Order>,
}

impl View for FinishedOrders {
    type V = Seq<Order>;

    closed spec fn view(&self) -> Seq<Order> {
        self.cola@
    }
}

impl FinishedOrders {
    /// An empty queue.
    pub fn new() -> (r: FinishedOrders)
        ensures
            r@ == Seq::<Order>::empty(),
    {
        FinishedOrders { cola: VecDeque::new() }
    }

    pub fn len(&self) -> (r: usize)
        ensures
            r == self@.len(),
    {
        self.cola.len()
    }

    /// Puts an order at the end of the queue.
    pub fn push(&mut self, order: Order)
        ensures
            final(self)@ == old(self)@.push(order),
    {
        self.cola.push_back(order);
    }

    /// Takes the oldest order, if there is one.
    pub fn pop(&mut self) -> (r: Option<Order>)
        ensures
            old(self)@.len() == 0 ==> r is None && final(self)@ == old(self)@,
            old(self)@.len() > 0 ==> r == Some(old(self)@[0]) && final(self)@ == old(
                self,
            )@.drop_first(),
    {
        let o = self.cola.pop_front();
        assert(o is Some ==> self.cola@ =~= old(self)@.drop_first());
        o
    }
}

impl PendingOrders {
    /// Takes the oldest order of an open queue, if there is one.
    pub fn pop(&mut self) -> (r: Option<Order>)
        ensures
            match old(self)@ {
                Some(s) => if s.len() > 0 {
                    r == Some(s[0]) && final(self)@ == Some(s.drop_first())
                } else {
                    r is None && final(self)@ == old(self)@
                },
                None => r is None && final(self)@ == old(self)@,
            },
    {
        if self.cola.is_none() {
            return None;
        }
        let mut v = self.cola.take().unwrap();
        let o = v.pop_front();
        assert(o is Some ==> v@ =~= old(self)@->0.drop_first());
        self.cola = Some(v);
        o
    }

    /// Closes the queue.
    pub fn cerrar(&mut self)
        ensures
            final(self)@ is None,
    {
        self.cola = None;
    }
}

} // verus!
