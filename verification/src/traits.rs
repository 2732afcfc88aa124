//! What the three kinds of container have in common: a model of what a
//! container holds, the rule by which one serves an order, and the
//! interface through which a dispenser uses it.

use crate::conteiners_states::ContainersStates;
use crate::enums::{IngredientType, StateOfConteiner};
use crate::order::Order;
use vstd::prelude::*;

verus! {

/// The kind of a container.
#[derive(Debug, Clone, Copy, PartialEq, Eq, Structural)]
pub enum ClaseConteiner {
    /// Refilled from a tap, any number of times.
    Infinito,
    /// Never refilled.
    NoRecargable,
    /// Refilled from a stock that runs out.
    Recargable,
}

/// What a container holds.
pub struct ModeloConteiner {
    pub clase: ClaseConteiner,
    /// The ingredient that the container serves.
    pub tipo: IngredientType,
    pub capacity: u64,
    /// What the container holds now.
    pub quantity: u64,
    /// The ingredient that the container is refilled with.
    pub tipo_recarga: IngredientType,
    /// What is left to refill the container with; zero for a container
    /// that has no such stock.
    pub recarga: u64,
    pub state: StateOfConteiner,
}

/// What applying a container to an order came to.
#[derive(Debug, Clone, Copy, PartialEq, Eq, Structural)]
pub struct Aplicacion {
    /// The container was refilled first.
    pub recargado: bool,
    /// Grams applied to the order.
    pub aplicado: u64,
    /// The order was refused its ingredient.
    pub negado: bool,
}

/// What a container does with a request.
pub enum Caso {
    /// Nothing is asked: nothing is done.
    Nada,
    /// The request is refused.
    Negar,
    /// The request is served from what the container holds.
    Aplicar,
    /// The container is refilled, then the request is served.
    Recargar,
}

impl ModeloConteiner {
    /// A container never holds more than its capacity, and what it holds
    /// and what is left to refill it with can be counted together.
    pub open spec fn wf(self) -> bool {
        &&& self.quantity <= self.capacity
        &&& self.capacity + self.recarga <= u64::MAX
        &&& self.clase != ClaseConteiner::Recargable ==> self.recarga == 0
    }

    /// The state that goes with what the container holds: one that is
    /// refilled from a tap is always free; any other is free as long as
    /// there is something in it or to refill it with.
    pub open spec fn estado_por_nivel(self) -> StateOfConteiner {
        if self.clase == ClaseConteiner::Infinito || self.quantity > 0 || self.recarga > 0 {
            StateOfConteiner::Free
        } else {
            StateOfConteiner::NoEnoughResource
        }
    }

    /// What the container does with a request for `need` grams.
    pub open spec fn caso(self, need: u64) -> Caso {
        if need == 0 {
            Caso::Nada
        } else {
            match self.clase {
                ClaseConteiner::Infinito => if need > self.capacity {
                    Caso::Negar
                } else if need <= self.quantity {
                    Caso::Aplicar
                } else {
                    Caso::Recargar
                },
                ClaseConteiner::NoRecargable => if need > self.quantity {
                    Caso::Negar
                } else {
                    Caso::Aplicar
                },
                ClaseConteiner::Recargable => if need > self.capacity {
                    Caso::Negar
                } else if need <= self.quantity {
                    Caso::Aplicar
                } else if need <= self.quantity + self.recarga {
                    Caso::Recargar
                } else {
                    Caso::Negar
                },
            }
        }
    }

    /// The container after a refill. The tap fills it up. The stock fills
    /// it up if it has enough for that, and otherwise goes into it whole.
    pub open spec fn recargado(self) -> ModeloConteiner {
        match self.clase {
            ClaseConteiner::Infinito => ModeloConteiner { quantity: self.capacity, ..self },
            ClaseConteiner::NoRecargable => self,
            ClaseConteiner::Recargable => if self.recarga >= self.capacity - self.quantity {
                ModeloConteiner {
                    quantity: self.capacity,
                    recarga: (self.recarga - (self.capacity - self.quantity)) as u64,
                    ..self
                }
            } else {
                ModeloConteiner {
                    quantity: (self.quantity + self.recarga) as u64,
                    recarga: 0,
                    ..self
                }
            },
        }
    }

    /// The container with `need` grams less, in the state that goes with
    /// what is left.
    pub open spec fn servido(self, need: u64) -> ModeloConteiner {
        let m = ModeloConteiner { quantity: (self.quantity - need) as u64, ..self };
        ModeloConteiner { state: m.estado_por_nivel(), ..m }
    }

    /// The container after a request for `need` grams.
    pub open spec fn aplicar(self, need: u64) -> ModeloConteiner {
        match self.caso(need) {
            Caso::Nada | Caso::Negar => ModeloConteiner { state: self.estado_por_nivel(), ..self },
            Caso::Aplicar => self.servido(need),
            Caso::Recargar => self.recargado().servido(need),
        }
    }

    /// What a request for `need` grams comes to.
    pub open spec fn resultado(self, need: u64) -> Aplicacion {
        match self.caso(need) {
            Caso::Nada => Aplicacion { recargado: false, aplicado: 0, negado: false },
            Caso::Negar => Aplicacion { recargado: false, aplicado: 0, negado: true },
            Caso::Aplicar => Aplicacion { recargado: false, aplicado: need, negado: false },
            Caso::Recargar => Aplicacion { recargado: true, aplicado: need, negado: false },
        }
    }

    /// The order after the container was applied to it.
    pub open spec fn orden_tras(self, order: Order) -> Order {
        match self.caso(order.falta(self.tipo)) {
            Caso::Nada => order,
            Caso::Negar => order.negada(self.tipo),
            Caso::Aplicar | Caso::Recargar => order.aplicada(self.tipo),
        }
    }

    /// The state that the container publishes once it is released.
    pub open spec fn estado_publicado(self) -> StateOfConteiner {
        if self.clase == ClaseConteiner::Infinito {
            StateOfConteiner::Free
        } else {
            self.state
        }
    }

    /// The board after the container was taken.
    pub open spec fn tomado_en(self, estados: ContainersStates) -> ContainersStates {
        ContainersStates {
            principal_conteiners: estados.principal_conteiners.con(
                self.tipo,
                (StateOfConteiner::Taken, self.quantity),
            ),
            ..estados
        }
    }

    /// The board after the container was released: its state and amount,
    /// and what is left of its stock if it has one.
    pub open spec fn publicado_en(self, estados: ContainersStates) -> ContainersStates {
        ContainersStates {
            principal_conteiners: estados.principal_conteiners.con(
                self.tipo,
                (self.estado_publicado(), self.quantity),
            ),
            quantity_to_recharge: if self.clase == ClaseConteiner::Recargable {
                estados.quantity_to_recharge.con(self.tipo_recarga, self.recarga)
            } else {
                estados.quantity_to_recharge
            },
        }
    }

    /// What the container has to show: what it holds, and what is left to
    /// refill it with.
    pub open spec fn existencia(self) -> u64 {
        (self.quantity + self.recarga) as u64
    }
}

/// Serving a request keeps a container sound, never adds to what the
/// container and its stock hold together, and, but for the tap, takes from
/// them exactly what was applied.
pub proof fn lemma_aplicar(m: ModeloConteiner, need: u64)
    requires
        m.wf(),
    ensures
        m.aplicar(need).wf(),
        m.aplicar(need).clase == m.clase,
        m.aplicar(need).tipo == m.tipo,
        m.aplicar(need).capacity == m.capacity,
        m.aplicar(need).recarga <= m.recarga,
        m.aplicar(need).state == m.aplicar(need).estado_por_nivel(),
        m.clase != ClaseConteiner::Infinito ==> m.aplicar(need).quantity + m.aplicar(need).recarga
            + m.resultado(need).aplicado == m.quantity + m.recarga,
        m.clase == ClaseConteiner::NoRecargable ==> m.aplicar(need).quantity + m.resultado(
            need,
        ).aplicado == m.quantity,
        m.resultado(need).aplicado == need || m.resultado(need).aplicado == 0,
        need > 0 ==> (m.resultado(need).negado <==> m.resultado(need).aplicado == 0),
{
}

/// The sum of the requests `needs`.
pub open spec fn suma(needs: Seq<u64>) -> nat
    decreases needs.len(),
{
    if needs.len() == 0 {
        0
    } else {
        suma(needs.drop_last()) + needs.last() as nat
    }
}

impl ModeloConteiner {
    /// The container after the requests `needs`, one after the other.
    pub open spec fn tras(self, needs: Seq<u64>) -> ModeloConteiner
        decreases needs.len(),
    {
        if needs.len() == 0 {
            self
        } else {
            self.tras(needs.drop_last()).aplicar(needs.last())
        }
    }

    /// The grams applied over the requests `needs`.
    pub open spec fn total_aplicado(self, needs: Seq<u64>) -> nat
        decreases needs.len(),
    {
        if needs.len() == 0 {
            0
        } else {
            self.total_aplicado(needs.drop_last()) + self.tras(needs.drop_last()).resultado(
                needs.last(),
            ).aplicado as nat
        }
    }

    /// True when none of the requests `needs` is refused.
    pub open spec fn todo_servido(self, needs: Seq<u64>) -> bool
        decreases needs.len(),
    {
        if needs.len() == 0 {
            true
        } else {
            self.todo_servido(needs.drop_last()) && !self.tras(needs.drop_last()).resultado(
                needs.last(),
            ).negado
        }
    }
}

/// Over any run of requests a container stays sound and keeps its kind,
/// its ingredient and its capacity; its stock never grows.
pub proof fn lemma_tras(m: ModeloConteiner, needs: Seq<u64>)
    requires
        m.wf(),
    ensures
        m.tras(needs).wf(),
        m.tras(needs).clase == m.clase,
        m.tras(needs).tipo == m.tipo,
        m.tras(needs).capacity == m.capacity,
        m.tras(needs).recarga <= m.recarga,
        m.total_aplicado(needs) <= suma(needs),
    decreases needs.len(),
{
    if needs.len() > 0 {
        lemma_tras(m, needs.drop_last());
        lemma_aplicar(m.tras(needs.drop_last()), needs.last());
    }
}

/// Conservation: over any run of requests, what a container that is not
/// refilled from a tap holds at the end, stock included, is what it held
/// at the start less what was applied. For a container that is never
/// refilled this is its own level.
pub proof fn lemma_conservacion(m: ModeloConteiner, needs: Seq<u64>)
    requires
        m.wf(),
        m.clase != ClaseConteiner::Infinito,
    ensures
        m.tras(needs).quantity + m.tras(needs).recarga + m.total_aplicado(needs) == m.quantity
            + m.recarga,
        m.clase == ClaseConteiner::NoRecargable ==> m.quantity - m.tras(needs).quantity
            == m.total_aplicado(needs),
    decreases needs.len(),
{
    if needs.len() > 0 {
        lemma_conservacion(m, needs.drop_last());
        lemma_tras(m, needs.drop_last());
        lemma_aplicar(m.tras(needs.drop_last()), needs.last());
    }
}

/// No over-consumption: over any run of requests, a container that is not
/// refilled from a tap applies no more than it held at the start, stock
/// included.
pub proof fn lemma_consumo_acotado(m: ModeloConteiner, needs: Seq<u64>)
    requires
        m.wf(),
        m.clase != ClaseConteiner::Infinito,
    ensures
        m.total_aplicado(needs) <= m.quantity + m.recarga,
{
    lemma_conservacion(m, needs);
}

/// True when every request of `needs` is within `capacity`.
pub open spec fn todas_dentro(needs: Seq<u64>, capacity: u64) -> bool {
    forall|i: int| 0 <= i < needs.len() ==> #[trigger] needs[i] <= capacity
}

/// Completeness: if every request is within the capacity of the container
/// and, but for a tap, all of them together are within what the container
/// holds, stock included, then none is refused and all is applied.
pub proof fn lemma_completo(m: ModeloConteiner, needs: Seq<u64>)
    requires
        m.wf(),
        todas_dentro(needs, m.capacity),
        m.clase != ClaseConteiner::Infinito ==> suma(needs) <= m.quantity + m.recarga,
    ensures
        m.todo_servido(needs),
        m.total_aplicado(needs) == suma(needs),
    decreases needs.len(),
{
    if needs.len() > 0 {
        let antes = needs.drop_last();
        assert(todas_dentro(antes, m.capacity)) by {
            assert forall|i: int| 0 <= i < antes.len() implies #[trigger] antes[i]
                <= m.capacity by {
                assert(antes[i] == needs[i]);
            }
        }
        lemma_completo(m, antes);
        lemma_tras(m, antes);
        assert(needs.last() == needs[needs.len() - 1]);
        if m.clase != ClaseConteiner::Infinito {
            lemma_conservacion(m, antes);
        }
    }
}

/// What a dispenser does with a container that it holds.
pub trait ApplyContainer {
    /// What the container holds.
    spec fn modelo(&self) -> ModeloConteiner;

    /// Serves the order its ingredient, if the container can, and marks
    /// the order accordingly.
    fn apply_ingredient(&mut self, order: &mut Order) -> (r: Aplicacion)
        requires
            old(self).modelo().wf(),
        ensures
            final(self).modelo() == old(self).modelo().aplicar(
                old(order).falta(old(self).modelo().tipo),
            ),
            r == old(self).modelo().resultado(old(order).falta(old(self).modelo().tipo)),
            *final(order) == old(self).modelo().orden_tras(*old(order)),
            final(self).modelo().wf(),
    ;

    /// Publishes the state and the amount of the container, which its
    /// dispenser releases.
    fn update_and_notify_state(&mut self, estados: &mut ContainersStates)
        ensures
            final(self).modelo() == old(self).modelo(),
            *final(estados) == old(self).modelo().publicado_en(*old(estados)),
    ;

    /// Publishes that the container is taken.
    fn set_taken_state(&mut self, estados: &mut ContainersStates)
        ensures
            final(self).modelo() == old(self).modelo(),
            *final(estados) == old(self).modelo().tomado_en(*old(estados)),
    ;

    /// What the container holds of `ingredient`, stock included; nothing
    /// for another ingredient than its own.
    fn get_statistic(&self, ingredient: IngredientType) -> (r: Option<u64>)
        requires
            self.modelo().wf(),
        ensures
            r == if ingredient == self.modelo().tipo {
                Some(self.modelo().existencia())
            } else {
                None
            },
    ;
}

/// How long serving takes.
pub trait ProcessApply: Sized {
    /// Seconds that applying `quantitiy_to_apply` grams takes; the longest
    /// time there is, if that is more. Telling the time leaves the
    /// container as it is.
    fn process_apply(&mut self, quantitiy_to_apply: u64) -> (r: u64)
        ensures
            *final(self) == *old(self),
            r == if quantitiy_to_apply * crate::utils::SEGS_POR_GRAMO <= u64::MAX {
                (quantitiy_to_apply * crate::utils::SEGS_POR_GRAMO) as u64
            } else {
                u64::MAX
            },
    ;
}

/// How long refilling takes.
pub trait ProcessRecharge: Sized {
    /// Seconds that a refill takes. The container is as it was: the
    /// refill itself is part of applying.
    fn process_recharge(&mut self) -> (r: u64)
        ensures
            *final(self) == *old(self),
            r == crate::utils::SEGS_FOR_RELOAD,
    ;
}

/// Seconds that applying `gramos` grams takes.
pub fn segundos_de_aplicar(gramos: u64) -> (r: u64)
    ensures
        r == if gramos * crate::utils::SEGS_POR_GRAMO <= u64::MAX {
            (gramos * crate::utils::SEGS_POR_GRAMO) as u64
        } else {
            u64::MAX
        },
{
    gramos
}

} // verus!
