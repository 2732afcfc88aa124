//! A container that is refilled from a tap: it never runs out, but it
//! holds no more than its capacity at a time.

use crate::conteiners_states::ContainersStates;
use crate::enums::{IngredientType, StateOfConteiner};
use crate::order::Order;
use crate::traits::{
    segundos_de_aplicar, Aplicacion, ApplyContainer, ClaseConteiner, ModeloConteiner,
    ProcessApply, ProcessRecharge,
};
use vstd::prelude::*;

verus! {

/// A container refilled from a tap.
#[derive(Debug, Clone, Copy)]
pub struct InfinityConteiner {
    /// The ingredient that the container serves.
    pub tipo: IngredientType,
    pub capacity: u64,
    /// What the container holds now.
    pub quantity: u64,
}

impl InfinityConteiner {
    /// A full container.
    pub fn new(tipo: IngredientType, capacity: u64) -> (r: Self)
        ensures
            r.tipo == tipo,
            r.capacity == capacity,
            r.quantity == capacity,
            r.modelo().wf(),
    {
        InfinityConteiner { tipo, capacity, quantity: capacity }
    }

    fn have_sufficient_quantity(&self, order: &Order) -> (r: bool)
        ensures
            r == (0 < order.falta(self.tipo) <= self.quantity),
    {
        order.can_satisfy(&self.tipo, self.quantity)
    }

    fn belongs_to_range_capacities(&self, order: &Order) -> (r: bool)
        ensures
            r == (0 < order.falta(self.tipo) <= self.capacity),
    {
        order.can_satisfy(&self.tipo, self.capacity)
    }

    fn reload_container(&mut self)
        ensures
            final(self).modelo() == old(self).modelo().recargado(),
    {
        self.quantity = self.capacity;
    }
}

impl ApplyContainer for InfinityConteiner {
    open spec fn modelo(&self) -> ModeloConteiner {
        ModeloConteiner {
            clase: ClaseConteiner::Infinito,
            tipo: self.tipo,
            capacity: self.capacity,
            quantity: self.quantity,
            tipo_recarga: self.tipo,
            recarga: 0,
            state: StateOfConteiner::Free,
        }
    }

    fn set_taken_state(&mut self, estados: &mut ContainersStates) {
        estados.set_state(self.quantity, StateOfConteiner::Taken, &self.tipo);
    }

    fn update_and_notify_state(&mut self, estados: &mut ContainersStates) {
        estados.set_state(self.quantity, StateOfConteiner::Free, &self.tipo);
    }

    fn apply_ingredient(&mut self, order: &mut Order) -> (r: Aplicacion) {
        if !order.requiere(&self.tipo) {
            Aplicacion { recargado: false, aplicado: 0, negado: false }
        } else if !self.belongs_to_range_capacities(order) {
            order.set_no_enough_resource_container(self.tipo);
            Aplicacion { recargado: false, aplicado: 0, negado: true }
        } else {
            let recargado = !self.have_sufficient_quantity(order);
            if recargado {
                self.reload_container();
            }
            let applied = order.apply(self.tipo);
            self.quantity -= applied;
            Aplicacion { recargado, aplicado: applied, negado: false }
        }
    }

    fn get_statistic(&self, ingredient: IngredientType) -> (r: Option<u64>) {
        if ingredient == self.tipo {
            Some(self.quantity)
        } else {
            None
        }
    }
}

impl ProcessApply for InfinityConteiner {
    fn process_apply(&mut self, quantitiy_to_apply: u64) -> (r: u64) {
        segundos_de_aplicar(quantitiy_to_apply)
    }
}

impl ProcessRecharge for InfinityConteiner {
    fn process_recharge(&mut self) -> (r: u64) {
        crate::utils::SEGS_FOR_RELOAD
    }
}

} // verus!
