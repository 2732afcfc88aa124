//! A container that is never refilled: what it serves is gone.

use crate::conteiners_states::ContainersStates;
use crate::enums::{IngredientType, StateOfConteiner};
use crate::order::Order;
use crate::traits::{
    segundos_de_aplicar, Aplicacion, ApplyContainer, ClaseConteiner, ModeloConteiner,
    ProcessApply,
};
use vstd::prelude::*;

verus! {

/// A container that is never refilled.
#[derive(Debug, Clone, Copy)]
pub struct NoRechargableConteiner {
    /// The ingredient that the container serves.
    pub tipo: IngredientType,
    pub capacity: u64,
    /// What the container holds now.
    pub quantity: u64,
    pub state: StateOfConteiner,
}

impl NoRechargableConteiner {
    /// A full, free container.
    pub fn new(tipo: IngredientType, capacity: u64) -> (r: Self)
        ensures
            r.tipo == tipo,
            r.capacity == capacity,
            r.quantity == capacity,
            r.state == StateOfConteiner::Free,
            r.modelo().wf(),
    {
        NoRechargableConteiner { tipo, capacity, quantity: capacity, state: StateOfConteiner::Free }
    }

    fn have_sufficient_quantity(&self, order: &Order) -> (r: bool)
        ensures
            r == (0 < order.falta(self.tipo) <= self.quantity),
    {
        order.can_satisfy(&self.tipo, self.quantity)
    }
}

impl ApplyContainer for NoRechargableConteiner {
    open spec fn modelo(&self) -> ModeloConteiner {
        ModeloConteiner {
            clase: ClaseConteiner::NoRecargable,
            tipo: self.tipo,
            capacity: self.capacity,
            quantity: self.quantity,
            tipo_recarga: self.tipo,
            recarga: 0,
            state: self.state,
        }
    }

    fn set_taken_state(&mut self, estados: &mut ContainersStates) {
        estados.set_state(self.quantity, StateOfConteiner::Taken, &self.tipo);
    }

    fn update_and_notify_state(&mut self, estados: &mut ContainersStates) {
        estados.set_state(self.quantity, self.state, &self.tipo);
    }

    fn apply_ingredient(&mut self, order: &mut Order) -> (r: Aplicacion) {
        let r = if !order.requiere(&self.tipo) {
            Aplicacion { recargado: false, aplicado: 0, negado: false }
        } else if !self.have_sufficient_quantity(order) {
            order.set_no_enough_resource_container(self.tipo);
            Aplicacion { recargado: false, aplicado: 0, negado: true }
        } else {
            let applied = order.apply(self.tipo);
            self.quantity -= applied;
            Aplicacion { recargado: false, aplicado: applied, negado: false }
        };
        self.state = if self.quantity > 0 {
            StateOfConteiner::Free
        } else {
            StateOfConteiner::NoEnoughResource
        };
        r
    }

    fn get_statistic(&self, ingredient: IngredientType) -> (r: Option<u64>) {
        if ingredient == self.tipo {
            Some(self.quantity)
        } else {
            None
        }
    }
}

impl ProcessApply for NoRechargableConteiner {
    fn process_apply(&mut self, quantitiy_to_apply: u64) -> (r: u64) {
        segundos_de_aplicar(quantitiy_to_apply)
    }
}

} // verus!
