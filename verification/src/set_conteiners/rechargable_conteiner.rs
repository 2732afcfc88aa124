//! A container that is refilled from a stock of another ingredient, for
//! as long as the stock lasts.

use crate::conteiners_states::ContainersStates;
use crate::enums::{IngredientType, StateOfConteiner};
use crate::order::Order;
use crate::traits::{
    segundos_de_aplicar, Aplicacion, ApplyContainer, ClaseConteiner, ModeloConteiner,
    ProcessApply, ProcessRecharge,
};
use vstd::prelude::*;

verus! {

/// A container refilled from a stock that runs out.
#[derive(Debug, Clone, Copy)]
pub struct RechargableConteiner {
    /// The ingredient that the container serves.
    pub tipo: IngredientType,
    pub capacity: u64,
    /// What the container holds now.
    pub quantity: u64,
    /// The ingredient that refills the container, and what is left of it.
    pub quantity_to_recharge: (IngredientType, u64),
    pub state: StateOfConteiner,
}

impl RechargableConteiner {
    /// A full, free container with its stock. The capacity and the stock
    /// must be countable together.
    pub fn new(tipo: IngredientType, capacity: u64, quantity_to_recharge: (IngredientType, u64)) -> (r:
        Self)
        requires
            capacity + quantity_to_recharge.1 <= u64::MAX,
        ensures
            r.tipo == tipo,
            r.capacity == capacity,
            r.quantity == capacity,
            r.quantity_to_recharge == quantity_to_recharge,
            r.state == StateOfConteiner::Free,
            r.modelo().wf(),
    {
        RechargableConteiner {
            tipo,
            capacity,
            quantity: capacity,
            quantity_to_recharge,
            state: StateOfConteiner::Free,
        }
    }

    fn have_sufficient_quantity(&self, order: &Order) -> (r: bool)
        ensures
            r == (0 < order.falta(self.tipo) <= self.quantity),
    {
        order.can_satisfy(&self.tipo, self.quantity)
    }

    fn belongs_to_range_capacities(&self, order: &Order) -> (r: bool)
        ensures
            r == (0 < order.falta(self.tipo) <= self.capacity),
    {
        order.can_satisfy(&self.tipo, self.capacity)
    }

    fn can_reload_for_order(&self, order: &Order) -> (r: bool)
        requires
            self.modelo().wf(),
        ensures
            r == (0 < order.falta(self.tipo) <= self.quantity + self.quantity_to_recharge.1),
    {
        order.can_satisfy(&self.tipo, self.quantity_to_recharge.1 + self.quantity)
    }

    fn reload_container(&mut self)
        requires
            old(self).modelo().wf(),
        ensures
            final(self).modelo() == old(self).modelo().recargado(),
    {
        let need_to_reload = self.capacity - self.quantity;
        if self.quantity_to_recharge.1 >= need_to_reload {
            self.quantity = self.capacity;
            self.quantity_to_recharge.1 = self.quantity_to_recharge.1 - need_to_reload;
        } else {
            self.quantity = self.quantity + self.quantity_to_recharge.1;
            self.quantity_to_recharge.1 = 0;
        }
    }

    fn por_nivel(&self) -> (r: StateOfConteiner)
        ensures
            r == self.modelo().estado_por_nivel(),
    {
        if self.quantity > 0 || self.quantity_to_recharge.1 > 0 {
            StateOfConteiner::Free
        } else {
            StateOfConteiner::NoEnoughResource
        }
    }
}

impl ApplyContainer for RechargableConteiner {
    open spec fn modelo(&self) -> ModeloConteiner {
        ModeloConteiner {
            clase: ClaseConteiner::Recargable,
            tipo: self.tipo,
            capacity: self.capacity,
            quantity: self.quantity,
            tipo_recarga: self.quantity_to_recharge.0,
            recarga: self.quantity_to_recharge.1,
            state: self.state,
        }
    }

    fn set_taken_state(&mut self, estados: &mut ContainersStates) {
        estados.set_state(self.quantity, StateOfConteiner::Taken, &self.tipo);
    }

    fn update_and_notify_state(&mut self, estados: &mut ContainersStates) {
        estados.set_state(self.quantity, self.state, &self.tipo);
        estados.quantity_to_recharge.insert(
            self.quantity_to_recharge.0,
            self.quantity_to_recharge.1,
        );
    }

    fn apply_ingredient(&mut self, order: &mut Order) -> (r: Aplicacion) {
        if !order.requiere(&self.tipo) {
            self.state = self.por_nivel();
            return Aplicacion { recargado: false, aplicado: 0, negado: false };
        }
        let mut recargado = false;
        if !self.belongs_to_range_capacities(order) {
            order.set_no_enough_resource_container(self.tipo);
            self.state = self.por_nivel();
            return Aplicacion { recargado: false, aplicado: 0, negado: true };
        } else if !self.have_sufficient_quantity(order) {
            if self.can_reload_for_order(order) {
                self.reload_container();
                recargado = true;
            } else {
                order.set_no_enough_resource_container(self.tipo);
                self.state = self.por_nivel();
                return Aplicacion { recargado: false, aplicado: 0, negado: true };
            }
        }
        let applied = order.apply(self.tipo);
        self.quantity -= applied;
        self.state = self.por_nivel();
        Aplicacion { recargado, aplicado: applied, negado: false }
    }

    fn get_statistic(&self, ingredient: IngredientType) -> (r: Option<u64>) {
        if ingredient == self.tipo {
            Some(self.quantity + self.quantity_to_recharge.1)
        } else {
            None
        }
    }
}

impl ProcessApply for RechargableConteiner {
    fn process_apply(&mut self, quantitiy_to_apply: u64) -> (r: u64) {
        segundos_de_aplicar(quantitiy_to_apply)
    }
}

impl ProcessRecharge for RechargableConteiner {
    fn process_recharge(&mut self) -> (r: u64) {
        crate::utils::SEGS_FOR_RELOAD
    }
}

} // verus!
