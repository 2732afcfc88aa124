//! The reporter: it collects the orders that are over and, at a fixed
//! pace, tells how full the containers are and how many orders are done.

use crate::conteiners_states::ContainersStates;
use crate::enums::{IngredientType, OrderState};
use crate::order::{FinishedOrders, Order, Turno};
use crate::utils::Consts;
use std::collections::VecDeque;
use vstd::prelude::*;

verus! {

/// The share of `capacidad` that `cantidad` is, in hundredths, rounded
/// down; zero for a capacity of zero.
pub open spec fn porcentaje(cantidad: u64, capacidad: u64) -> u64 {
    if capacidad == 0 {
        0
    } else {
        (cantidad * 100 / capacidad as int) as u64
    }
}

/// Number of completed orders among `orders`.
pub open spec fn completadas(orders: Seq<Order>) -> nat
    decreases orders.len(),
{
    if orders.len() == 0 {
        0
    } else {
        completadas(orders.drop_last()) + if orders.last().status == OrderState::Completed {
            1nat
        } else {
            0nat
        }
    }
}

/// One line of a report: an ingredient and its level, in hundredths of
/// what the shop opened with.
#[derive(Debug, Clone, Copy, PartialEq, Eq, Structural)]
pub struct Nivel {
    pub tipo: IngredientType,
    pub porcentaje: u64,
}

/// What the reporter tells at each beat.
#[derive(Debug)]
pub struct Informe {
    /// Levels of the containers: water, ground coffee, milk foam, cocoa.
    pub conteiners: Vec<Nivel>,
    /// Levels of the stocks: cold milk, beans.
    pub recargas: Vec<Nivel>,
    /// Orders that are over.
    pub procesados: usize,
    /// Orders that were completed.
    pub completados: usize,
    /// True once every order is over: the report is the last one.
    pub ultimo: bool,
}

/// The reporter.
#[derive(Debug)]
pub struct PeriodicAlert {
    orders_finished: VecDeque<Order>,
    total_orders_to_process: usize,
}

/// What a reporter holds.
pub struct Registro {
    /// The orders collected, oldest first.
    pub orders: Seq<Order>,
    /// Number of orders of the day.
    pub total: usize,
}

impl View for PeriodicAlert {
    type V = Registro;

    closed spec fn view(&self) -> Registro {
        Registro { orders: self.orders_finished@, total: self.total_orders_to_process }
    }
}

fn calcular_porcentaje(cantidad: u64, capacidad: u64) -> (r: u64)
    requires
        cantidad <= capacidad,
    ensures
        r == porcentaje(cantidad, capacidad),
        r <= 100,
{
    if capacidad == 0 {
        0
    } else {
        let p = (cantidad as u128) * 100 / (capacidad as u128);
        assert(cantidad * 100 / capacidad as int <= 100) by (nonlinear_arith)
            requires
                0 <= cantidad <= capacidad,
                capacidad > 0,
        ;
        p as u64
    }
}

impl PeriodicAlert {
    /// A reporter that expects no order.
    pub fn new() -> (r: PeriodicAlert)
        ensures
            r@ == (Registro { orders: Seq::empty(), total: 0 }),
    {
        PeriodicAlert { orders_finished: VecDeque::new(), total_orders_to_process: 0 }
    }

    /// Starts the day: the reporter forgets what it holds and expects
    /// `total_orders_to_process` orders.
    pub fn run(&mut self, total_orders_to_process: usize)
        ensures
            final(self)@ == (Registro { orders: Seq::empty(), total: total_orders_to_process }),
    {
        self.orders_finished = VecDeque::new();
        self.total_orders_to_process = total_orders_to_process;
    }

    /// True once the reporter holds every order of the day.
    pub fn terminado(&self) -> (r: bool)
        ensures
            r == (self@.orders.len() == self@.total),
    {
        self.orders_finished.len() == self.total_orders_to_process
    }

    /// Takes the oldest order that is over, or tells to wait when there is
    /// none.
    pub fn wait_order(cola: &mut FinishedOrders) -> (r: Turno<Order>)
        ensures
            old(cola)@.len() == 0 ==> r is Esperar && final(cola)@ == old(cola)@,
            old(cola)@.len() > 0 ==> r == Turno::Listo(old(cola)@[0]) && final(cola)@ == old(
                cola,
            )@.drop_first(),
    {
        match cola.pop() {
            Some(o) => Turno::Listo(o),
            None => Turno::Esperar,
        }
    }

    /// Collects orders that are over, oldest first, until it holds every
    /// order of the day or none is left to collect. In the first case the
    /// work of the reporter is done; in the second it has to wait for the
    /// next order.
    pub fn process_finished_orders(&mut self, cola: &mut FinishedOrders) -> (r: Turno<()>)
        ensures
            final(self)@.total == old(self)@.total,
            final(self)@.orders + final(cola)@ == old(self)@.orders + old(cola)@,
            old(self)@.orders.len() <= final(self)@.orders.len(),
            r is Listo <==> final(self)@.orders.len() == old(self)@.total,
            r is Esperar ==> final(cola)@.len() == 0,
            old(self)@.orders.len() == old(self)@.total ==> final(self)@ == old(self)@
                && final(cola)@ == old(cola)@,
    {
        if self.orders_finished.len() == self.total_orders_to_process {
            return Turno::Listo(());
        }
        while self.orders_finished.len() != self.total_orders_to_process
            invariant
                old(self)@.orders.len() != old(self)@.total,
                self@.total == old(self)@.total,
                self@.orders + cola@ == old(self)@.orders + old(cola)@,
                old(self)@.orders.len() <= self@.orders.len(),
            decreases cola@.len(),
        {
            let ghost antes = self@.orders;
            let ghost resto = cola@;
            match Self::wait_order(cola) {
                Turno::Esperar => {
                    return Turno::Esperar;
                },
                Turno::Listo(order) => {
                    self.orders_finished.push_back(order);
                    assert(self@.orders + cola@ =~= antes + resto);
                },
            }
        }
        Turno::Listo(())
    }

    /// The orders collected, oldest first.
    pub fn orders(&self) -> (r: &VecDeque<Order>)
        ensures
            r@ == self@.orders,
    {
        &self.orders_finished
    }

    /// Number of completed orders among those collected.
    pub fn completados(&self) -> (r: usize)
        ensures
            r == completadas(self@.orders),
    {
        let mut n: usize = 0;
        let mut i: usize = 0;
        assert(self.orders_finished@.take(0) =~= Seq::<Order>::empty());
        while i < self.orders_finished.len()
            invariant
                i <= self.orders_finished@.len(),
                n <= i,
                n == completadas(self.orders_finished@.take(i as int)),
            decreases self.orders_finished@.len() - i,
        {
            proof {
                let p = self.orders_finished@.take(i as int + 1);
                assert(p.drop_last() =~= self.orders_finished@.take(i as int));
                assert(p.last() == self.orders_finished@[i as int]);
            }
            if self.orders_finished[i].status == OrderState::Completed {
                n = n + 1;
            }
            i = i + 1;
        }
        assert(self.orders_finished@.take(i as int) =~= self.orders_finished@);
        n
    }

    /// The report of one beat: the levels that the board shows, as shares
    /// of what the shop opened with, and the count of orders. A level
    /// above what the shop opened with counts as full.
    pub fn run_periodic_alerts(&self, estados: &ContainersStates, consts: &Consts) -> (r:
        Informe)
        ensures
            r.procesados == self@.orders.len(),
            r.completados == completadas(self@.orders),
            r.ultimo == (self@.orders.len() == self@.total),
            r.conteiners@.len() == 4,
            r.recargas@.len() == 2,
            forall|i: int| 0 <= i < 4 ==> (#[trigger] r.conteiners@[i]).porcentaje <= 100,
            forall|i: int| 0 <= i < 2 ==> (#[trigger] r.recargas@[i]).porcentaje <= 100,
            r.conteiners@[0].tipo == IngredientType::Agua,
            r.conteiners@[1].tipo == IngredientType::CafeMolido,
            r.conteiners@[2].tipo == IngredientType::EspumaLeche,
            r.conteiners@[3].tipo == IngredientType::Cacao,
            r.recargas@[0].tipo == IngredientType::LecheFria,
            r.recargas@[1].tipo == IngredientType::GranosCafe,
            forall|i: int|
                0 <= i < 4 ==> (#[trigger] r.conteiners@[i]).porcentaje == nivel_acotado(
                    estados.principal_conteiners.casilla(r.conteiners@[i].tipo),
                    capacidad_de(consts@, r.conteiners@[i].tipo),
                ),
            forall|i: int|
                0 <= i < 2 ==> (#[trigger] r.recargas@[i]).porcentaje == recarga_acotada(
                    estados.quantity_to_recharge.casilla(r.recargas@[i].tipo),
                    capacidad_de(consts@, r.recargas@[i].tipo),
                ),
    {
        let mut conteiners: Vec<Nivel> = Vec::new();
        conteiners.push(
            Self::nivel(
                IngredientType::Agua,
                estados.principal_conteiners.get(IngredientType::Agua),
                consts.a_agua_caliente(),
            ),
        );
        conteiners.push(
            Self::nivel(
                IngredientType::CafeMolido,
                estados.principal_conteiners.get(IngredientType::CafeMolido),
                consts.m_granos_molidos(),
            ),
        );
        conteiners.push(
            Self::nivel(
                IngredientType::EspumaLeche,
                estados.principal_conteiners.get(IngredientType::EspumaLeche),
                consts.e_espuma_leche(),
            ),
        );
        conteiners.push(
            Self::nivel(
                IngredientType::Cacao,
                estados.principal_conteiners.get(IngredientType::Cacao),
                consts.c_cacao(),
            ),
        );
        let mut recargas: Vec<Nivel> = Vec::new();
        recargas.push(
            Self::nivel_recarga(
                IngredientType::LecheFria,
                estados.quantity_to_recharge.get(IngredientType::LecheFria),
                consts.l_leche_fria(),
            ),
        );
        recargas.push(
            Self::nivel_recarga(
                IngredientType::GranosCafe,
                estados.quantity_to_recharge.get(IngredientType::GranosCafe),
                consts.g_granos(),
            ),
        );
        Informe {
            conteiners,
            recargas,
            procesados: self.orders_finished.len(),
            completados: self.completados(),
            ultimo: self.terminado(),
        }
    }

    fn nivel(
        tipo: IngredientType,
        e: Option<(crate::enums::StateOfConteiner, u64)>,
        capacidad: u64,
    ) -> (r: Nivel)
        ensures
            r.tipo == tipo,
            r.porcentaje == nivel_acotado(e, capacidad),
            r.porcentaje <= 100,
    {
        Nivel {
            tipo,
            porcentaje: match e {
                Some(e) => if e.1 <= capacidad {
                    calcular_porcentaje(e.1, capacidad)
                } else {
                    100
                },
                None => 0,
            },
        }
    }

    fn nivel_recarga(tipo: IngredientType, e: Option<u64>, capacidad: u64) -> (r: Nivel)
        ensures
            r.tipo == tipo,
            r.porcentaje == recarga_acotada(e, capacidad),
            r.porcentaje <= 100,
    {
        Nivel {
            tipo,
            porcentaje: match e {
                Some(e) => if e <= capacidad {
                    calcular_porcentaje(e, capacidad)
                } else {
                    100
                },
                None => 0,
            },
        }
    }
}

/// What the shop opened with, of the ingredient `tipo`.
pub open spec fn capacidad_de(c: crate::utils::Ajustes, tipo: IngredientType) -> u64 {
    match tipo {
        IngredientType::Agua => c.a_agua_caliente,
        IngredientType::CafeMolido => c.m_granos_molidos,
        IngredientType::EspumaLeche => c.e_espuma_leche,
        IngredientType::Cacao => c.c_cacao,
        IngredientType::LecheFria => c.l_leche_fria,
        IngredientType::GranosCafe => c.g_granos,
    }
}

/// The level that a report shows for an entry of the board: the share of
/// the capacity that it holds, a hundred if it holds more, zero if the
/// board has no such entry.
pub open spec fn nivel_acotado(
    e: Option<(crate::enums::StateOfConteiner, u64)>,
    capacidad: u64,
) -> u64 {
    match e {
        Some(e) => if e.1 <= capacidad {
            porcentaje(e.1, capacidad)
        } else {
            100
        },
        None => 0,
    }
}

/// The level that a report shows for a stock.
pub open spec fn recarga_acotada(e: Option<u64>, capacidad: u64) -> u64 {
    match e {
        Some(e) => if e <= capacidad {
            porcentaje(e, capacidad)
        } else {
            100
        },
        None => 0,
    }
}

impl Default for PeriodicAlert {
    fn default() -> (r: PeriodicAlert)
        ensures
            r@ == (Registro { orders: Seq::empty(), total: 0 }),
    {
        Self::new()
    }
}

/// A reporter that starts the day expecting `total_orders_to_process`
/// orders.
pub fn create_and_run_system_alert(total_orders_to_process: usize) -> (r: PeriodicAlert)
    ensures
        r@ == (Registro { orders: Seq::empty(), total: total_orders_to_process }),
{
    let mut system_alert = PeriodicAlert::new();
    system_alert.run(total_orders_to_process);
    system_alert
}

} // verus!
