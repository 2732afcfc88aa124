//! The board on which every container publishes whether it is free and
//! how much it holds. Dispensers choose their next container from it.

use crate::enums::{IngredientType, StateOfConteiner};
use crate::error_dispenser::ErrorCafeteria;
use crate::order::Order;
use crate::por_ingrediente::PorIngrediente;
use crate::utils::{Consts, X_ALERT_SYSTEM};
use rand::Rng;
use vstd::prelude::*;

verus! {

/// What the containers have published.
#[derive(Debug, Clone, Copy)]
pub struct ContainersStates {
    /// For each container, by the ingredient it serves: its state and the
    /// amount it holds.
    pub principal_conteiners: PorIngrediente<(StateOfConteiner, u64)>,
    /// For each ingredient that refills a container: the amount left.
    pub quantity_to_recharge: PorIngrediente<u64>,
}

/// `tipo` alone if `si` holds, nothing otherwise.
pub open spec fn uno_si(si: bool, tipo: IngredientType) -> Seq<IngredientType> {
    if si {
        seq![tipo]
    } else {
        Seq::<IngredientType>::empty()
    }
}

/// `uno_si` holds its kind, if anything.
pub proof fn lemma_uno_si(si: bool, tipo: IngredientType, otro: IngredientType)
    ensures
        uno_si(si, tipo).contains(otro) <==> si && otro == tipo,
        uno_si(si, tipo).len() <= 1,
{
    if si {
        assert(uno_si(si, tipo)[0] == tipo);
    }
}

/// What is in two sequences put end to end is what is in either.
pub proof fn lemma_contiene_suma(a: Seq<IngredientType>, b: Seq<IngredientType>, x: IngredientType)
    ensures
        (a + b).contains(x) <==> a.contains(x) || b.contains(x),
        (a + b).len() == a.len() + b.len(),
{
    if a.contains(x) {
        let i = a.index_of(x);
        assert((a + b)[i] == x);
    }
    if b.contains(x) {
        let i = b.index_of(x);
        assert((a + b)[a.len() + i] == x);
    }
    if (a + b).contains(x) {
        let i = (a + b).index_of(x);
        if i < a.len() {
            assert(a[i] == x);
        } else {
            assert(b[i - a.len()] == x);
        }
    }
}

/// True when `cantidad` is below the warning share of `capacidad`.
pub open spec fn nivel_bajo(cantidad: u64, capacidad: u64) -> bool {
    cantidad * 100 < capacidad * X_ALERT_SYSTEM
}

impl ContainersStates {
    /// The board when the shop opens: the four containers free and full,
    /// the two refills whole.
    pub open spec fn inicial(c: crate::utils::Ajustes) -> ContainersStates {
        ContainersStates {
            principal_conteiners: PorIngrediente {
                agua: Some((StateOfConteiner::Free, c.a_agua_caliente)),
                cafe_molido: Some((StateOfConteiner::Free, c.m_granos_molidos)),
                espuma_leche: Some((StateOfConteiner::Free, c.e_espuma_leche)),
                cacao: Some((StateOfConteiner::Free, c.c_cacao)),
                leche_fria: None,
                granos_cafe: None,
            },
            quantity_to_recharge: PorIngrediente {
                agua: None,
                cafe_molido: None,
                espuma_leche: None,
                cacao: None,
                leche_fria: Some(c.l_leche_fria),
                granos_cafe: Some(c.g_granos),
            },
        }
    }

    /// True when the container of `tipo` has published the state `state`.
    pub open spec fn en_estado(&self, tipo: IngredientType, state: StateOfConteiner) -> bool {
        self.principal_conteiners.casilla(tipo) matches Some(e) && e.0 == state
    }

    /// True when the container of `tipo` is free and `order` still asks
    /// for its ingredient.
    pub open spec fn sirve(&self, order: Order, tipo: IngredientType) -> bool {
        self.en_estado(tipo, StateOfConteiner::Free) && order.falta(tipo) > 0
    }

    /// True when the container of `tipo` can serve nothing more and
    /// `order` still asks for its ingredient.
    pub open spec fn niega(&self, order: Order, tipo: IngredientType) -> bool {
        self.en_estado(tipo, StateOfConteiner::NoEnoughResource) && order.falta(tipo) > 0
    }

    /// The containers that `order` may take next: those that are free and
    /// whose ingredient it still asks for.
    pub open spec fn candidatos(&self, order: Order) -> Seq<IngredientType> {
        uno_si(self.sirve(order, IngredientType::Agua), IngredientType::Agua) + uno_si(
            self.sirve(order, IngredientType::CafeMolido),
            IngredientType::CafeMolido,
        ) + uno_si(self.sirve(order, IngredientType::EspumaLeche), IngredientType::EspumaLeche)
            + uno_si(self.sirve(order, IngredientType::Cacao), IngredientType::Cacao) + uno_si(
            self.sirve(order, IngredientType::LecheFria),
            IngredientType::LecheFria,
        ) + uno_si(self.sirve(order, IngredientType::GranosCafe), IngredientType::GranosCafe)
    }

    /// True when the level published for `tipo` is below the warning share
    /// of `capacidad`.
    pub open spec fn bajo(&self, tipo: IngredientType, capacidad: u64) -> bool {
        self.principal_conteiners.casilla(tipo) matches Some(e) && nivel_bajo(e.1, capacidad)
    }

    /// The containers to warn of, among water, ground coffee, milk foam
    /// and cocoa in this order.
    pub open spec fn alertas(&self, c: crate::utils::Ajustes) -> Seq<IngredientType> {
        uno_si(self.bajo(IngredientType::Agua, c.a_agua_caliente), IngredientType::Agua) + uno_si(
            self.bajo(IngredientType::CafeMolido, c.m_granos_molidos),
            IngredientType::CafeMolido,
        ) + uno_si(
            self.bajo(IngredientType::EspumaLeche, c.e_espuma_leche),
            IngredientType::EspumaLeche,
        ) + uno_si(self.bajo(IngredientType::Cacao, c.c_cacao), IngredientType::Cacao)
    }

    /// Every container that serves an order is a candidate, and every
    /// candidate serves it.
    pub proof fn lemma_candidatos(&self, order: Order, tipo: IngredientType)
        ensures
            self.candidatos(order).contains(tipo) <==> self.sirve(order, tipo),
            self.candidatos(order).len() <= 6,
    {
        let a = uno_si(self.sirve(order, IngredientType::Agua), IngredientType::Agua);
        let b = uno_si(self.sirve(order, IngredientType::CafeMolido), IngredientType::CafeMolido);
        let d = uno_si(
            self.sirve(order, IngredientType::EspumaLeche),
            IngredientType::EspumaLeche,
        );
        let e = uno_si(self.sirve(order, IngredientType::Cacao), IngredientType::Cacao);
        let f = uno_si(self.sirve(order, IngredientType::LecheFria), IngredientType::LecheFria);
        let g = uno_si(self.sirve(order, IngredientType::GranosCafe), IngredientType::GranosCafe);
        lemma_uno_si(self.sirve(order, IngredientType::Agua), IngredientType::Agua, tipo);
        lemma_uno_si(
            self.sirve(order, IngredientType::CafeMolido),
            IngredientType::CafeMolido,
            tipo,
        );
        lemma_uno_si(
            self.sirve(order, IngredientType::EspumaLeche),
            IngredientType::EspumaLeche,
            tipo,
        );
        lemma_uno_si(self.sirve(order, IngredientType::Cacao), IngredientType::Cacao, tipo);
        lemma_uno_si(
            self.sirve(order, IngredientType::LecheFria),
            IngredientType::LecheFria,
            tipo,
        );
        lemma_uno_si(
            self.sirve(order, IngredientType::GranosCafe),
            IngredientType::GranosCafe,
            tipo,
        );
        lemma_contiene_suma(a, b, tipo);
        lemma_contiene_suma(a + b, d, tipo);
        lemma_contiene_suma(a + b + d, e, tipo);
        lemma_contiene_suma(a + b + d + e, f, tipo);
        lemma_contiene_suma(a + b + d + e + f, g, tipo);
    }

    /// The board when the shop opens.
    pub fn new(consts: &Consts) -> (r: ContainersStates)
        ensures
            r == Self::inicial(consts@),
    {
        ContainersStates {
            principal_conteiners: PorIngrediente {
                agua: Some((StateOfConteiner::Free, consts.a_agua_caliente())),
                cafe_molido: Some((StateOfConteiner::Free, consts.m_granos_molidos())),
                espuma_leche: Some((StateOfConteiner::Free, consts.e_espuma_leche())),
                cacao: Some((StateOfConteiner::Free, consts.c_cacao())),
                leche_fria: None,
                granos_cafe: None,
            },
            quantity_to_recharge: PorIngrediente {
                agua: None,
                cafe_molido: None,
                espuma_leche: None,
                cacao: None,
                leche_fria: Some(consts.l_leche_fria()),
                granos_cafe: Some(consts.g_granos()),
            },
        }
    }

    /// Publishes the state and the amount of the container of `tipo`.
    pub fn set_state(
        &mut self,
        quantity_in_conteiner: u64,
        state: StateOfConteiner,
        tipo: &IngredientType,
    )
        ensures
            *final(self) == (ContainersStates {
                principal_conteiners: old(self).principal_conteiners.con(
                    *tipo,
                    (state, quantity_in_conteiner),
                ),
                ..*old(self)
            }),
    {
        self.principal_conteiners.insert(*tipo, (state, quantity_in_conteiner));
    }

    fn es_en_estado(&self, tipo: IngredientType, state: StateOfConteiner) -> (r: bool)
        ensures
            r == self.en_estado(tipo, state),
    {
        match self.principal_conteiners.get(tipo) {
            Some(e) => e.0 == state,
            None => false,
        }
    }

    fn es_sirve(&self, order: &Order, tipo: IngredientType) -> (r: bool)
        ensures
            r == self.sirve(*order, tipo),
    {
        self.es_en_estado(tipo, StateOfConteiner::Free) && order.requiere(&tipo)
    }

    fn es_niega(&self, order: &Order, tipo: IngredientType) -> (r: bool)
        ensures
            r == self.niega(*order, tipo),
    {
        self.es_en_estado(tipo, StateOfConteiner::NoEnoughResource) && order.requiere(&tipo)
    }

    /// The containers that `order` may take next.
    pub fn containers_free_for(&self, order: &Order) -> (r: Vec<IngredientType>)
        ensures
            r@ == self.candidatos(*order),
    {
        let mut v: Vec<IngredientType> = Vec::new();
        if self.es_sirve(order, IngredientType::Agua) {
            v.push(IngredientType::Agua);
        }
        if self.es_sirve(order, IngredientType::CafeMolido) {
            v.push(IngredientType::CafeMolido);
        }
        if self.es_sirve(order, IngredientType::EspumaLeche) {
            v.push(IngredientType::EspumaLeche);
        }
        if self.es_sirve(order, IngredientType::Cacao) {
            v.push(IngredientType::Cacao);
        }
        if self.es_sirve(order, IngredientType::LecheFria) {
            v.push(IngredientType::LecheFria);
        }
        if self.es_sirve(order, IngredientType::GranosCafe) {
            v.push(IngredientType::GranosCafe);
        }
        assert(v@ =~= self.candidatos(*order));
        v
    }

    /// The candidate of `order` at the place `indice`, counted round the
    /// candidates; an error when there is none.
    pub fn container_free_at(&self, order: &Order, indice: usize) -> (r: Result<
        IngredientType,
        ErrorCafeteria,
    >)
        ensures
            r is Err <==> self.candidatos(*order).len() == 0,
            r is Err ==> r->Err_0.type_error == crate::enums::ErrorType::ErrorGeneric,
            r is Ok ==> r->Ok_0 == self.candidatos(*order)[indice as int % self.candidatos(
                *order,
            ).len() as int],
            r is Ok ==> self.sirve(*order, r->Ok_0),
    {
        let a = self.containers_free_for(order);
        if a.len() == 0 {
            return Err(
                ErrorCafeteria::new(
                    "No available container for order found when there should be at least one.",
                ),
            );
        }
        let elegido = a[indice % a.len()];
        proof {
            assert(self.candidatos(*order).contains(elegido));
            self.lemma_candidatos(*order, elegido);
        }
        Ok(elegido)
    }

    /// One of the candidates of `order`, drawn at random, each as likely as
    /// any other; an error when there is none.
    pub fn find_rng_any_container_free_for(&self, order: &Order) -> (r: Result<
        IngredientType,
        ErrorCafeteria,
    >)
        ensures
            r is Err <==> self.candidatos(*order).len() == 0,
            r is Err ==> r->Err_0.type_error == crate::enums::ErrorType::ErrorGeneric,
            r is Ok ==> self.candidatos(*order).contains(r->Ok_0),
            r is Ok ==> self.sirve(*order, r->Ok_0),
    {
        let a = self.containers_free_for(order);
        if a.len() == 0 {
            return Err(
                ErrorCafeteria::new(
                    "No available container for order found when there should be at least one.",
                ),
            );
        }
        let rng_element = numero_al_azar(a.len());
        let elegido = a[rng_element];
        proof {
            assert(self.candidatos(*order).contains(elegido));
            self.lemma_candidatos(*order, elegido);
        }
        Ok(elegido)
    }

    /// True when some container is free for `order`.
    pub fn order_is_processable(&self, order: &Order) -> (r: bool)
        ensures
            r == (self.candidatos(*order).len() > 0),
            r == exists|tipo: IngredientType| self.sirve(*order, tipo),
    {
        let a = self.containers_free_for(order);
        proof {
            let c = self.candidatos(*order);
            if c.len() > 0 {
                assert(c.contains(c[0]));
                self.lemma_candidatos(*order, c[0]);
            }
            assert forall|tipo: IngredientType| self.sirve(*order, tipo) implies c.len() > 0 by {
                self.lemma_candidatos(*order, tipo);
            }
        }
        a.len() > 0
    }

    /// True when some container that `order` still needs can serve nothing
    /// more.
    pub fn container_without_resource_for(&self, order: &Order) -> (r: bool)
        ensures
            r == exists|tipo: IngredientType| self.niega(*order, tipo),
    {
        let r = self.es_niega(order, IngredientType::Agua) || self.es_niega(
            order,
            IngredientType::CafeMolido,
        ) || self.es_niega(order, IngredientType::EspumaLeche) || self.es_niega(
            order,
            IngredientType::Cacao,
        ) || self.es_niega(order, IngredientType::LecheFria) || self.es_niega(
            order,
            IngredientType::GranosCafe,
        );
        proof {
            if !r {
                assert forall|tipo: IngredientType| !self.niega(*order, tipo) by {
                    match tipo {
                        IngredientType::Agua => {},
                        IngredientType::CafeMolido => {},
                        IngredientType::EspumaLeche => {},
                        IngredientType::Cacao => {},
                        IngredientType::LecheFria => {},
                        IngredientType::GranosCafe => {},
                    }
                }
            }
        }
        r
    }

    fn es_bajo(&self, tipo: IngredientType, capacidad: u64) -> (r: bool)
        ensures
            r == self.bajo(tipo, capacidad),
    {
        match self.principal_conteiners.get(tipo) {
            Some(e) => (e.1 as u128) * 100 < (capacidad as u128) * 10,
            None => false,
        }
    }

    /// The containers to warn of: those whose level is below a tenth of
    /// their capacity.
    pub fn alert_conteiners_status(&self, consts: &Consts) -> (r: Vec<IngredientType>)
        ensures
            r@ == self.alertas(consts@),
    {
        let mut v: Vec<IngredientType> = Vec::new();
        if self.es_bajo(IngredientType::Agua, consts.a_agua_caliente()) {
            v.push(IngredientType::Agua);
        }
        if self.es_bajo(IngredientType::CafeMolido, consts.m_granos_molidos()) {
            v.push(IngredientType::CafeMolido);
        }
        if self.es_bajo(IngredientType::EspumaLeche, consts.e_espuma_leche()) {
            v.push(IngredientType::EspumaLeche);
        }
        if self.es_bajo(IngredientType::Cacao, consts.c_cacao()) {
            v.push(IngredientType::Cacao);
        }
        assert(v@ =~= self.alertas(consts@));
        v
    }
}

impl Default for ContainersStates {
    /// The board of a shop with every setting at its default.
    fn default() -> (r: ContainersStates)
        ensures
            r == Self::inicial(
                crate::utils::Ajustes {
                    a_agua_caliente: 500,
                    c_cacao: 1000,
                    e_espuma_leche: 700,
                    m_granos_molidos: 500,
                    l_leche_fria: 2000,
                    g_granos: 1000,
                    n_dispensers: 8,
                },
            ),
    {
        let consts = Consts::default();
        ContainersStates::new(&consts)
    }
}

/// Draws a number: `rand::Rng::gen_range` on the generator that
/// `rand::thread_rng` hands out, with the bounds zero and `n`. The crate
/// documents the result as at least the lower bound and below the upper
/// one, and a panic when the lower bound is not below the upper one, which
/// `n > 0` rules out. Nothing else is claimed of the number drawn: two
/// draws with the same `n` may differ.
#[verifier::external_body]
fn numero_al_azar(n: usize) -> (r: usize)
    requires
        n > 0,
    ensures
        r < n,
{
    rand::thread_rng().gen_range(0, n)
}

} // verus!
