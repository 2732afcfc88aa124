//! The four containers of the shop.

use crate::conteiners_states::ContainersStates;
use crate::enums::IngredientType;
use crate::error_dispenser::ErrorCafeteria;
use crate::order::Order;
use crate::set_conteiners::infinity_conteiner::InfinityConteiner;
use crate::set_conteiners::no_rechargable_conteiner::NoRechargableConteiner;
use crate::set_conteiners::rechargable_conteiner::RechargableConteiner;
use crate::traits::{Aplicacion, ApplyContainer, ModeloConteiner};
use crate::utils::Consts;
use vstd::prelude::*;

verus! {

/// A container of any of the three kinds.
#[derive(Debug, Clone, Copy)]
pub enum Conteiner {
    Infinity(InfinityConteiner),
    NoRechargable(NoRechargableConteiner),
    Rechargable(RechargableConteiner),
}

impl ApplyContainer for Conteiner {
    open spec fn modelo(&self) -> ModeloConteiner {
        match self {
            Conteiner::Infinity(c) => c.modelo(),
            Conteiner::NoRechargable(c) => c.modelo(),
            Conteiner::Rechargable(c) => c.modelo(),
        }
    }

    fn set_taken_state(&mut self, estados: &mut ContainersStates) {
        match self {
            Conteiner::Infinity(c) => c.set_taken_state(estados),
            Conteiner::NoRechargable(c) => c.set_taken_state(estados),
            Conteiner::Rechargable(c) => c.set_taken_state(estados),
        }
    }

    fn update_and_notify_state(&mut self, estados: &mut ContainersStates) {
        match self {
            Conteiner::Infinity(c) => c.update_and_notify_state(estados),
            Conteiner::NoRechargable(c) => c.update_and_notify_state(estados),
            Conteiner::Rechargable(c) => c.update_and_notify_state(estados),
        }
    }

    fn apply_ingredient(&mut self, order: &mut Order) -> (r: Aplicacion) {
        match self {
            Conteiner::Infinity(c) => c.apply_ingredient(order),
            Conteiner::NoRechargable(c) => c.apply_ingredient(order),
            Conteiner::Rechargable(c) => c.apply_ingredient(order),
        }
    }

    fn get_statistic(&self, ingredient: IngredientType) -> (r: Option<u64>) {
        match self {
            Conteiner::Infinity(c) => c.get_statistic(ingredient),
            Conteiner::NoRechargable(c) => c.get_statistic(ingredient),
            Conteiner::Rechargable(c) => c.get_statistic(ingredient),
        }
    }
}

/// The four containers of the shop: hot water from a tap, cocoa that is
/// never refilled, ground coffee refilled with beans and milk foam
/// refilled with cold milk.
#[derive(Debug, Clone, Copy)]
pub struct Conteiners {
    pub agua: Conteiner,
    pub cacao: Conteiner,
    pub cafe_molido: Conteiner,
    pub leche_espuma: Conteiner,
}

impl Conteiners {
    /// The container that serves `tipo`, if there is one.
    pub open spec fn casilla(&self, tipo: IngredientType) -> Option<Conteiner> {
        match tipo {
            IngredientType::Agua => Some(self.agua),
            IngredientType::Cacao => Some(self.cacao),
            IngredientType::CafeMolido => Some(self.cafe_molido),
            IngredientType::EspumaLeche => Some(self.leche_espuma),
            _ => None,
        }
    }

    /// The containers with `c` in the place of the one that serves `tipo`.
    pub open spec fn con(self, tipo: IngredientType, c: Conteiner) -> Conteiners {
        match tipo {
            IngredientType::Agua => Conteiners { agua: c, ..self },
            IngredientType::Cacao => Conteiners { cacao: c, ..self },
            IngredientType::CafeMolido => Conteiners { cafe_molido: c, ..self },
            IngredientType::EspumaLeche => Conteiners { leche_espuma: c, ..self },
            _ => self,
        }
    }

    /// Every container is sound and serves the ingredient of its place.
    pub open spec fn wf(&self) -> bool {
        &&& self.agua.modelo().wf() && self.agua.modelo().tipo == IngredientType::Agua
        &&& self.cacao.modelo().wf() && self.cacao.modelo().tipo == IngredientType::Cacao
        &&& self.cafe_molido.modelo().wf() && self.cafe_molido.modelo().tipo
            == IngredientType::CafeMolido
        &&& self.leche_espuma.modelo().wf() && self.leche_espuma.modelo().tipo
            == IngredientType::EspumaLeche
    }

    /// True when the settings can be held: the capacity and the stock of
    /// each refilled container can be counted together.
    pub open spec fn caben(c: crate::utils::Ajustes) -> bool {
        c.m_granos_molidos + c.g_granos <= u64::MAX && c.e_espuma_leche + c.l_leche_fria
            <= u64::MAX
    }

    /// The containers when the shop opens, each full and free.
    pub open spec fn inicial(c: crate::utils::Ajustes) -> Conteiners {
        Conteiners {
            agua: Conteiner::Infinity(
                InfinityConteiner {
                    tipo: IngredientType::Agua,
                    capacity: c.a_agua_caliente,
                    quantity: c.a_agua_caliente,
                },
            ),
            cacao: Conteiner::NoRechargable(
                NoRechargableConteiner {
                    tipo: IngredientType::Cacao,
                    capacity: c.c_cacao,
                    quantity: c.c_cacao,
                    state: crate::enums::StateOfConteiner::Free,
                },
            ),
            cafe_molido: Conteiner::Rechargable(
                RechargableConteiner {
                    tipo: IngredientType::CafeMolido,
                    capacity: c.m_granos_molidos,
                    quantity: c.m_granos_molidos,
                    quantity_to_recharge: (IngredientType::GranosCafe, c.g_granos),
                    state: crate::enums::StateOfConteiner::Free,
                },
            ),
            leche_espuma: Conteiner::Rechargable(
                RechargableConteiner {
                    tipo: IngredientType::EspumaLeche,
                    capacity: c.e_espuma_leche,
                    quantity: c.e_espuma_leche,
                    quantity_to_recharge: (IngredientType::LecheFria, c.l_leche_fria),
                    state: crate::enums::StateOfConteiner::Free,
                },
            ),
        }
    }

    /// The containers when the shop opens, or an error when the settings
    /// cannot be held.
    pub fn new(consts: &Consts) -> (r: Result<Conteiners, ErrorCafeteria>)
        ensures
            r is Ok <==> Self::caben(consts@),
            r is Ok ==> r->Ok_0 == Self::inicial(consts@) && r->Ok_0.wf(),
    {
        if consts.g_granos() > u64::MAX - consts.m_granos_molidos() || consts.l_leche_fria()
            > u64::MAX - consts.e_espuma_leche() {
            return Err(ErrorCafeteria::new("The capacity and the stock of a container are too large"));
        }
        Ok(
            Conteiners {
                agua: Conteiner::Infinity(
                    InfinityConteiner::new(IngredientType::Agua, consts.a_agua_caliente()),
                ),
                cacao: Conteiner::NoRechargable(
                    NoRechargableConteiner::new(IngredientType::Cacao, consts.c_cacao()),
                ),
                cafe_molido: Conteiner::Rechargable(
                    RechargableConteiner::new(
                        IngredientType::CafeMolido,
                        consts.m_granos_molidos(),
                        (IngredientType::GranosCafe, consts.g_granos()),
                    ),
                ),
                leche_espuma: Conteiner::Rechargable(
                    RechargableConteiner::new(
                        IngredientType::EspumaLeche,
                        consts.e_espuma_leche(),
                        (IngredientType::LecheFria, consts.l_leche_fria()),
                    ),
                ),
            },
        )
    }

    /// The container that serves `tipo`, for the one who holds it to work
    /// on; an error for an ingredient that no container serves.
    pub fn lock_for(&self, tipo: IngredientType) -> (r: Result<Conteiner, ErrorCafeteria>)
        ensures
            r is Ok <==> self.casilla(tipo) is Some,
            r is Ok ==> Some(r->Ok_0) == self.casilla(tipo),
    {
        match tipo {
            IngredientType::Agua => Ok(self.agua),
            IngredientType::Cacao => Ok(self.cacao),
            IngredientType::CafeMolido => Ok(self.cafe_molido),
            IngredientType::EspumaLeche => Ok(self.leche_espuma),
            _ => Err(ErrorCafeteria::new("No existe el tipo de ingrediente")),
        }
    }

    /// Puts back the container that serves `tipo`, as the one who held it
    /// leaves it.
    pub fn unlock_for(&mut self, tipo: IngredientType, c: Conteiner)
        ensures
            *final(self) == old(self).con(tipo, c),
    {
        match tipo {
            IngredientType::Agua => {
                self.agua = c;
            },
            IngredientType::Cacao => {
                self.cacao = c;
            },
            IngredientType::CafeMolido => {
                self.cafe_molido = c;
            },
            IngredientType::EspumaLeche => {
                self.leche_espuma = c;
            },
            _ => {},
        }
    }
}

} // verus!
