//! A table with one slot for each kind of ingredient. The kinds are six
//! and fixed, so the table is a record with a field for each: it is copied
//! and compared as a whole, like the orders and the boards that hold one.
//!
//! A hash map with the kind as its key would not do here. What such a map
//! holds after an insertion is known only for keys whose hashing is known
//! to behave; that is known of numbers, and not of a type like
//! `IngredientType`, so nothing could be proved of an order or a board
//! kept in one.

use crate::enums::IngredientType;
use vstd::prelude::*;

verus! {

/// One optional value for each kind of ingredient.
#[derive(Debug, Clone, Copy)]
pub struct PorIngrediente<T> {
    pub agua: Option<T>,
    pub cafe_molido: Option<T>,
    pub espuma_leche: Option<T>,
    pub cacao: Option<T>,
    pub leche_fria: Option<T>,
    pub granos_cafe: Option<T>,
}

impl<T: Copy> PorIngrediente<T> {
    /// The slot of the kind `tipo`.
    pub open spec fn casilla(&self, tipo: IngredientType) -> Option<T> {
        match tipo {
            IngredientType::Agua => self.agua,
            IngredientType::CafeMolido => self.cafe_molido,
            IngredientType::EspumaLeche => self.espuma_leche,
            IngredientType::Cacao => self.cacao,
            IngredientType::LecheFria => self.leche_fria,
            IngredientType::GranosCafe => self.granos_cafe,
        }
    }

    /// The table with `valor` in the slot of `tipo`.
    pub open spec fn con(self, tipo: IngredientType, valor: T) -> PorIngrediente<T> {
        match tipo {
            IngredientType::Agua => PorIngrediente { agua: Some(valor), ..self },
            IngredientType::CafeMolido => PorIngrediente { cafe_molido: Some(valor), ..self },
            IngredientType::EspumaLeche => PorIngrediente { espuma_leche: Some(valor), ..self },
            IngredientType::Cacao => PorIngrediente { cacao: Some(valor), ..self },
            IngredientType::LecheFria => PorIngrediente { leche_fria: Some(valor), ..self },
            IngredientType::GranosCafe => PorIngrediente { granos_cafe: Some(valor), ..self },
        }
    }

    /// The empty table.
    pub open spec fn vacio() -> PorIngrediente<T> {
        PorIngrediente {
            agua: None,
            cafe_molido: None,
            espuma_leche: None,
            cacao: None,
            leche_fria: None,
            granos_cafe: None,
        }
    }

    /// Filling a slot changes that slot and no other.
    pub proof fn lemma_con(self, tipo: IngredientType, valor: T, otro: IngredientType)
        ensures
            self.con(tipo, valor).casilla(otro) == if otro == tipo {
                Some(valor)
            } else {
                self.casilla(otro)
            },
    {
    }

    pub fn new() -> (r: Self)
        ensures
            r == Self::vacio(),
    {
        PorIngrediente {
            agua: None,
            cafe_molido: None,
            espuma_leche: None,
            cacao: None,
            leche_fria: None,
            granos_cafe: None,
        }
    }

    pub fn get(&self, tipo: IngredientType) -> (r: Option<T>)
        ensures
            r == self.casilla(tipo),
    {
        match tipo {
            IngredientType::Agua => self.agua,
            IngredientType::CafeMolido => self.cafe_molido,
            IngredientType::EspumaLeche => self.espuma_leche,
            IngredientType::Cacao => self.cacao,
            IngredientType::LecheFria => self.leche_fria,
            IngredientType::GranosCafe => self.granos_cafe,
        }
    }

    pub fn contains_key(&self, tipo: IngredientType) -> (r: bool)
        ensures
            r == self.casilla(tipo) is Some,
    {
        self.get(tipo).is_some()
    }

    pub fn insert(&mut self, tipo: IngredientType, valor: T)
        ensures
            *final(self) == old(self).con(tipo, valor),
    {
        match tipo {
            IngredientType::Agua => {
                self.agua = Some(valor);
            },
            IngredientType::CafeMolido => {
                self.cafe_molido = Some(valor);
            },
            IngredientType::EspumaLeche => {
                self.espuma_leche = Some(valor);
            },
            IngredientType::Cacao => {
                self.cacao = Some(valor);
            },
            IngredientType::LecheFria => {
                self.leche_fria = Some(valor);
            },
            IngredientType::GranosCafe => {
                self.granos_cafe = Some(valor);
            },
        }
    }
}

} // verus!
