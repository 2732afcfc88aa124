//! Settings of the shop. Amounts are whole grams.

use crate::decimal::{chars_de, gramos, parse_gramos};
use vstd::prelude::*;

verus! {

/// Seconds that applying one gram takes.
pub const SEGS_POR_GRAMO: u64 = 1;

/// Seconds that reloading a container takes.
pub const SEGS_FOR_RELOAD: u64 = 10;

/// Largest number of dispensers.
pub const LIMIT_DISPENSERS: usize = 1024;

/// The shop warns of a container whose level is below this share of its
/// capacity, in hundredths.
pub const X_ALERT_SYSTEM: u64 = 10;

/// Seconds between two reports of the levels.
pub const TIME_PERIODIC_ALERT: u64 = 10;

/// The capacities of the shop and the number of its dispensers.
#[derive(Debug, Clone, Copy)]
pub struct Consts {
    a_agua_caliente: u64,
    c_cacao: u64,
    e_espuma_leche: u64,
    m_granos_molidos: u64,
    l_leche_fria: u64,
    g_granos: u64,
    n_dispensers: usize,
}

/// The settings as plain values.
pub struct Ajustes {
    /// Capacity of the hot water container.
    pub a_agua_caliente: u64,
    /// Capacity of the cocoa container.
    pub c_cacao: u64,
    /// Capacity of the milk foam container.
    pub e_espuma_leche: u64,
    /// Capacity of the ground coffee container.
    pub m_granos_molidos: u64,
    /// Cold milk to refill the milk foam with.
    pub l_leche_fria: u64,
    /// Beans to refill the ground coffee with.
    pub g_granos: u64,
    /// Number of dispensers.
    pub n_dispensers: usize,
}

/// The amount that a setting gives: what its text spells, or `defecto`
/// when the setting is absent or spells no amount.
pub open spec fn valor_de(texto: Option<Seq<char>>, defecto: u64) -> u64 {
    match texto {
        Some(t) => match gramos(t) {
            Some(v) => v as u64,
            None => defecto,
        },
        None => defecto,
    }
}

/// The number of dispensers that a setting gives: what its text spells, or
/// eight when the setting is absent or spells no number, and in any case
/// no more than the limit.
pub open spec fn dispensers_de(texto: Option<Seq<char>>) -> usize {
    let n = valor_de(texto, 8);
    if n > LIMIT_DISPENSERS {
        LIMIT_DISPENSERS
    } else {
        n as usize
    }
}

/// The text of an optional setting.
pub open spec fn texto_de(valor: Option<&str>) -> Option<Seq<char>> {
    match valor {
        Some(t) => Some(t@),
        None => None,
    }
}

/// Reads a setting.
pub fn leer_valor(valor: Option<&str>, defecto: u64) -> (r: u64)
    ensures
        r == valor_de(texto_de(valor), defecto),
{
    match valor {
        Some(t) => {
            let chars = chars_de(t);
            match parse_gramos(&chars) {
                Some(v) => v,
                None => defecto,
            }
        },
        None => defecto,
    }
}

impl View for Consts {
    type V = Ajustes;

    closed spec fn view(&self) -> Ajustes {
        Ajustes {
            a_agua_caliente: self.a_agua_caliente,
            c_cacao: self.c_cacao,
            e_espuma_leche: self.e_espuma_leche,
            m_granos_molidos: self.m_granos_molidos,
            l_leche_fria: self.l_leche_fria,
            g_granos: self.g_granos,
            n_dispensers: self.n_dispensers,
        }
    }
}

impl Consts {
    /// The settings that the texts give, each absent or unreadable one at
    /// its default: water 500, cocoa 1000, milk foam 700, ground coffee
    /// 500, cold milk 2000, beans 1000, eight dispensers.
    pub fn new(
        a_agua_caliente: Option<&str>,
        c_cacao: Option<&str>,
        e_espuma_leche: Option<&str>,
        m_granos_molidos: Option<&str>,
        l_leche_fria: Option<&str>,
        g_granos: Option<&str>,
        n_dispensers: Option<&str>,
    ) -> (r: Consts)
        ensures
            r@ == (Ajustes {
                a_agua_caliente: valor_de(texto_de(a_agua_caliente), 500),
                c_cacao: valor_de(texto_de(c_cacao), 1000),
                e_espuma_leche: valor_de(texto_de(e_espuma_leche), 700),
                m_granos_molidos: valor_de(texto_de(m_granos_molidos), 500),
                l_leche_fria: valor_de(texto_de(l_leche_fria), 2000),
                g_granos: valor_de(texto_de(g_granos), 1000),
                n_dispensers: dispensers_de(texto_de(n_dispensers)),
            }),
    {
        let n = leer_valor(n_dispensers, 8);
        Consts {
            a_agua_caliente: leer_valor(a_agua_caliente, 500),
            c_cacao: leer_valor(c_cacao, 1000),
            e_espuma_leche: leer_valor(e_espuma_leche, 700),
            m_granos_molidos: leer_valor(m_granos_molidos, 500),
            l_leche_fria: leer_valor(l_leche_fria, 2000),
            g_granos: leer_valor(g_granos, 1000),
            n_dispensers: if n > LIMIT_DISPENSERS as u64 {
                LIMIT_DISPENSERS
            } else {
                n as usize
            },
        }
    }

    /// The settings given as numbers; the number of dispensers is cut at
    /// the limit.
    pub fn con_valores(
        a_agua_caliente: u64,
        c_cacao: u64,
        e_espuma_leche: u64,
        m_granos_molidos: u64,
        l_leche_fria: u64,
        g_granos: u64,
        n_dispensers: usize,
    ) -> (r: Consts)
        ensures
            r@ == (Ajustes {
                a_agua_caliente,
                c_cacao,
                e_espuma_leche,
                m_granos_molidos,
                l_leche_fria,
                g_granos,
                n_dispensers: if n_dispensers > LIMIT_DISPENSERS {
                    LIMIT_DISPENSERS
                } else {
                    n_dispensers
                },
            }),
    {
        Consts {
            a_agua_caliente,
            c_cacao,
            e_espuma_leche,
            m_granos_molidos,
            l_leche_fria,
            g_granos,
            n_dispensers: if n_dispensers > LIMIT_DISPENSERS {
                LIMIT_DISPENSERS
            } else {
                n_dispensers
            },
        }
    }

    /// Capacity of the hot water container.
    pub fn a_agua_caliente(&self) -> (r: u64)
        ensures
            r == self@.a_agua_caliente,
    {
        self.a_agua_caliente
    }

    /// Capacity of the cocoa container.
    pub fn c_cacao(&self) -> (r: u64)
        ensures
            r == self@.c_cacao,
    {
        self.c_cacao
    }

    /// Capacity of the milk foam container.
    pub fn e_espuma_leche(&self) -> (r: u64)
        ensures
            r == self@.e_espuma_leche,
    {
        self.e_espuma_leche
    }

    /// Capacity of the ground coffee container.
    pub fn m_granos_molidos(&self) -> (r: u64)
        ensures
            r == self@.m_granos_molidos,
    {
        self.m_granos_molidos
    }

    /// Cold milk to refill the milk foam with.
    pub fn l_leche_fria(&self) -> (r: u64)
        ensures
            r == self@.l_leche_fria,
    {
        self.l_leche_fria
    }

    /// Beans to refill the ground coffee with.
    pub fn g_granos(&self) -> (r: u64)
        ensures
            r == self@.g_granos,
    {
        self.g_granos
    }

    /// Number of dispensers, never above the limit.
    pub fn n_dispensers(&self) -> (r: usize)
        ensures
            r == self@.n_dispensers,
    {
        self.n_dispensers
    }
}

impl Default for Consts {
    /// The settings when nothing is set.
    fn default() -> (r: Consts)
        ensures
            r@ == (Ajustes {
                a_agua_caliente: 500,
                c_cacao: 1000,
                e_espuma_leche: 700,
                m_granos_molidos: 500,
                l_leche_fria: 2000,
                g_granos: 1000,
                n_dispensers: 8,
            }),
    {
        Consts {
            a_agua_caliente: 500,
            c_cacao: 1000,
            e_espuma_leche: 700,
            m_granos_molidos: 500,
            l_leche_fria: 2000,
            g_granos: 1000,
            n_dispensers: 8,
        }
    }
}

} // verus!
