//! What a dispenser decides: whether its order can go on, which container
//! to take, and when the order is over. A dispenser serves one order at a
//! time and holds one container at a time.

use crate::conteiners::{Conteiner, Conteiners};
use crate::conteiners_states::ContainersStates;
use crate::enums::{ErrorType, IngredientStateOfOrder, IngredientType, OrderState};
use crate::error_dispenser::ErrorCafeteria;
use crate::order::{aplicado_de, FinishedOrders, Order, PendingOrders, Turno};
use crate::por_ingrediente::PorIngrediente;
use crate::traits::{
    lemma_aplicar, Aplicacion, ApplyContainer, Caso, ClaseConteiner, ModeloConteiner,
};
use vstd::prelude::*;
use vstd::string::*;

verus! {

/// A dispenser, known by its number.
#[derive(Debug, Clone, Copy)]
pub struct Dispenser {
    pub id: usize,
}

/// How the work on an order ended.
#[derive(Debug, Clone, Copy)]
pub enum Proceso {
    /// The order is over and was handed to the reporter.
    Terminado(Order),
    /// The order is as far as it can get for now: every container that it
    /// still needs is taken.
    Detenido(Order),
}

impl Proceso {
    /// The order as the work left it.
    pub open spec fn orden(self) -> Order {
        match self {
            Proceso::Terminado(o) => o,
            Proceso::Detenido(o) => o,
        }
    }
}

/// True when an entry of an order is what it was, or was to be applied and
/// now is applied in its amount or refused.
pub open spec fn avance_de(
    antes: Option<IngredientStateOfOrder>,
    despues: Option<IngredientStateOfOrder>,
) -> bool {
    despues == antes || (antes matches Some(IngredientStateOfOrder::NotApplied(v)) && (despues
        == Some(IngredientStateOfOrder::Applied(v)) || despues == Some(
        IngredientStateOfOrder::NoEnoughResourceContainer,
    )))
}

/// True when `despues` is `antes` further on: the same order, each
/// ingredient as it was or dealt with since.
pub open spec fn avance(antes: Order, despues: Order) -> bool {
    &&& despues.id == antes.id
    &&& avance_entradas(antes.ingredientes, despues.ingredientes)
}

/// True when every entry of `despues` is what it was in `antes`, or was
/// dealt with since.
pub open spec fn avance_entradas(
    antes: PorIngrediente<IngredientStateOfOrder>,
    despues: PorIngrediente<IngredientStateOfOrder>,
) -> bool {
    forall|tipo: IngredientType| avance_de(antes.casilla(tipo), #[trigger] despues.casilla(tipo))
}

/// One if the order still asks for `tipo`, zero if not.
pub open spec fn pide(order: Order, tipo: IngredientType) -> nat {
    if order.falta(tipo) > 0 {
        1
    } else {
        0
    }
}

/// Number of ingredients that the order still asks for.
pub open spec fn pendientes(order: Order) -> nat {
    pide(order, IngredientType::Agua) + pide(order, IngredientType::CafeMolido) + pide(
        order,
        IngredientType::EspumaLeche,
    ) + pide(order, IngredientType::Cacao) + pide(order, IngredientType::LecheFria) + pide(
        order,
        IngredientType::GranosCafe,
    )
}

/// What the container of `tipo` holds, stock included, plus what the order
/// has had of it.
pub open spec fn cuenta(
    containers: Conteiners,
    entradas: PorIngrediente<IngredientStateOfOrder>,
    tipo: IngredientType,
) -> int {
    containers.casilla(tipo)->0.modelo().existencia() + aplicado_de(entradas.casilla(tipo))
}

/// True when a dispenser that works alone leaves the containers and the
/// order in balance: nothing was applied that did not come out of a
/// container, and nothing came out of a container, or of the stock that
/// refills it, that was not applied. Water comes from the tap and is not
/// counted.
pub open spec fn en_balance(
    antes: Conteiners,
    pedido: Order,
    despues: Conteiners,
    servido: Order,
) -> bool {
    forall|tipo: IngredientType|
        antes.casilla(tipo) is Some && antes.casilla(tipo)->0.modelo().clase
            != ClaseConteiner::Infinito ==> #[trigger] cuenta(
            despues,
            servido.ingredientes,
            tipo,
        ) == cuenta(antes, pedido.ingredientes, tipo)
}

/// True unless the entry is to be applied in an amount of zero.
pub open spec fn entrada_simple(e: Option<IngredientStateOfOrder>) -> bool {
    e matches Some(IngredientStateOfOrder::NotApplied(v)) ==> v > 0
}

/// True when everything that the order is still to have is a positive
/// amount of one of the four ingredients that the shop serves.
pub open spec fn pedido_simple(order: Order) -> bool {
    &&& forall|tipo: IngredientType| entrada_simple(#[trigger] order.entrada(tipo))
    &&& !(order.ingredientes.leche_fria matches Some(IngredientStateOfOrder::NotApplied(_)))
    &&& !(order.ingredientes.granos_cafe matches Some(IngredientStateOfOrder::NotApplied(_)))
}

/// True when the board shows each of the four containers, and none of
/// them as taken.
pub open spec fn tablero_en_orden(estados: ContainersStates) -> bool {
    &&& estados.principal_conteiners.agua matches Some(e) && e.0
        != crate::enums::StateOfConteiner::Taken
    &&& estados.principal_conteiners.cafe_molido matches Some(e) && e.0
        != crate::enums::StateOfConteiner::Taken
    &&& estados.principal_conteiners.espuma_leche matches Some(e) && e.0
        != crate::enums::StateOfConteiner::Taken
    &&& estados.principal_conteiners.cacao matches Some(e) && e.0
        != crate::enums::StateOfConteiner::Taken
}

/// True when the order can have its ingredient `tipo`, if it still asks
/// for it: the shop has a container for it, the board shows the container
/// as free, and the container does not refuse the amount.
pub open spec fn servible(
    containers: Conteiners,
    estados: ContainersStates,
    order: Order,
    tipo: IngredientType,
) -> bool {
    order.falta(tipo) > 0 ==> {
        &&& containers.casilla(tipo) is Some
        &&& estados.en_estado(tipo, crate::enums::StateOfConteiner::Free)
        &&& !(containers.casilla(tipo)->0.modelo().caso(order.falta(tipo)) is Negar)
    }
}

/// True when the order can be completed: nothing of it has been refused,
/// and it can have every ingredient that it still asks for.
pub open spec fn completable(containers: Conteiners, estados: ContainersStates, order: Order) -> bool {
    &&& pedido_simple(order)
    &&& forall|tipo: IngredientType| !crate::order::sin_recurso(#[trigger] order.entrada(tipo))
    &&& forall|tipo: IngredientType| #[trigger] servible(containers, estados, order, tipo)
}

/// How the ingredient `tipo` stands while the order `pedido` is being
/// completed. Once dealt with, the order has had the whole amount, and the
/// container and its entry on the board are as serving that amount leaves
/// them. Until then the order, the container and the board are, for this
/// ingredient, as they were.
pub open spec fn paso_hecho(
    antes: Conteiners,
    tablero: ContainersStates,
    pedido: Order,
    containers: Conteiners,
    estados: ContainersStates,
    o: Order,
    tipo: IngredientType,
) -> bool {
    if pedido.falta(tipo) > 0 && o.falta(tipo) == 0 {
        let m = antes.casilla(tipo)->0.modelo().aplicar(pedido.falta(tipo));
        &&& o.entrada(tipo) == Some(IngredientStateOfOrder::Applied(pedido.falta(tipo)))
        &&& containers.casilla(tipo) is Some
        &&& containers.casilla(tipo)->0.modelo() == m
        &&& estados.principal_conteiners.casilla(tipo) == Some((m.estado_publicado(), m.quantity))
    } else {
        &&& o.entrada(tipo) == pedido.entrada(tipo)
        &&& containers.casilla(tipo) == antes.casilla(tipo)
        &&& estados.principal_conteiners.casilla(tipo) == tablero.principal_conteiners.casilla(
            tipo,
        )
    }
}

/// What the work on an order leaves behind for the ingredient `tipo`. As
/// long as the order stands for it as it stood, its container and the
/// entry of the board are as they were. Once it was dealt with, the order
/// had asked for it and the board had shown its container as free; the
/// container was asked once, for the whole amount, and applied it or
/// refused it as its kind and its level said; and the container and its
/// entry on the board are as that one request leaves them.
pub open spec fn rastro(
    antes: Conteiners,
    tablero: ContainersStates,
    pedido: Order,
    containers: Conteiners,
    estados: ContainersStates,
    o: Order,
    tipo: IngredientType,
) -> bool {
    if o.entrada(tipo) == pedido.entrada(tipo) {
        &&& containers.casilla(tipo) == antes.casilla(tipo)
        &&& estados.principal_conteiners.casilla(tipo) == tablero.principal_conteiners.casilla(
            tipo,
        )
    } else {
        let need = pedido.falta(tipo);
        let m0 = antes.casilla(tipo)->0.modelo();
        let m = m0.aplicar(need);
        &&& need > 0
        &&& antes.casilla(tipo) is Some
        &&& tablero.en_estado(tipo, crate::enums::StateOfConteiner::Free)
        &&& o.entrada(tipo) == Some(respuesta(m0, need))
        &&& containers.casilla(tipo) is Some
        &&& containers.casilla(tipo)->0.modelo() == m
        &&& estados.principal_conteiners.casilla(tipo) == Some((m.estado_publicado(), m.quantity))
    }
}

/// What an order reads for an ingredient once the container `m` was asked
/// for `need` grams of it.
pub open spec fn respuesta(m: ModeloConteiner, need: u64) -> IngredientStateOfOrder {
    if m.caso(need) is Negar {
        IngredientStateOfOrder::NoEnoughResourceContainer
    } else {
        IngredientStateOfOrder::Applied(need)
    }
}

/// True when the board speaks only of containers that the shop has.
pub open spec fn tablero_veraz(containers: Conteiners, estados: ContainersStates) -> bool {
    forall|tipo: IngredientType|
        (#[trigger] estados.principal_conteiners.casilla(tipo)) is Some ==> containers.casilla(
            tipo,
        ) is Some
}

/// True when every container is of the kind it was.
pub open spec fn misma_clase(antes: Conteiners, despues: Conteiners) -> bool {
    forall|tipo: IngredientType|
        antes.casilla(tipo) is Some ==> (#[trigger] despues.casilla(tipo)) is Some
            && despues.casilla(tipo)->0.modelo().clase == antes.casilla(tipo)->0.modelo().clase
}

/// The order, cancelled as it stands.
pub open spec fn cancelado(order: Order) -> Order {
    Order { status: OrderState::NoEnoughResourceContainer, ..order }
}

/// One turn at the container of `tipo` keeps the trace of the work: the
/// other ingredients stand as they stood, and this one, untouched until
/// now, was dealt with from the state in which the work began.
pub proof fn lemma_rastro_sigue(
    antes: Conteiners,
    tablero: ContainersStates,
    pedido: Order,
    c0: Conteiners,
    e0: ContainersStates,
    o0: Order,
    c1: Conteiners,
    e1: ContainersStates,
    o1: Order,
    tipo: IngredientType,
)
    requires
        avance(pedido, o0),
        forall|t: IngredientType| #[trigger] rastro(antes, tablero, pedido, c0, e0, o0, t),
        c0.casilla(tipo) is Some,
        e0.sirve(o0, tipo),
        forall|t: IngredientType| t != tipo ==> #[trigger] c1.casilla(t) == c0.casilla(t),
        forall|t: IngredientType|
            t != tipo ==> #[trigger] e1.principal_conteiners.casilla(t)
                == e0.principal_conteiners.casilla(t),
        forall|t: IngredientType| t != tipo ==> #[trigger] o1.entrada(t) == o0.entrada(t),
        ({
            let m0 = c0.casilla(tipo)->0.modelo();
            let m = m0.aplicar(o0.falta(tipo));
            &&& o1.entrada(tipo) == Some(respuesta(m0, o0.falta(tipo)))
            &&& c1.casilla(tipo) is Some
            &&& c1.casilla(tipo)->0.modelo() == m
            &&& e1.principal_conteiners.casilla(tipo) == Some((m.estado_publicado(), m.quantity))
        }),
    ensures
        forall|t: IngredientType| #[trigger] rastro(antes, tablero, pedido, c1, e1, o1, t),
{
    assert forall|t: IngredientType| #[trigger]
        rastro(antes, tablero, pedido, c1, e1, o1, t) by {
        assert(rastro(antes, tablero, pedido, c0, e0, o0, t));
        assert(avance_de(pedido.ingredientes.casilla(t), o0.ingredientes.casilla(t)));
        if t != tipo {
            assert(o1.entrada(t) == o0.entrada(t));
            assert(c1.casilla(t) == c0.casilla(t));
            assert(e1.principal_conteiners.casilla(t) == e0.principal_conteiners.casilla(t));
        } else {
            assert(o0.entrada(tipo) == pedido.entrada(tipo));
        }
    }
}

/// An order that ends completed could be completed when the work on it
/// began: nothing of it had been refused, and every ingredient that it
/// asked for could be had.
pub proof fn lemma_completada_fue_completable(
    antes: Conteiners,
    tablero: ContainersStates,
    pedido: Order,
    containers: Conteiners,
    estados: ContainersStates,
    o: Order,
)
    requires
        pedido_simple(pedido),
        avance(pedido, o),
        forall|t: IngredientType| #[trigger]
            rastro(antes, tablero, pedido, containers, estados, o, t),
        o.estado_actual() == OrderState::Completed,
    ensures
        completable(antes, tablero, pedido),
{
    assert forall|t: IngredientType|
        !crate::order::sin_recurso(#[trigger] o.entrada(t)) && !crate::order::sin_aplicar(
            o.entrada(t),
        ) by {
        match t {
            IngredientType::Agua => {},
            IngredientType::CafeMolido => {},
            IngredientType::EspumaLeche => {},
            IngredientType::Cacao => {},
            IngredientType::LecheFria => {},
            IngredientType::GranosCafe => {},
        }
    }
    assert forall|t: IngredientType| !crate::order::sin_recurso(#[trigger] pedido.entrada(t)) by {
        assert(avance_de(pedido.ingredientes.casilla(t), o.ingredientes.casilla(t)));
        assert(!crate::order::sin_recurso(o.entrada(t)));
    }
    assert forall|t: IngredientType| #[trigger] servible(antes, tablero, pedido, t) by {
        assert(avance_de(pedido.ingredientes.casilla(t), o.ingredientes.casilla(t)));
        assert(rastro(antes, tablero, pedido, containers, estados, o, t));
        assert(!crate::order::sin_aplicar(o.entrada(t)));
        assert(!crate::order::sin_recurso(o.entrada(t)));
    }
}

/// What holds while a dispenser that has the shop to itself works on the
/// order `pedido`, which has come to read `o`: the containers are sound
/// and of the kind they were, the order has only gone forward, the books
/// balance, each ingredient is untouched or was dealt with once, and a
/// board that was in order still is.
pub open spec fn en_curso(
    antes: Conteiners,
    tablero: ContainersStates,
    pedido: Order,
    containers: Conteiners,
    estados: ContainersStates,
    o: Order,
) -> bool {
    &&& containers.wf()
    &&& avance(pedido, o)
    &&& en_balance(antes, pedido, containers, o)
    &&& forall|tipo: IngredientType|
        (#[trigger] containers.casilla(tipo) is Some) == (antes.casilla(tipo) is Some)
    &&& misma_clase(antes, containers)
    &&& pedido_simple(pedido) ==> pedido_simple(o)
    &&& pedido_simple(pedido) && tablero_en_orden(tablero) ==> tablero_en_orden(estados)
    &&& tablero_veraz(antes, tablero) ==> tablero_veraz(containers, estados)
    &&& forall|t: IngredientType| #[trigger]
        rastro(antes, tablero, pedido, containers, estados, o, t)
}

/// What holds while an order is worked on does not depend on the state
/// that the order is marked with.
pub proof fn lemma_en_curso_estado(
    antes: Conteiners,
    tablero: ContainersStates,
    pedido: Order,
    containers: Conteiners,
    estados: ContainersStates,
    o0: Order,
    o1: Order,
)
    requires
        en_curso(antes, tablero, pedido, containers, estados, o0),
        o1.id == o0.id,
        o1.ingredientes == o0.ingredientes,
    ensures
        en_curso(antes, tablero, pedido, containers, estados, o1),
{
    assert forall|t: IngredientType| #[trigger]
        rastro(antes, tablero, pedido, containers, estados, o1, t) by {
        assert(rastro(antes, tablero, pedido, containers, estados, o0, t));
    }
    assert(en_balance(antes, pedido, containers, o1)) by {
        assert forall|t: IngredientType|
            antes.casilla(t) is Some && antes.casilla(t)->0.modelo().clase
                != ClaseConteiner::Infinito implies #[trigger] cuenta(
            containers,
            o1.ingredientes,
            t,
        ) == cuenta(antes, pedido.ingredientes, t) by {
            assert(cuenta(containers, o0.ingredientes, t) == cuenta(
                antes,
                pedido.ingredientes,
                t,
            ));
        }
    }
    if pedido_simple(pedido) {
        assert forall|t: IngredientType| entrada_simple(#[trigger] o1.entrada(t)) by {
            assert(entrada_simple(o0.entrada(t)));
        }
    }
}

/// One turn at the container of `tipo`, which the board showed as free
/// for the order, keeps what holds while the order is worked on, leaves
/// the order one ingredient closer to its end, and marks it with the state
/// that its ingredients give.
pub proof fn lemma_turno_hecho(
    antes: Conteiners,
    tablero: ContainersStates,
    pedido: Order,
    c0: Conteiners,
    e0: ContainersStates,
    o0: Order,
    c1: Conteiners,
    e1: ContainersStates,
    o1: Order,
    tipo: IngredientType,
)
    requires
        antes.wf(),
        en_curso(antes, tablero, pedido, c0, e0, o0),
        c0.casilla(tipo) is Some,
        e0.sirve(o0, tipo),
        c1.wf(),
        ({
            let c = c0.casilla(tipo)->0.modelo();
            let need = o0.falta(tipo);
            &&& c1.casilla(tipo)->0.modelo() == c.aplicar(need)
            &&& c1 == c0.con(tipo, c1.casilla(tipo)->0)
            &&& o1 == (Order { status: c.orden_tras(o0).estado_actual(), ..c.orden_tras(o0) })
            &&& e1 == c.aplicar(need).publicado_en(e0)
        }),
    ensures
        en_curso(antes, tablero, pedido, c1, e1, o1),
        pendientes(o1) < pendientes(o0),
        o1.status == o1.estado_actual(),
{
    let m = c0.casilla(tipo)->0.modelo();
    let need = o0.falta(tipo);
    let m2 = m.aplicar(need);
    lemma_aplicar(m, need);
    lemma_turno(c0, o0, tipo);
    assert forall|t: IngredientType| #[trigger] c1.casilla(t) == if t == tipo {
        c1.casilla(tipo)
    } else {
        c0.casilla(t)
    } by {}
    assert forall|t: IngredientType| #[trigger]
        e1.principal_conteiners.casilla(t) == if t == tipo {
            Some((m2.estado_publicado(), m2.quantity))
        } else {
            e0.principal_conteiners.casilla(t)
        } by {
        e0.principal_conteiners.lemma_con(m2.tipo, (m2.estado_publicado(), m2.quantity), t);
    }
    assert(c1.casilla(tipo) is Some);
    assert(avance_entradas(pedido.ingredientes, o1.ingredientes)) by {
        assert forall|t: IngredientType|
            avance_de(pedido.ingredientes.casilla(t), #[trigger] o1.ingredientes.casilla(t)) by {
            assert(avance_de(pedido.ingredientes.casilla(t), o0.ingredientes.casilla(t)));
            assert(avance_de(o0.entrada(t), m.orden_tras(o0).entrada(t)));
        }
    }
    assert(en_balance(antes, pedido, c1, o1)) by {
        assert forall|t: IngredientType|
            antes.casilla(t) is Some && antes.casilla(t)->0.modelo().clase
                != ClaseConteiner::Infinito implies #[trigger] cuenta(c1, o1.ingredientes, t)
            == cuenta(antes, pedido.ingredientes, t) by {
            assert(cuenta(c0, o0.ingredientes, t) == cuenta(antes, pedido.ingredientes, t));
            assert(c0.casilla(t) is Some);
            assert(c0.casilla(t)->0.modelo().clase == antes.casilla(t)->0.modelo().clase);
            if t != tipo {
                assert(m.orden_tras(o0).entrada(t) == o0.entrada(t));
            }
        }
    }
    assert(misma_clase(antes, c1)) by {
        assert forall|t: IngredientType| antes.casilla(t) is Some implies (#[trigger] c1.casilla(
            t,
        )) is Some && c1.casilla(t)->0.modelo().clase == antes.casilla(t)->0.modelo().clase by {
            assert(c0.casilla(t) is Some);
            assert(c0.casilla(t)->0.modelo().clase == antes.casilla(t)->0.modelo().clase);
        }
    }
    if pedido_simple(o0) {
        assert(pedido_simple(o1)) by {
            assert forall|t: IngredientType| entrada_simple(#[trigger] o1.entrada(t)) by {
                assert(entrada_simple(o0.entrada(t)));
                assert(avance_de(o0.entrada(t), m.orden_tras(o0).entrada(t)));
            }
            assert(avance_de(
                o0.entrada(IngredientType::LecheFria),
                m.orden_tras(o0).entrada(IngredientType::LecheFria),
            ));
            assert(avance_de(
                o0.entrada(IngredientType::GranosCafe),
                m.orden_tras(o0).entrada(IngredientType::GranosCafe),
            ));
        }
        if tablero_en_orden(e0) {
            assert(e1.principal_conteiners.casilla(IngredientType::Agua) is Some);
            assert(e1.principal_conteiners.casilla(IngredientType::CafeMolido) is Some);
            assert(e1.principal_conteiners.casilla(IngredientType::EspumaLeche) is Some);
            assert(e1.principal_conteiners.casilla(IngredientType::Cacao) is Some);
            assert(tablero_en_orden(e1));
        }
    }
    if tablero_veraz(c0, e0) {
        assert forall|t: IngredientType|
            (#[trigger] e1.principal_conteiners.casilla(t)) is Some implies c1.casilla(
            t,
        ) is Some by {
            if t != tipo {
                assert(e0.principal_conteiners.casilla(t) is Some);
            }
        }
    }
    lemma_rastro_sigue(antes, tablero, pedido, c0, e0, o0, c1, e1, o1, tipo);
}

/// While an order that could be completed is worked on, nothing of it is
/// refused: each ingredient is as it was, or was applied in full.
pub proof fn lemma_plan(
    antes: Conteiners,
    tablero: ContainersStates,
    pedido: Order,
    containers: Conteiners,
    estados: ContainersStates,
    o: Order,
)
    requires
        completable(antes, tablero, pedido),
        forall|t: IngredientType| #[trigger]
            rastro(antes, tablero, pedido, containers, estados, o, t),
    ensures
        forall|t: IngredientType| #[trigger]
            paso_hecho(antes, tablero, pedido, containers, estados, o, t),
        forall|t: IngredientType| !crate::order::sin_recurso(#[trigger] o.entrada(t)),
{
    assert forall|t: IngredientType| #[trigger]
        paso_hecho(antes, tablero, pedido, containers, estados, o, t) by {
        assert(rastro(antes, tablero, pedido, containers, estados, o, t));
        assert(servible(antes, tablero, pedido, t));
    }
    assert forall|t: IngredientType| !crate::order::sin_recurso(#[trigger] o.entrada(t)) by {
        assert(rastro(antes, tablero, pedido, containers, estados, o, t));
        assert(servible(antes, tablero, pedido, t));
        assert(!crate::order::sin_recurso(pedido.entrada(t)));
    }
}

/// An order of which nothing was refused is in progress or completed.
pub proof fn lemma_sin_negados(order: Order)
    requires
        forall|tipo: IngredientType| !crate::order::sin_recurso(#[trigger] order.entrada(tipo)),
    ensures
        !order.algo_sin_recurso(),
        order.estado_actual() != OrderState::NoEnoughResourceContainer,
{
    assert(!crate::order::sin_recurso(order.entrada(IngredientType::Agua)));
    assert(!crate::order::sin_recurso(order.entrada(IngredientType::CafeMolido)));
    assert(!crate::order::sin_recurso(order.entrada(IngredientType::EspumaLeche)));
    assert(!crate::order::sin_recurso(order.entrada(IngredientType::Cacao)));
    assert(!crate::order::sin_recurso(order.entrada(IngredientType::LecheFria)));
    assert(!crate::order::sin_recurso(order.entrada(IngredientType::GranosCafe)));
}

/// While an order that can be completed is in progress, it neither waits
/// nor is cancelled, and whatever container is drawn for it serves it.
pub proof fn lemma_completable_sigue(
    antes: Conteiners,
    tablero: ContainersStates,
    pedido: Order,
    containers: Conteiners,
    estados: ContainersStates,
    o: Order,
)
    requires
        completable(antes, tablero, pedido),
        pedido_simple(o),
        forall|t: IngredientType| #[trigger]
            paso_hecho(antes, tablero, pedido, containers, estados, o, t),
        o.estado_actual() == OrderState::InProgress,
    ensures
        !(exists|t: IngredientType| estados.niega(o, t)),
        estados.candidatos(o).len() > 0,
        forall|t: IngredientType| #[trigger]
            estados.sirve(o, t) ==> {
                &&& containers.casilla(t) is Some
                &&& containers.casilla(t) == antes.casilla(t)
                &&& o.falta(t) == pedido.falta(t)
                &&& o.entrada(t) == pedido.entrada(t)
                &&& estados.principal_conteiners.casilla(t) == tablero.principal_conteiners.casilla(
                    t,
                )
                &&& !(antes.casilla(t)->0.modelo().caso(pedido.falta(t)) is Negar)
            },
{
    assert forall|t: IngredientType| o.falta(t) > 0 implies {
        &&& containers.casilla(t) is Some
        &&& containers.casilla(t) == antes.casilla(t)
        &&& o.entrada(t) == pedido.entrada(t)
        &&& estados.principal_conteiners.casilla(t) == tablero.principal_conteiners.casilla(t)
        &&& estados.en_estado(t, crate::enums::StateOfConteiner::Free)
        &&& !(antes.casilla(t)->0.modelo().caso(pedido.falta(t)) is Negar)
    } by {
        assert(paso_hecho(antes, tablero, pedido, containers, estados, o, t));
        assert(servible(antes, tablero, pedido, t));
    }
    assert forall|t: IngredientType| !estados.niega(o, t) by {
        if o.falta(t) > 0 {
            assert(estados.en_estado(t, crate::enums::StateOfConteiner::Free));
        }
    }
    let tipo = if crate::order::sin_aplicar(o.ingredientes.agua) {
        IngredientType::Agua
    } else if crate::order::sin_aplicar(o.ingredientes.cafe_molido) {
        IngredientType::CafeMolido
    } else if crate::order::sin_aplicar(o.ingredientes.espuma_leche) {
        IngredientType::EspumaLeche
    } else if crate::order::sin_aplicar(o.ingredientes.cacao) {
        IngredientType::Cacao
    } else if crate::order::sin_aplicar(o.ingredientes.leche_fria) {
        IngredientType::LecheFria
    } else {
        IngredientType::GranosCafe
    };
    assert(crate::order::sin_aplicar(o.entrada(tipo)));
    assert(entrada_simple(o.entrada(tipo)));
    assert(o.falta(tipo) > 0);
    assert(estados.sirve(o, tipo));
    estados.lemma_candidatos(o, tipo);
}

/// An order that is in progress, on a board that shows no container as
/// taken, either can go on or is cancelled: it does not wait.
pub proof fn lemma_no_espera(estados: ContainersStates, order: Order)
    requires
        pedido_simple(order),
        tablero_en_orden(estados),
        order.estado_actual() == OrderState::InProgress,
    ensures
        (exists|tipo: IngredientType| estados.niega(order, tipo)) || estados.candidatos(
            order,
        ).len() > 0,
        forall|tipo: IngredientType|
            estados.candidatos(order).contains(tipo) ==> tipo != IngredientType::LecheFria && tipo
                != IngredientType::GranosCafe,
{
    let tipo = if crate::order::sin_aplicar(order.ingredientes.agua) {
        IngredientType::Agua
    } else if crate::order::sin_aplicar(order.ingredientes.cafe_molido) {
        IngredientType::CafeMolido
    } else if crate::order::sin_aplicar(order.ingredientes.espuma_leche) {
        IngredientType::EspumaLeche
    } else {
        IngredientType::Cacao
    };
    assert(order.entrada(tipo) matches Some(IngredientStateOfOrder::NotApplied(_)));
    assert(order.falta(tipo) > 0);
    if estados.en_estado(tipo, crate::enums::StateOfConteiner::Free) {
        assert(estados.sirve(order, tipo));
        estados.lemma_candidatos(order, tipo);
    } else {
        assert(estados.niega(order, tipo));
    }
    assert forall|t: IngredientType| estados.candidatos(order).contains(t) implies t
        != IngredientType::LecheFria && t != IngredientType::GranosCafe by {
        estados.lemma_candidatos(order, t);
        assert(order.entrada(IngredientType::LecheFria) == order.ingredientes.leche_fria);
        assert(order.entrada(IngredientType::GranosCafe) == order.ingredientes.granos_cafe);
    }
}

impl Dispenser {
    pub fn new(id: usize) -> (r: Dispenser)
        ensures
            r.id == id,
    {
        Dispenser { id }
    }

    /// The name under which the dispenser signs what it reports.
    pub fn id_dispenser(&self) -> (r: String)
        ensures
            r@ == "[ DISPENSER#"@ + crate::decimal::decimal(self.id as nat) + " ]"@,
    {
        let mut s = "[ DISPENSER#".to_owned();
        crate::decimal::append_decimal(&mut s, self.id as u64);
        s.append(" ]");
        s
    }

    /// Looks at the board for `order`. If a container that the order still
    /// needs can serve nothing more, the order is cancelled and the error
    /// says so. If not, and some container that the order still needs is
    /// free, the order can go on. If neither, the dispenser has to wait for
    /// the board to change.
    pub fn wait_while_containers_states(estados: &ContainersStates, order: &mut Order) -> (r:
        Turno<Result<(), ErrorCafeteria>>)
        ensures
            (exists|tipo: IngredientType| estados.niega(*old(order), tipo)) ==> {
                &&& r matches Turno::Listo(Err(e))
                &&& e.type_error == ErrorType::ContainerWithoutResource
                &&& *final(order) == (Order {
                    status: OrderState::NoEnoughResourceContainer,
                    ..*old(order)
                })
            },
            !(exists|tipo: IngredientType| estados.niega(*old(order), tipo)) ==> {
                &&& *final(order) == *old(order)
                &&& if estados.candidatos(*old(order)).len() > 0 {
                    r matches Turno::Listo(Ok(_))
                } else {
                    r is Esperar
                }
            },
    {
        if estados.container_without_resource_for(order) {
            order.status = OrderState::NoEnoughResourceContainer;
            Turno::Listo(
                Err(
                    ErrorCafeteria::new_of_type(
                        "CANCELLED ORDER. There are no containers with the necessary resources to process the order.",
                        ErrorType::ContainerWithoutResource,
                    ),
                ),
            )
        } else if estados.order_is_processable(order) {
            Turno::Listo(Ok(()))
        } else {
            Turno::Esperar
        }
    }

    /// Takes the container of `tipo`, applies it to the order, releases it
    /// and brings the state of the order up to date: the whole of one turn
    /// at a container, for a dispenser that nobody interrupts. An
    /// ingredient that no container serves is an error, and changes
    /// nothing.
    pub fn apply_container(
        order: &mut Order,
        estados: &mut ContainersStates,
        containers: &mut Conteiners,
        tipo: IngredientType,
    ) -> (r: Result<Aplicacion, ErrorCafeteria>)
        requires
            old(containers).wf(),
        ensures
            final(containers).wf(),
            r is Ok <==> old(containers).casilla(tipo) is Some,
            r is Err ==> *final(order) == *old(order) && *final(estados) == *old(estados)
                && *final(containers) == *old(containers),
            r is Ok ==> {
                let c = old(containers).casilla(tipo)->0.modelo();
                let need = old(order).falta(tipo);
                &&& r->Ok_0 == c.resultado(need)
                &&& final(containers).casilla(tipo)->0.modelo() == c.aplicar(need)
                &&& *final(containers) == old(containers).con(
                    tipo,
                    final(containers).casilla(tipo)->0,
                )
                &&& *final(order) == (Order {
                    status: c.orden_tras(*old(order)).estado_actual(),
                    ..c.orden_tras(*old(order))
                })
                &&& *final(estados) == c.aplicar(need).publicado_en(*old(estados))
            },
    {
        let mut c = match containers.lock_for(tipo) {
            Ok(c) => c,
            Err(e) => {
                return Err(e);
            },
        };
        c.set_taken_state(estados);
        let r = c.apply_ingredient(order);
        c.update_and_notify_state(estados);
        containers.unlock_for(tipo, c);
        order.get_updated_status();
        proof {
            let m = old(containers).casilla(tipo)->0.modelo();
            lemma_aplicar(m, old(order).falta(tipo));
            let e0 = *old(estados);
            let e1 = m.tomado_en(e0);
            let m2 = m.aplicar(old(order).falta(tipo));
            assert(m2.publicado_en(e1).principal_conteiners == m2.publicado_en(
                e0,
            ).principal_conteiners);
        }
        Ok(r)
    }

    /// Works on `order` until it is over, as a dispenser that has the shop
    /// to itself: time and again it looks at the board, draws one of the
    /// free containers that the order still needs, and applies it. The
    /// order is cancelled as soon as a container that it still needs can
    /// serve nothing more. Once over, the order goes to the reporter. The
    /// work stops short only when the order is still in progress and the
    /// board shows none of the containers that it needs as free, and none
    /// as empty.
    pub fn process_order(
        order: Order,
        estados: &mut ContainersStates,
        finished: &mut FinishedOrders,
        containers: &mut Conteiners,
    ) -> (r: Result<Proceso, ErrorCafeteria>)
        requires
            old(containers).wf(),
        ensures
            final(containers).wf(),
            r is Err ==> final(finished)@ == old(finished)@,
            r matches Ok(Proceso::Detenido(o)) ==> {
                &&& final(finished)@ == old(finished)@
                &&& avance(order, o)
                &&& en_balance(*old(containers), order, *final(containers), o)
                &&& o.status == OrderState::InProgress
                &&& o.estado_actual() == OrderState::InProgress
                &&& final(estados).candidatos(o).len() == 0
                &&& !(exists|t: IngredientType| final(estados).niega(o, t))
            },
            r matches Ok(Proceso::Terminado(o)) ==> {
                &&& final(finished)@ == old(finished)@.push(o)
                &&& avance(order, o)
                &&& en_balance(*old(containers), order, *final(containers), o)
                &&& o.status == OrderState::Completed || o.status
                    == OrderState::NoEnoughResourceContainer
                &&& o.status == OrderState::Completed ==> o.estado_actual()
                    == OrderState::Completed
            },
            pedido_simple(order) && tablero_en_orden(*old(estados)) ==> {
                &&& r matches Ok(Proceso::Terminado(_))
                &&& tablero_en_orden(*final(estados))
            },
            completable(*old(containers), *old(estados), order) ==> {
                &&& r matches Ok(Proceso::Terminado(o))
                &&& o.status == OrderState::Completed
                &&& forall|tipo: IngredientType| #[trigger]
                    paso_hecho(
                        *old(containers),
                        *old(estados),
                        order,
                        *final(containers),
                        *final(estados),
                        o,
                        tipo,
                    )
            },
            misma_clase(*old(containers), *final(containers)),
            tablero_veraz(*old(containers), *old(estados)) ==> r is Ok && tablero_veraz(
                *final(containers),
                *final(estados),
            ),
            r matches Ok(p) ==> forall|tipo: IngredientType| #[trigger]
                rastro(
                    *old(containers),
                    *old(estados),
                    order,
                    *final(containers),
                    *final(estados),
                    p.orden(),
                    tipo,
                ),
            pedido_simple(order) ==> (r matches Ok(Proceso::Terminado(o)) ==> (o.status
                == OrderState::Completed ==> completable(
                *old(containers),
                *old(estados),
                order,
            ))),
            r matches Ok(Proceso::Terminado(o)) ==> (o.status
                == OrderState::NoEnoughResourceContainer ==> o.algo_sin_recurso() || exists|
                t: IngredientType,
            | final(estados).niega(o, t)),
            order.estado_actual() == OrderState::InProgress && (exists|t: IngredientType|
                old(estados).niega(order, t)) ==> {
                &&& r matches Ok(Proceso::Terminado(o))
                &&& o == cancelado(order)
                &&& *final(containers) == *old(containers)
                &&& *final(estados) == *old(estados)
            },
    {
        let mut o = order;
        if o.get_updated_status() != OrderState::InProgress {
            proof {
                if pedido_simple(order) && o.status == OrderState::Completed {
                    lemma_completada_fue_completable(
                        *old(containers),
                        *old(estados),
                        order,
                        *containers,
                        *estados,
                        o,
                    );
                }
                if completable(*old(containers), *old(estados), order) {
                    lemma_sin_negados(order);
                    assert forall|t: IngredientType| #[trigger]
                        paso_hecho(
                            *old(containers),
                            *old(estados),
                            order,
                            *containers,
                            *estados,
                            o,
                            t,
                        ) by {
                        assert(!crate::order::sin_aplicar(order.entrada(t))) by {
                            match t {
                                IngredientType::Agua => {},
                                IngredientType::CafeMolido => {},
                                IngredientType::EspumaLeche => {},
                                IngredientType::Cacao => {},
                                IngredientType::LecheFria => {},
                                IngredientType::GranosCafe => {},
                            }
                        }
                    }
                }
            }
            finished.push(o);
            return Ok(Proceso::Terminado(o));
        }
        proof {
            if pedido_simple(order) {
                assert forall|t: IngredientType| entrada_simple(#[trigger] o.entrada(t)) by {
                    assert(entrada_simple(order.entrada(t)));
                }
            }
        }
        let ghost mut primera = true;
        loop
            invariant
                old(containers).wf(),
                finished@ == old(finished)@,
                en_curso(*old(containers), *old(estados), order, *containers, *estados, o),
                o.status == OrderState::InProgress,
                o.estado_actual() == OrderState::InProgress,
                order.estado_actual() == OrderState::InProgress,
                primera ==> o.ingredientes == order.ingredientes && *containers == *old(containers)
                    && *estados == *old(estados),
                !primera ==> !(exists|t: IngredientType| old(estados).niega(order, t)),
            decreases pendientes(o),
        {
            let ghost plan = completable(*old(containers), *old(estados), order);
            proof {
                if primera {
                    assert forall|t: IngredientType|
                        estados.niega(o, t) == old(estados).niega(order, t) by {}
                }
                if pedido_simple(o) && tablero_en_orden(*estados) {
                    lemma_no_espera(*estados, o);
                }
                if plan {
                    lemma_plan(*old(containers), *old(estados), order, *containers, *estados, o);
                    lemma_completable_sigue(
                        *old(containers),
                        *old(estados),
                        order,
                        *containers,
                        *estados,
                        o,
                    );
                }
            }
            let ghost o0 = o;
            let ghost c0 = *containers;
            let ghost e0 = *estados;
            match Self::wait_while_containers_states(estados, &mut o) {
                Turno::Esperar => {
                    return Ok(Proceso::Detenido(o));
                },
                Turno::Listo(Err(e)) => {
                    if e.type_error == ErrorType::ContainerWithoutResource {
                        proof {
                            let t = choose|t: IngredientType| estados.niega(o0, t);
                            assert(estados.niega(o, t));
                            lemma_en_curso_estado(
                                *old(containers),
                                *old(estados),
                                order,
                                *containers,
                                *estados,
                                o0,
                                o,
                            );
                        }
                        finished.push(o);
                        return Ok(Proceso::Terminado(o));
                    } else {
                        return Err(e);
                    }
                },
                Turno::Listo(Ok(_)) => {},
            }
            proof {
                primera = false;
            }
            let tipo = match estados.find_rng_any_container_free_for(&o) {
                Ok(tipo) => tipo,
                Err(e) => {
                    return Err(e);
                },
            };
            proof {
                assert(e0.sirve(o0, tipo));
                if tablero_veraz(c0, e0) {
                    assert(e0.principal_conteiners.casilla(tipo) is Some);
                }
            }
            match Self::apply_container(&mut o, estados, containers, tipo) {
                Ok(_) => {},
                Err(e) => {
                    return Err(e);
                },
            }
            proof {
                lemma_turno_hecho(
                    *old(containers),
                    *old(estados),
                    order,
                    c0,
                    e0,
                    o0,
                    *containers,
                    *estados,
                    o,
                    tipo,
                );
            }
            if o.status != OrderState::InProgress {
                proof {
                    if pedido_simple(order) && o.status == OrderState::Completed {
                        lemma_completada_fue_completable(
                            *old(containers),
                            *old(estados),
                            order,
                            *containers,
                            *estados,
                            o,
                        );
                    }
                    if plan {
                        lemma_plan(*old(containers), *old(estados), order, *containers, *estados, o);
                        lemma_sin_negados(o);
                    }
                }
                finished.push(o);
                return Ok(Proceso::Terminado(o));
            }
        }
    }

    /// Hands an order that is over to the reporter, unless the queue holds
    /// more orders than there are dispensers: then the dispenser has to
    /// wait for the reporter to take one.
    pub fn notify_order_finished(order: Order, cola: &mut FinishedOrders, n_dispensers: usize) -> (r:
        Turno<()>)
        ensures
            old(cola)@.len() > n_dispensers ==> r is Esperar && final(cola)@ == old(cola)@,
            old(cola)@.len() <= n_dispensers ==> r is Listo && final(cola)@ == old(cola)@.push(
                order,
            ),
    {
        if cola.len() > n_dispensers {
            Turno::Esperar
        } else {
            cola.push(order);
            Turno::Listo(())
        }
    }

    /// Takes the next order for a dispenser: the oldest of the queue. An
    /// empty queue makes the dispenser wait; a closed one tells it to stop.
    pub fn wait_pedido(cola: &mut PendingOrders) -> (r: Turno<Option<Order>>)
        ensures
            match old(cola)@ {
                Some(s) => if s.len() > 0 {
                    r == Turno::Listo(Some(s[0])) && final(cola)@ == Some(s.drop_first())
                } else {
                    r is Esperar && final(cola)@ == old(cola)@
                },
                None => r == Turno::<Option<Order>>::Listo(None) && final(cola)@ is None,
            },
    {
        if cola.cerrada() {
            return Turno::Listo(None);
        }
        match cola.pop() {
            Some(o) => Turno::Listo(Some(o)),
            None => Turno::Esperar,
        }
    }
}

/// One turn at a free container that the order still needs deals with that
/// ingredient and with no other, keeps the books of every container, and
/// leaves the order one ingredient closer to its end.
pub proof fn lemma_turno(containers: Conteiners, order: Order, tipo: IngredientType)
    requires
        containers.wf(),
        containers.casilla(tipo) is Some,
        order.falta(tipo) > 0,
    ensures
        ({
            let c = containers.casilla(tipo)->0.modelo();
            let o = c.orden_tras(order);
            &&& o.id == order.id
            &&& forall|t: IngredientType| avance_de(order.entrada(t), #[trigger] o.entrada(t))
            &&& o.falta(tipo) == 0
            &&& o.entrada(tipo) == Some(respuesta(c, order.falta(tipo)))
            &&& forall|t: IngredientType| t != tipo ==> #[trigger] o.entrada(t) == order.entrada(t)
            &&& pendientes(o) < pendientes(order)
            &&& c.clase != ClaseConteiner::Infinito ==> c.aplicar(order.falta(tipo)).existencia()
                + aplicado_de(o.entrada(tipo)) == c.existencia() + aplicado_de(order.entrada(tipo))
        }),
{
    let c = containers.casilla(tipo)->0.modelo();
    let o = c.orden_tras(order);
    assert(c.tipo == tipo);
    lemma_aplicar(c, order.falta(tipo));
    assert forall|t: IngredientType| #[trigger] o.entrada(t) == if t == tipo {
        o.entrada(tipo)
    } else {
        order.entrada(t)
    } by {
        match c.caso(order.falta(tipo)) {
            Caso::Nada => {},
            Caso::Negar => {
                order.ingredientes.lemma_con(
                    tipo,
                    IngredientStateOfOrder::NoEnoughResourceContainer,
                    t,
                );
            },
            _ => {
                order.ingredientes.lemma_con(
                    tipo,
                    IngredientStateOfOrder::Applied(order.falta(tipo)),
                    t,
                );
            },
        }
    }
    assert(o.entrada(IngredientType::Agua) == if IngredientType::Agua == tipo {
        o.entrada(tipo)
    } else {
        order.entrada(IngredientType::Agua)
    });
    assert(o.entrada(IngredientType::CafeMolido) == if IngredientType::CafeMolido == tipo {
        o.entrada(tipo)
    } else {
        order.entrada(IngredientType::CafeMolido)
    });
    assert(o.entrada(IngredientType::EspumaLeche) == if IngredientType::EspumaLeche == tipo {
        o.entrada(tipo)
    } else {
        order.entrada(IngredientType::EspumaLeche)
    });
    assert(o.entrada(IngredientType::Cacao) == if IngredientType::Cacao == tipo {
        o.entrada(tipo)
    } else {
        order.entrada(IngredientType::Cacao)
    });
    assert(o.entrada(IngredientType::LecheFria) == if IngredientType::LecheFria == tipo {
        o.entrada(tipo)
    } else {
        order.entrada(IngredientType::LecheFria)
    });
    assert(o.entrada(IngredientType::GranosCafe) == if IngredientType::GranosCafe == tipo {
        o.entrada(tipo)
    } else {
        order.entrada(IngredientType::GranosCafe)
    });
}

/// Closes the queue of orders once it is empty, which tells every
/// dispenser to stop; while orders are left in it, the shop has to wait.
pub fn send_signal_poweroff_to_dispensers(cola: &mut PendingOrders) -> (r: Turno<()>)
    ensures
        match old(cola)@ {
            Some(s) => if s.len() > 0 {
                r is Esperar && final(cola)@ == old(cola)@
            } else {
                r is Listo && final(cola)@ is None
            },
            None => r is Listo && final(cola)@ is None,
        },
{
    if cola.len() > 0 {
        Turno::Esperar
    } else {
        cola.cerrar();
        Turno::Listo(())
    }
}

/// The dispensers of a shop, numbered from zero.
pub fn create_and_run_dispensers(n_dispensers: usize) -> (r: Vec<Dispenser>)
    ensures
        r@.len() == n_dispensers,
        forall|i: int| 0 <= i < n_dispensers ==> (#[trigger] r@[i]).id == i,
{
    let mut dispensers: Vec<Dispenser> = Vec::new();
    let mut i: usize = 0;
    while i < n_dispensers
        invariant
            i <= n_dispensers,
            dispensers@.len() == i,
            forall|j: int| 0 <= j < i ==> (#[trigger] dispensers@[j]).id == j,
        decreases n_dispensers - i,
    {
        dispensers.push(Dispenser::new(i));
        i = i + 1;
    }
    dispensers
}

} // verus!
