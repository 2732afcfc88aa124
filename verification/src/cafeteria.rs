//! The shop as a whole: it reads the orders of the day, opens with full
//! containers, serves every order and closes with the report of what
//! became of each.

use crate::conteiners::Conteiners;
use crate::conteiners_states::ContainersStates;
use crate::dispenser::{
    avance, cancelado, completable, en_balance, misma_clase, paso_hecho, pedido_simple, rastro,
    servible, tablero_en_orden, Dispenser, Proceso,
};
use crate::enums::StateOfConteiner;
use crate::traits::{lemma_aplicar, ApplyContainer, ClaseConteiner, ModeloConteiner};
use crate::enums::{IngredientStateOfOrder, IngredientType, OrderState};
use crate::error_dispenser::ErrorCafeteria;
use crate::file_orders::{leer_renglones, ordenes_de, read_orders};
use crate::order::{aplicado_de, FinishedOrders, Order, PendingOrders};
use crate::periodic_alert::{create_and_run_system_alert, PeriodicAlert};
use crate::utils::Consts;
use vstd::prelude::*;

verus! {

/// What a shop opens with.
#[derive(Debug)]
pub struct InitElements {
    /// The orders of the day, in the order of the file.
    pub orders_to_process: Vec<Order>,
    /// The queue towards the dispensers, open and empty.
    pub pending: PendingOrders,
    /// The queue towards the reporter, empty.
    pub finished: FinishedOrders,
    /// The board, with every container free and full.
    pub states: ContainersStates,
    /// The containers, full.
    pub containers: Conteiners,
}

/// What a shop closes with.
#[derive(Debug)]
pub struct Cierre {
    /// The reporter, holding every order of the day as it ended.
    pub system_alert: PeriodicAlert,
    /// The containers as the day left them.
    pub containers: Conteiners,
    /// The board as the day left it.
    pub states: ContainersStates,
}

/// Reads the orders of the day and sets the shop up. It fails when the
/// text spells no orders, or when the settings cannot be held.
pub fn init_elements(contents: &str, consts: &Consts) -> (r: Result<InitElements, ErrorCafeteria>)
    ensures
        r is Ok <==> ordenes_de(contents@) is Some && Conteiners::caben(consts@),
        r is Ok ==> {
            &&& r->Ok_0.orders_to_process@ == ordenes_de(contents@)->0
            &&& r->Ok_0.pending@ == Some(Seq::<Order>::empty())
            &&& r->Ok_0.finished@ == Seq::<Order>::empty()
            &&& r->Ok_0.states == ContainersStates::inicial(consts@)
            &&& r->Ok_0.containers == Conteiners::inicial(consts@)
            &&& r->Ok_0.containers.wf()
        },
{
    let orders = match read_orders(contents) {
        Ok(orders) => orders,
        Err(e) => {
            return Err(e);
        },
    };
    let containers = match Conteiners::new(consts) {
        Ok(c) => c,
        Err(e) => {
            return Err(e);
        },
    };
    Ok(
        InitElements {
            orders_to_process: orders,
            pending: PendingOrders::new(),
            finished: FinishedOrders::new(),
            states: ContainersStates::new(consts),
            containers,
        },
    )
}

/// What the orders from the place `desde` on ask for, of the ingredient
/// `tipo`, all together.
pub open spec fn demanda(pedidos: Seq<Order>, desde: int, tipo: IngredientType) -> nat
    decreases pedidos.len() - desde,
{
    if desde < 0 || desde >= pedidos.len() {
        0
    } else {
        pedidos[desde].falta(tipo) as nat + demanda(pedidos, desde + 1, tipo)
    }
}

/// True when the container can serve every order from the place `desde`
/// on: none asks for more than its capacity and, unless it is refilled
/// from the tap, all of them together ask for no more than it holds, stock
/// included.
pub open spec fn alcanza(m: ModeloConteiner, pedidos: Seq<Order>, desde: int) -> bool {
    &&& forall|j: int|
        desde <= j < pedidos.len() ==> (#[trigger] pedidos[j]).falta(m.tipo) <= m.capacity
    &&& m.clase != ClaseConteiner::Infinito ==> demanda(pedidos, desde, m.tipo) <= m.quantity
        + m.recarga
}

/// True when the shop, as it opens with the settings `c`, can serve every
/// one of the orders `pedidos`: each of its four containers can.
pub open spec fn factible(c: crate::utils::Ajustes, pedidos: Seq<Order>) -> bool {
    &&& alcanza(Conteiners::inicial(c).agua.modelo(), pedidos, 0)
    &&& alcanza(Conteiners::inicial(c).cacao.modelo(), pedidos, 0)
    &&& alcanza(Conteiners::inicial(c).cafe_molido.modelo(), pedidos, 0)
    &&& alcanza(Conteiners::inicial(c).leche_espuma.modelo(), pedidos, 0)
}

/// True when the board tells the truth about a container that nobody
/// holds: it shows it, not as taken, and as unable to serve only if the
/// container and its stock are empty.
pub open spec fn fiel(estados: ContainersStates, m: ModeloConteiner) -> bool {
    estados.principal_conteiners.casilla(m.tipo) matches Some(e) && e.0 != StateOfConteiner::Taken
        && (e.0 == StateOfConteiner::NoEnoughResource ==> m.clase != ClaseConteiner::Infinito
        && m.quantity + m.recarga == 0)
}

/// True when every container can serve the orders from `desde` on, and
/// the board tells the truth about each.
pub open spec fn en_condiciones(
    containers: Conteiners,
    estados: ContainersStates,
    pedidos: Seq<Order>,
    desde: int,
) -> bool {
    &&& alcanza(containers.agua.modelo(), pedidos, desde) && fiel(estados, containers.agua.modelo())
    &&& alcanza(containers.cacao.modelo(), pedidos, desde) && fiel(
        estados,
        containers.cacao.modelo(),
    )
    &&& alcanza(containers.cafe_molido.modelo(), pedidos, desde) && fiel(
        estados,
        containers.cafe_molido.modelo(),
    )
    &&& alcanza(containers.leche_espuma.modelo(), pedidos, desde) && fiel(
        estados,
        containers.leche_espuma.modelo(),
    )
}

/// A container that can serve the orders from `i` on serves the order `i`
/// in full, and can then serve the orders that follow.
pub proof fn lemma_alcanza_paso(
    m: ModeloConteiner,
    estados: ContainersStates,
    pedidos: Seq<Order>,
    i: int,
)
    requires
        m.wf(),
        0 <= i < pedidos.len(),
        alcanza(m, pedidos, i),
        fiel(estados, m),
    ensures
        pedidos[i].falta(m.tipo) > 0 ==> estados.en_estado(m.tipo, StateOfConteiner::Free) && !(
        m.caso(pedidos[i].falta(m.tipo)) is Negar),
        alcanza(m, pedidos, i + 1),
        pedidos[i].falta(m.tipo) > 0 ==> alcanza(
            m.aplicar(pedidos[i].falta(m.tipo)),
            pedidos,
            i + 1,
        ),
        pedidos[i].falta(m.tipo) > 0 ==> m.aplicar(pedidos[i].falta(m.tipo)).estado_publicado()
            != StateOfConteiner::Taken && (m.aplicar(
            pedidos[i].falta(m.tipo),
        ).estado_publicado() == StateOfConteiner::NoEnoughResource ==> m.clase
            != ClaseConteiner::Infinito && m.aplicar(pedidos[i].falta(m.tipo)).quantity
            + m.aplicar(pedidos[i].falta(m.tipo)).recarga == 0),
{
    let need = pedidos[i].falta(m.tipo);
    lemma_aplicar(m, need);
    assert(pedidos[i].falta(m.tipo) <= m.capacity);
    assert(demanda(pedidos, i, m.tipo) == need + demanda(pedidos, i + 1, m.tipo));
}

/// Every order that a file spells asks for positive amounts of the four
/// ingredients of the shop and of nothing else.
pub proof fn lemma_ordenes_simples(rs: Seq<Seq<char>>, i: int)
    requires
        leer_renglones(rs) is Some,
        0 <= i < leer_renglones(rs)->0.len(),
    ensures
        pedido_simple(leer_renglones(rs)->0[i]),
        forall|tipo: IngredientType|
            !crate::order::sin_recurso(#[trigger] leer_renglones(rs)->0[i].entrada(tipo)),
        forall|tipo: IngredientType|
            (#[trigger] leer_renglones(rs)->0[i].falta(tipo)) > 0 ==> tipo
                != IngredientType::LecheFria && tipo != IngredientType::GranosCafe,
        forall|tipo: IngredientType|
            aplicado_de(#[trigger] leer_renglones(rs)->0[i].entrada(tipo)) == 0,
        leer_renglones(rs)->0.len() == rs.len(),
    decreases rs.len(),
{
    if rs.len() > 0 {
        let antes = leer_renglones(rs.drop_last())->0;
        if i < antes.len() {
            lemma_ordenes_simples(rs.drop_last(), i);
        } else {
            if antes.len() > 0 {
                lemma_ordenes_simples(rs.drop_last(), 0);
            }
            let o = leer_renglones(rs)->0[i];
            assert forall|tipo: IngredientType|
                crate::dispenser::entrada_simple(#[trigger] o.entrada(tipo))
                    && !crate::order::sin_recurso(o.entrada(tipo)) && aplicado_de(o.entrada(tipo))
                    == 0 && (o.falta(tipo) > 0 ==> tipo != IngredientType::LecheFria && tipo
                    != IngredientType::GranosCafe) by {
                match tipo {
                    IngredientType::Agua => {},
                    IngredientType::CafeMolido => {},
                    IngredientType::EspumaLeche => {},
                    IngredientType::Cacao => {},
                    IngredientType::LecheFria => {},
                    IngredientType::GranosCafe => {},
                }
            }
        }
        if antes.len() > 0 {
            lemma_ordenes_simples(rs.drop_last(), 0);
        }
    }
}

/// In a shop in condition to serve the orders from `i` on, the order `i`
/// can be completed.
pub proof fn lemma_completable(
    containers: Conteiners,
    estados: ContainersStates,
    pedidos: Seq<Order>,
    i: int,
)
    requires
        containers.wf(),
        0 <= i < pedidos.len(),
        en_condiciones(containers, estados, pedidos, i),
        pedido_simple(pedidos[i]),
        forall|tipo: IngredientType| !crate::order::sin_recurso(#[trigger] pedidos[i].entrada(tipo)),
        forall|tipo: IngredientType|
            (#[trigger] pedidos[i].falta(tipo)) > 0 ==> tipo != IngredientType::LecheFria && tipo
                != IngredientType::GranosCafe,
    ensures
        completable(containers, estados, pedidos[i]),
{
    lemma_alcanza_paso(containers.agua.modelo(), estados, pedidos, i);
    lemma_alcanza_paso(containers.cacao.modelo(), estados, pedidos, i);
    lemma_alcanza_paso(containers.cafe_molido.modelo(), estados, pedidos, i);
    lemma_alcanza_paso(containers.leche_espuma.modelo(), estados, pedidos, i);
    assert forall|tipo: IngredientType| #[trigger]
        servible(containers, estados, pedidos[i], tipo) by {
        match tipo {
            IngredientType::Agua => {},
            IngredientType::CafeMolido => {},
            IngredientType::EspumaLeche => {},
            IngredientType::Cacao => {},
            IngredientType::LecheFria => {
                assert(!(pedidos[i].falta(tipo) > 0));
            },
            IngredientType::GranosCafe => {
                assert(!(pedidos[i].falta(tipo) > 0));
            },
        }
    }
}

/// Once the order `i` is completed, the shop is in condition to serve the
/// orders that follow.
pub proof fn lemma_condiciones_paso(
    antes: Conteiners,
    tablero: ContainersStates,
    pedidos: Seq<Order>,
    i: int,
    containers: Conteiners,
    estados: ContainersStates,
    o: Order,
)
    requires
        antes.wf(),
        containers.wf(),
        0 <= i < pedidos.len(),
        en_condiciones(antes, tablero, pedidos, i),
        forall|tipo: IngredientType| #[trigger]
            paso_hecho(antes, tablero, pedidos[i], containers, estados, o, tipo),
        o.estado_actual() == OrderState::Completed,
    ensures
        en_condiciones(containers, estados, pedidos, i + 1),
{
    lemma_alcanza_paso(antes.agua.modelo(), tablero, pedidos, i);
    lemma_alcanza_paso(antes.cacao.modelo(), tablero, pedidos, i);
    lemma_alcanza_paso(antes.cafe_molido.modelo(), tablero, pedidos, i);
    lemma_alcanza_paso(antes.leche_espuma.modelo(), tablero, pedidos, i);
    assert(paso_hecho(antes, tablero, pedidos[i], containers, estados, o, IngredientType::Agua));
    assert(paso_hecho(antes, tablero, pedidos[i], containers, estados, o, IngredientType::Cacao));
    assert(paso_hecho(
        antes,
        tablero,
        pedidos[i],
        containers,
        estados,
        o,
        IngredientType::CafeMolido,
    ));
    assert(paso_hecho(
        antes,
        tablero,
        pedidos[i],
        containers,
        estados,
        o,
        IngredientType::EspumaLeche,
    ));
    lemma_falta_completada(o, IngredientType::Agua);
    lemma_falta_completada(o, IngredientType::Cacao);
    lemma_falta_completada(o, IngredientType::CafeMolido);
    lemma_falta_completada(o, IngredientType::EspumaLeche);
}

/// A completed order asks for nothing more.
pub proof fn lemma_falta_completada(o: Order, tipo: IngredientType)
    requires
        o.estado_actual() == OrderState::Completed,
    ensures
        o.falta(tipo) == 0,
{
    match tipo {
        IngredientType::Agua => {},
        IngredientType::CafeMolido => {},
        IngredientType::EspumaLeche => {},
        IngredientType::Cacao => {},
        IngredientType::LecheFria => {},
        IngredientType::GranosCafe => {},
    }
}

/// What the turn of one order makes of the shop. Before it the shop
/// stands as `c` and `e` say and the order reads `p`; after it, as `c2`
/// and `e2` say, and the order reads `o`. Each ingredient is untouched or
/// was dealt with once, from the state in which the turn began; nothing
/// was applied that did not come out of a container; the order ends
/// completed exactly if it could be completed when its turn came; an order
/// that a container already refused on the board is cancelled as it
/// stands, with the shop untouched; and no order is cancelled unless an
/// ingredient of it was refused, or the board refuses one it still asks
/// for.
pub open spec fn turno_servido(
    c: Conteiners,
    e: ContainersStates,
    p: Order,
    c2: Conteiners,
    e2: ContainersStates,
    o: Order,
) -> bool {
    &&& avance(p, o)
    &&& en_balance(c, p, c2, o)
    &&& misma_clase(c, c2)
    &&& forall|t: IngredientType| #[trigger] rastro(c, e, p, c2, e2, o, t)
    &&& o.status == if o.estado_actual() == OrderState::Completed {
        OrderState::Completed
    } else {
        OrderState::NoEnoughResourceContainer
    }
    &&& o.status == OrderState::Completed <==> completable(c, e, p)
    &&& p.estado_actual() == OrderState::InProgress && (exists|t: IngredientType| e.niega(p, t))
        ==> o == cancelado(p) && c2 == c && e2 == e
    &&& o.status == OrderState::NoEnoughResourceContainer ==> o.algo_sin_recurso() || exists|
        t: IngredientType,
    | e2.niega(o, t)
}

/// The turn of the order `i` of a day: the shop goes from its state `i`
/// to the next.
pub open spec fn turno_en(
    pedidos: Seq<Order>,
    hechos: Seq<Order>,
    cs: Seq<Conteiners>,
    es: Seq<ContainersStates>,
    i: int,
) -> bool {
    turno_servido(cs[i], es[i], pedidos[i], cs[i + 1], es[i + 1], hechos[i])
}

/// A day of a shop with one dispenser. `cs` and `es` hold the containers
/// and the board before the first order and after each: the shop opens as
/// the settings say, and each order has its turn in the state that the
/// order before it left.
pub open spec fn jornada(
    c: crate::utils::Ajustes,
    pedidos: Seq<Order>,
    hechos: Seq<Order>,
    cs: Seq<Conteiners>,
    es: Seq<ContainersStates>,
) -> bool {
    &&& hechos.len() == pedidos.len()
    &&& cs.len() == pedidos.len() + 1
    &&& es.len() == pedidos.len() + 1
    &&& cs[0] == Conteiners::inicial(c)
    &&& es[0] == ContainersStates::inicial(c)
    &&& forall|i: int| 0 <= i < pedidos.len() ==> #[trigger] turno_en(pedidos, hechos, cs, es, i)
}

/// What the orders have had of the ingredient `tipo`, all together.
pub open spec fn aplicado_total(hechos: Seq<Order>, tipo: IngredientType) -> nat
    decreases hechos.len(),
{
    if hechos.len() == 0 {
        0
    } else {
        aplicado_total(hechos.drop_last(), tipo) + aplicado_de(hechos.last().entrada(tipo)) as nat
    }
}

/// True when the books of the day are in balance: what a container and
/// its stock held when the shop opened is what they hold now plus what
/// the orders have had of it. Water comes from the tap and is not counted.
pub open spec fn cuadra(
    c: crate::utils::Ajustes,
    containers: Conteiners,
    hechos: Seq<Order>,
) -> bool {
    forall|t: IngredientType|
        Conteiners::inicial(c).casilla(t) is Some && Conteiners::inicial(c).casilla(
            t,
        )->0.modelo().clase != ClaseConteiner::Infinito ==> (#[trigger] containers.casilla(
            t,
        ))->0.modelo().existencia() + aplicado_total(hechos, t) == Conteiners::inicial(c).casilla(
            t,
        )->0.modelo().existencia()
}

/// When the books of a day balance, the orders have had of no ingredient
/// more than its container and the stock behind it held when the shop
/// opened. Water comes from the tap and is not counted.
pub proof fn lemma_consumo_del_dia(
    c: crate::utils::Ajustes,
    containers: Conteiners,
    hechos: Seq<Order>,
    t: IngredientType,
)
    requires
        cuadra(c, containers, hechos),
        Conteiners::inicial(c).casilla(t) is Some,
        Conteiners::inicial(c).casilla(t)->0.modelo().clase != ClaseConteiner::Infinito,
    ensures
        aplicado_total(hechos, t) <= Conteiners::inicial(c).casilla(t)->0.modelo().existencia(),
{
    assert(containers.casilla(t)->0.modelo().existencia() + aplicado_total(hechos, t)
        == Conteiners::inicial(c).casilla(t)->0.modelo().existencia());
}

/// The books stay in balance over the turn of one order that had had
/// nothing yet.
pub proof fn lemma_cuadra_paso(
    c: crate::utils::Ajustes,
    c0: Conteiners,
    hechos: Seq<Order>,
    p: Order,
    c1: Conteiners,
    o: Order,
)
    requires
        cuadra(c, c0, hechos),
        misma_clase(Conteiners::inicial(c), c0),
        en_balance(c0, p, c1, o),
        forall|t: IngredientType| aplicado_de(#[trigger] p.entrada(t)) == 0,
    ensures
        cuadra(c, c1, hechos.push(o)),
{
    assert(hechos.push(o).drop_last() =~= hechos);
    assert forall|t: IngredientType|
        Conteiners::inicial(c).casilla(t) is Some && Conteiners::inicial(c).casilla(
            t,
        )->0.modelo().clase != ClaseConteiner::Infinito implies (#[trigger] c1.casilla(
        t,
    ))->0.modelo().existencia() + aplicado_total(hechos.push(o), t) == Conteiners::inicial(
        c,
    ).casilla(t)->0.modelo().existencia() by {
        assert(c0.casilla(t) is Some);
        assert(crate::dispenser::cuenta(c1, o.ingredientes, t) == crate::dispenser::cuenta(
            c0,
            p.ingredientes,
            t,
        ));
        assert(aplicado_de(p.entrada(t)) == 0);
    }
}

/// What the single dispenser promises of an order that ends is what a
/// turn of a day asks for.
pub proof fn lemma_turno_servido(
    c: Conteiners,
    e: ContainersStates,
    p: Order,
    c2: Conteiners,
    e2: ContainersStates,
    o: Order,
)
    requires
        pedido_simple(p),
        avance(p, o),
        en_balance(c, p, c2, o),
        misma_clase(c, c2),
        forall|t: IngredientType| #[trigger] rastro(c, e, p, c2, e2, o, t),
        o.status == OrderState::Completed || o.status == OrderState::NoEnoughResourceContainer,
        o.status == OrderState::Completed ==> o.estado_actual() == OrderState::Completed,
        o.status == OrderState::Completed ==> completable(c, e, p),
        completable(c, e, p) ==> o.status == OrderState::Completed,
        p.estado_actual() == OrderState::InProgress && (exists|t: IngredientType| e.niega(p, t))
            ==> o == cancelado(p) && c2 == c && e2 == e,
        o.status == OrderState::NoEnoughResourceContainer ==> o.algo_sin_recurso() || exists|
            t: IngredientType,
        | e2.niega(o, t),
    ensures
        turno_servido(c, e, p, c2, e2, o),
{
    if o.estado_actual() == OrderState::Completed && o.status
        == OrderState::NoEnoughResourceContainer {
        let t = choose|t: IngredientType| e2.niega(o, t);
        lemma_falta_completada(o, t);
    }
}

/// Runs the day with a single dispenser: every order of the text is
/// served in turn, in the order of the file, and goes to the reporter. It
/// fails, before anything is served, when the text spells no orders or the
/// settings cannot be held. Otherwise the reporter ends up with every
/// order of the file, each dealt with to its end: completed, or cancelled
/// for want of an ingredient. The shop opens as the settings say, each
/// order has its turn in the state that the one before it left, and is
/// completed exactly if it could be completed then. At the end the books
/// balance: what the containers and their stock held at the opening is
/// what they hold at the close plus what the orders have had.
pub fn start(contents: &str, consts: &Consts) -> (r: Result<Cierre, ErrorCafeteria>)
    ensures
        r is Ok <==> ordenes_de(contents@) is Some && Conteiners::caben(consts@),
        r is Ok ==> {
            let pedidos = ordenes_de(contents@)->0;
            let hechos = r->Ok_0.system_alert@.orders;
            &&& r->Ok_0.containers.wf()
            &&& r->Ok_0.system_alert@.total == pedidos.len()
            &&& hechos.len() == pedidos.len()
            &&& forall|i: int|
                0 <= i < pedidos.len() ==> avance(pedidos[i], #[trigger] hechos[i])
            &&& forall|i: int|
                0 <= i < pedidos.len() ==> (#[trigger] hechos[i]).status == OrderState::Completed
                    || hechos[i].status == OrderState::NoEnoughResourceContainer
            &&& forall|i: int|
                0 <= i < pedidos.len() && (#[trigger] hechos[i]).status == OrderState::Completed
                    ==> hechos[i].estado_actual() == OrderState::Completed
            &&& factible(consts@, pedidos) ==> forall|i: int|
                0 <= i < pedidos.len() ==> (#[trigger] hechos[i]).status == OrderState::Completed
            &&& exists|cs: Seq<Conteiners>, es: Seq<ContainersStates>|
                #![auto]
                jornada(consts@, pedidos, hechos, cs, es) && cs.last() == r->Ok_0.containers
                    && es.last() == r->Ok_0.states
            &&& cuadra(consts@, r->Ok_0.containers, hechos)
        },
{
    let init = match init_elements(contents, consts) {
        Ok(init) => init,
        Err(e) => {
            return Err(e);
        },
    };
    let orders = init.orders_to_process;
    let mut finished = init.finished;
    let mut states = init.states;
    let mut containers = init.containers;
    let ghost pedidos = ordenes_de(contents@)->0;
    let mut system_alert = create_and_run_system_alert(orders.len());
    let ghost mut cs = seq![containers];
    let ghost mut es = seq![states];
    let mut i: usize = 0;
    while i < orders.len()
        invariant
            i <= orders@.len(),
            orders@ == pedidos,
            cs.len() == i + 1,
            es.len() == i + 1,
            cs[0] == Conteiners::inicial(consts@),
            es[0] == ContainersStates::inicial(consts@),
            cs[i as int] == containers,
            es[i as int] == states,
            forall|k: int| 0 <= k < i ==> #[trigger] turno_en(pedidos, finished@, cs, es, k),
            misma_clase(Conteiners::inicial(consts@), containers),
            cuadra(consts@, containers, finished@),
            ordenes_de(contents@) == Some(pedidos),
            Conteiners::caben(consts@),
            containers.wf(),
            tablero_en_orden(states),
            finished@.len() == i,
            forall|k: int| 0 <= k < i ==> avance(pedidos[k], #[trigger] finished@[k]),
            forall|k: int|
                0 <= k < i ==> (#[trigger] finished@[k]).status == OrderState::Completed
                    || finished@[k].status == OrderState::NoEnoughResourceContainer,
            forall|k: int|
                0 <= k < i && (#[trigger] finished@[k]).status == OrderState::Completed
                    ==> finished@[k].estado_actual() == OrderState::Completed,
            factible(consts@, pedidos) ==> en_condiciones(containers, states, pedidos, i as int),
            factible(consts@, pedidos) ==> forall|k: int|
                0 <= k < i ==> (#[trigger] finished@[k]).status == OrderState::Completed,
        decreases orders@.len() - i,
    {
        proof {
            lemma_ordenes_simples(crate::file_orders::renglones(contents@), i as int);
            if factible(consts@, pedidos) {
                lemma_completable(containers, states, pedidos, i as int);
            }
        }
        let ghost antes = finished@;
        let ghost c0 = containers;
        let ghost e0 = states;
        match Dispenser::process_order(orders[i], &mut states, &mut finished, &mut containers) {
            Ok(Proceso::Terminado(_)) => {},
            _ => {
                assert(false);
                return Err(ErrorCafeteria::new("An order could not go on"));
            },
        }
        proof {
            let o = finished@[i as int];
            lemma_turno_servido(c0, e0, pedidos[i as int], containers, states, o);
            lemma_cuadra_paso(consts@, c0, antes, pedidos[i as int], containers, o);
            let ghost cs0 = cs;
            let ghost es0 = es;
            cs = cs.push(containers);
            es = es.push(states);
            assert forall|k: int| 0 <= k < i + 1 implies #[trigger] turno_en(
                pedidos,
                finished@,
                cs,
                es,
                k,
            ) by {
                if k < i {
                    assert(turno_en(pedidos, antes, cs0, es0, k));
                    assert(finished@[k] == antes[k]);
                }
            }
            assert forall|k: int| 0 <= k < i + 1 implies avance(
                pedidos[k],
                #[trigger] finished@[k],
            ) by {
                if k < i {
                    assert(finished@[k] == antes[k]);
                }
            }
            if factible(consts@, pedidos) {
                lemma_condiciones_paso(c0, e0, pedidos, i as int, containers, states, finished@[i as int]);
                assert forall|k: int| 0 <= k < i + 1 implies (#[trigger] finished@[k]).status
                    == OrderState::Completed by {
                    if k < i {
                        assert(finished@[k] == antes[k]);
                    }
                }
            }
        }
        i = i + 1;
    }
    let ghost hechos = finished@;
    system_alert.process_finished_orders(&mut finished);
    proof {
        assert(system_alert@.orders + finished@ =~= system_alert@.orders);
        assert(system_alert@.orders == hechos);
        assert(jornada(consts@, pedidos, hechos, cs, es));
        assert(cs.last() == containers && es.last() == states);
    }
    Ok(Cierre { system_alert, containers, states })
}

/// What became of an order: its id and how it ended.
#[derive(Debug, Clone, Copy, PartialEq, Eq, Structural)]
pub struct Resumen {
    pub id: i64,
    pub status: OrderState,
}

/// The closing report of the reporter: what became of each order that it
/// collected, oldest first.
pub fn join_system_alert(system_alert: &PeriodicAlert) -> (r: Vec<Resumen>)
    ensures
        r@.len() == system_alert@.orders.len(),
        forall|i: int|
            0 <= i < r@.len() ==> #[trigger] r@[i] == (Resumen {
                id: system_alert@.orders[i].id,
                status: system_alert@.orders[i].status,
            }),
{
    let orders = system_alert.orders();
    let mut v: Vec<Resumen> = Vec::new();
    let mut i: usize = 0;
    while i < orders.len()
        invariant
            i <= orders@.len(),
            orders@ == system_alert@.orders,
            v@.len() == i,
            forall|k: int|
                0 <= k < i ==> #[trigger] v@[k] == (Resumen {
                    id: orders@[k].id,
                    status: orders@[k].status,
                }),
        decreases orders@.len() - i,
    {
        v.push(Resumen { id: orders[i].id, status: orders[i].status });
        i = i + 1;
    }
    v
}

} // verus!
