//! The leader's side of the two-phase commit. The coordinator takes the
//! records of its followers one by one and answers each with the records
//! to send; whoever runs it performs them in order.
//!
//! Deductions on one account are taken one at a time: each waits in the
//! queue of its account until it is the oldest there. Credits only raise a
//! balance and take no queue.

use crate::decimal::{decimal, decimal_string};
use crate::server::mensaje::{
    Abort, Commit, CommitType, Execute, Finish, MensajeBytes, OkeyAbortToCoordinator,
    OkeyToCoordinator, PingCord, Prepare, Starter, Yes,
};
use crate::server::colas::Colas;
use crate::server::libro::Libro;
use vstd::prelude::*;

verus! {

/// Tells the leader that its follower `id_nodo` has gone.
#[derive(Debug, Clone, Copy)]
pub struct DisconnectNodo {
    pub id_nodo: u8,
}

/// Tells the leader to leave the network: it drops every follower and
/// forgets every transaction.
#[derive(Debug, Clone, Copy)]
pub struct Disconnect {
    pub tipo_mensaje: u8,
}

/// Tells the leader whether it is on the network.
#[derive(Debug, Clone, Copy)]
pub struct SetState {
    pub estado: bool,
}

/// The line of a message that has a kind and nothing else.
pub trait DisconnectToString {
    spec fn spec_tipo_mensaje(&self) -> u8;

    /// The kind alone, in decimal.
    fn to_string(&self) -> (r: String)
        ensures
            r@ == decimal(self.spec_tipo_mensaje() as nat),
    ;

    fn get_tipo_mensaje(&self) -> (r: u8)
        ensures
            r == self.spec_tipo_mensaje(),
    ;
}

impl DisconnectToString for Disconnect {
    open spec fn spec_tipo_mensaje(&self) -> u8 {
        self.tipo_mensaje
    }

    fn get_tipo_mensaje(&self) -> (r: u8) {
        self.tipo_mensaje
    }

    fn to_string(&self) -> (r: String) {
        decimal_string(self.tipo_mensaje as u64)
    }
}

/// Where a transaction stands at the leader.
#[derive(Debug, Clone, Copy, PartialEq, Eq, Hash, Structural)]
pub enum TransactionState {
    /// Filed, waiting in the queue of its account.
    Uninitialized,
    /// Every follower has been called to prepare.
    Wait,
    /// Every follower has answered; the node where it started may go on.
    Execute,
    /// The commit has been sent to every follower.
    Commit,
    /// Called off.
    Abort,
    /// Committed by every follower.
    Done,
}

/// A transaction as the leader sees it.
pub struct Transaccion {
    pub id: u32,
    pub status: TransactionState,
    /// Followers that have answered the call to prepare.
    pub yes_nodos: Seq<u8>,
    /// Followers that have answered the commit, or the abort.
    pub ok_nodos: Seq<u8>,
    /// Node where the transaction started.
    pub from_id_nodo: u8,
    pub id_cuenta: u32,
    pub tipo: CommitType,
    /// Machine that placed the request.
    pub id_cafetera: u8,
}

/// A deduction waiting in the queue of its account.
#[derive(Debug, Clone, Copy)]
pub struct EnCola {
    pub id_cuenta: u32,
    pub id_transaccion: u32,
}

/// What the leader writes to a follower.
#[derive(Debug, Clone, Copy)]
pub enum RegistroCoordinador {
    Prepare(Prepare),
    Execute(Execute),
    Commit(Commit),
    Abort(Abort),
}

/// What reaches the leader: what a follower writes to it, read from its
/// line, and the news of the streams and of the network.
#[derive(Debug, Clone, Copy)]
pub enum Entrada {
    Starter(Starter),
    Yes(Yes),
    Ping(PingCord),
    Finish(Finish),
    Okey(OkeyToCoordinator),
    OkeyAbort(OkeyAbortToCoordinator),
    Abort(Abort),
    Disconnect(Disconnect),
    /// A line of a kind that the leader does not act on.
    Desconocido,
    /// The follower `id_nodo` has connected.
    AddNodo { id_nodo: u8 },
    /// The stream of a follower has ended.
    DisconnectNodo(DisconnectNodo),
    /// The leader is on or off the network.
    SetState(SetState),
}

/// One thing to do for the leader, in the order given.
#[derive(Debug, Clone, Copy)]
pub enum AccionCoordinador {
    /// Write the record, and an end of line, to the follower `id_nodo`.
    Enviar { id_nodo: u8, registro: RegistroCoordinador },
    /// Close the stream to the follower `id_nodo`.
    Shutdown { id_nodo: u8 },
}

impl RegistroCoordinador {
    /// The line of the record, without its end of line.
    pub open spec fn spec_texto(&self) -> Seq<char> {
        match self {
            RegistroCoordinador::Prepare(m) => crate::server::registro::registro(
                m.tipo_mensaje,
                m.id_nodo,
                m.id_cuenta,
                m.id_transaccion,
                m.id_cafetera,
            ),
            RegistroCoordinador::Execute(m) => crate::server::registro::registro(
                m.tipo_mensaje,
                m.id_nodo,
                m.id_cuenta,
                m.id_transaccion,
                m.id_cafetera,
            ),
            RegistroCoordinador::Commit(m) => crate::server::registro::registro_largo(
                m.tipo_mensaje,
                m.id_nodo,
                m.id_cuenta,
                m.id_transaccion,
                m.tipo.spec_to_bytes(),
                m.cantidad,
                m.id_cafetera,
            ),
            RegistroCoordinador::Abort(m) => crate::server::registro::registro(
                m.tipo_mensaje,
                m.id_nodo,
                m.id_cuenta,
                m.id_transaccion,
                m.id_cafetera,
            ),
        }
    }

    pub fn to_string(&self) -> (r: String)
        ensures
            r@ == self.spec_texto(),
    {
        match self {
            RegistroCoordinador::Prepare(m) => m.to_string(),
            RegistroCoordinador::Execute(m) => m.to_string(),
            RegistroCoordinador::Commit(m) => m.set_to_string(),
            RegistroCoordinador::Abort(m) => m.to_string(),
        }
    }
}

/// The place of the first item of `s` that satisfies `p`, or the length of
/// `s` if none does.
pub open spec fn primero<T>(s: Seq<T>, p: spec_fn(T) -> bool) -> int
    decreases s.len(),
{
    if s.len() == 0 {
        0
    } else if p(s[0]) {
        0
    } else {
        1 + primero(s.drop_first(), p)
    }
}

/// `primero` is a place of `s` or its length; nothing before it satisfies
/// `p`, and the item there does.
pub proof fn lemma_primero<T>(s: Seq<T>, p: spec_fn(T) -> bool)
    ensures
        0 <= primero(s, p) <= s.len(),
        forall|j: int| 0 <= j < primero(s, p) ==> !p(#[trigger] s[j]),
        primero(s, p) < s.len() ==> p(s[primero(s, p)]),
    decreases s.len(),
{
    if s.len() > 0 && !p(s[0]) {
        let r = s.drop_first();
        lemma_primero(r, p);
        assert forall|j: int| 0 <= j < primero(s, p) implies !p(#[trigger] s[j]) by {
            if j > 0 {
                assert(s[j] == r[j - 1]);
            }
        }
    }
}

/// The place that `lemma_primero` describes is the only one.
pub proof fn lemma_primero_unico<T>(s: Seq<T>, p: spec_fn(T) -> bool, i: int)
    requires
        0 <= i <= s.len(),
        forall|j: int| 0 <= j < i ==> !p(#[trigger] s[j]),
        i < s.len() ==> p(s[i]),
    ensures
        i == primero(s, p),
{
    lemma_primero(s, p);
    let q = primero(s, p);
    if q < i {
        assert(!p(s[q]));
    } else if i < q {
        assert(!p(s[i]));
    }
}

/// The test "has the id `id`".
pub open spec fn con_id(id: u32) -> spec_fn(Transaccion) -> bool {
    |t: Transaccion| t.id == id
}

/// The test "waits for the account `id_cuenta`".
pub open spec fn de_cuenta(id_cuenta: u32) -> spec_fn(EnCola) -> bool {
    |e: EnCola| e.id_cuenta == id_cuenta
}

/// The test "is the queue entry of the transaction `id`".
pub open spec fn de_transaccion(id: u32) -> spec_fn(EnCola) -> bool {
    |e: EnCola| e.id_transaccion == id
}

/// The votes with `n` among them.
pub open spec fn anotar(votos: Seq<u8>, n: u8) -> Seq<u8> {
    if votos.contains(n) {
        votos
    } else {
        votos.push(n)
    }
}

/// True when every follower of `nodos` is among `votos`.
pub open spec fn todos(nodos: Seq<u8>, votos: Seq<u8>) -> bool {
    forall|i: int| 0 <= i < nodos.len() ==> votos.contains(#[trigger] nodos[i])
}

/// The followers without `n`, in their order.
pub open spec fn sin_nodo(nodos: Seq<u8>, n: u8) -> Seq<u8>
    decreases nodos.len(),
{
    if nodos.len() == 0 {
        Seq::<u8>::empty()
    } else if nodos.last() == n {
        sin_nodo(nodos.drop_last(), n)
    } else {
        sin_nodo(nodos.drop_last(), n).push(nodos.last())
    }
}

/// The queue of the account `id_cuenta`: the ids that wait for it in
/// `cola`, oldest first.
pub open spec fn cola_de(cola: Seq<EnCola>, id_cuenta: u32) -> Seq<u32>
    decreases cola.len(),
{
    if cola.len() == 0 {
        Seq::<u32>::empty()
    } else if cola.last().id_cuenta == id_cuenta {
        cola_de(cola.drop_last(), id_cuenta).push(cola.last().id_transaccion)
    } else {
        cola_de(cola.drop_last(), id_cuenta)
    }
}

/// The same record for every follower, in their order.
pub open spec fn difundir(nodos: Seq<u8>, registro: RegistroCoordinador) -> Seq<
    AccionCoordinador,
> {
    Seq::new(nodos.len(), |i: int| AccionCoordinador::Enviar { id_nodo: nodos[i], registro })
}

/// The queue without the entry of the transaction `id`.
pub open spec fn quitar(cola: Seq<EnCola>, id: u32) -> Seq<EnCola> {
    let i = primero(cola, de_transaccion(id));
    if i < cola.len() {
        cola.remove(i)
    } else {
        cola
    }
}

/// True while a transaction is neither committed by all nor called off.
pub open spec fn viva(status: TransactionState) -> bool {
    status != TransactionState::Abort && status != TransactionState::Done
}

/// The call that aborts the transaction `t`.
pub open spec fn abort_de(t: Transaccion) -> RegistroCoordinador {
    RegistroCoordinador::Abort(Abort::spec_new(t.from_id_nodo, t.id_cuenta, t.id, t.id_cafetera))
}

/// Calls off, among the first `n` transactions, every live one that
/// started at the node `origen`, oldest first, and tells every follower of
/// `nodos` of each.
pub open spec fn abortar_de(ts: Seq<Transaccion>, n: int, origen: u8, nodos: Seq<u8>) -> (
    Seq<Transaccion>,
    Seq<AccionCoordinador>,
)
    decreases n,
{
    if n <= 0 {
        (ts, Seq::<AccionCoordinador>::empty())
    } else {
        let (t1, a) = abortar_de(ts, n - 1, origen, nodos);
        let t = t1[n - 1];
        if t.from_id_nodo == origen && viva(t.status) {
            (
                t1.update(
                    n - 1,
                    Transaccion { status: TransactionState::Abort, ok_nodos: Seq::empty(), ..t },
                ),
                a + difundir(nodos, abort_de(t)),
            )
        } else {
            (t1, a)
        }
    }
}

/// What the leader knows, as plain mathematics.
pub struct EstadoCoordinador {
    /// The followers with a stream to the leader, oldest first.
    pub nodos: Seq<u8>,
    /// The transactions, oldest first.
    pub transacciones: Seq<Transaccion>,
    /// The deductions that wait or are under way, oldest first. The queue
    /// of an account is made of the entries that name it.
    pub cola: Seq<EnCola>,
    /// Whether the leader is on the network.
    pub conectado: bool,
}

impl EstadoCoordinador {
    /// The place of the transaction `id`, or the number of transactions.
    pub open spec fn indice(self, id: u32) -> int {
        primero(self.transacciones, con_id(id))
    }

    /// Starts the oldest deduction of the account `id_cuenta` if it has
    /// not started yet: it goes to `Wait` and every follower is called to
    /// prepare.
    pub open spec fn avanzar(self, id_cuenta: u32) -> (EstadoCoordinador, Seq<AccionCoordinador>) {
        let c = primero(self.cola, de_cuenta(id_cuenta));
        if c < self.cola.len() {
            let i = self.indice(self.cola[c].id_transaccion);
            if i < self.transacciones.len() && self.transacciones[i].status
                == TransactionState::Uninitialized {
                let t = self.transacciones[i];
                (
                    EstadoCoordinador {
                        transacciones: self.transacciones.update(
                            i,
                            Transaccion { status: TransactionState::Wait, ..t },
                        ),
                        ..self
                    },
                    difundir(
                        self.nodos,
                        RegistroCoordinador::Prepare(
                            Prepare::spec_new(t.from_id_nodo, t.id_cuenta, t.id, t.id_cafetera),
                        ),
                    ),
                )
            } else {
                (self, Seq::<AccionCoordinador>::empty())
            }
        } else {
            (self, Seq::<AccionCoordinador>::empty())
        }
    }

    /// A follower has connected.
    pub open spec fn add_nodo(self, id_nodo: u8) -> EstadoCoordinador {
        EstadoCoordinador { nodos: anotar(self.nodos, id_nodo), ..self }
    }

    /// The leader is told whether it is on the network.
    pub open spec fn set_state(self, estado: bool) -> EstadoCoordinador {
        EstadoCoordinador { conectado: estado, ..self }
    }

    /// A node opens a deduction: it is filed and queued for its account,
    /// and started at once if it is the oldest there. Off the network, or
    /// for an id that the leader already knows, nothing happens.
    pub open spec fn starter(self, m: Starter) -> (EstadoCoordinador, Seq<AccionCoordinador>) {
        if !self.conectado || self.indice(m.id_transaccion) < self.transacciones.len() {
            (self, Seq::<AccionCoordinador>::empty())
        } else {
            (EstadoCoordinador {
                transacciones: self.transacciones.push(
                    Transaccion {
                        id: m.id_transaccion,
                        status: TransactionState::Uninitialized,
                        yes_nodos: Seq::empty(),
                        ok_nodos: Seq::empty(),
                        from_id_nodo: m.id_nodo,
                        id_cuenta: m.id_cuenta,
                        tipo: CommitType::RESTA,
                        id_cafetera: m.id_cafetera,
                    },
                ),
                cola: self.cola.push(
                    EnCola { id_cuenta: m.id_cuenta, id_transaccion: m.id_transaccion },
                ),
                ..self
            }).avanzar(m.id_cuenta)
        }
    }

    /// A follower answers the call to prepare: its vote is noted. When the
    /// transaction waits and every follower has voted, it goes to
    /// `Execute` and the node where it started is told to go on.
    pub open spec fn yes(self, m: Yes) -> (EstadoCoordinador, Seq<AccionCoordinador>) {
        let i = self.indice(m.id_transaccion);
        if !self.conectado || i >= self.transacciones.len() {
            (self, Seq::<AccionCoordinador>::empty())
        } else {
            let t = self.transacciones[i];
            let votos = anotar(t.yes_nodos, m.id_nodo);
            if t.status == TransactionState::Wait && todos(self.nodos, votos) {
                (
                    EstadoCoordinador {
                        transacciones: self.transacciones.update(
                            i,
                            Transaccion {
                                status: TransactionState::Execute,
                                yes_nodos: votos,
                                ..t
                            },
                        ),
                        ..self
                    },
                    seq![
                        AccionCoordinador::Enviar {
                            id_nodo: t.from_id_nodo,
                            registro: RegistroCoordinador::Execute(
                                Execute::spec_new(
                                    t.from_id_nodo,
                                    m.id_cuenta,
                                    m.id_transaccion,
                                    m.id_cafetera,
                                ),
                            ),
                        },
                    ],
                )
            } else {
                (
                    EstadoCoordinador {
                        transacciones: self.transacciones.update(
                            i,
                            Transaccion { yes_nodos: votos, ..t },
                        ),
                        ..self
                    },
                    Seq::<AccionCoordinador>::empty(),
                )
            }
        }
    }

    /// The commit that answers the completion `m`.
    pub open spec fn commit_de(m: Finish) -> RegistroCoordinador {
        RegistroCoordinador::Commit(
            Commit::spec_new(
                m.id_nodo,
                m.id_cuenta,
                m.id_transaccion,
                m.tipo,
                m.cantidad,
                m.id_cafetera,
            ),
        )
    }

    /// A node reports its local work done. A credit that the leader has not
    /// seen is filed and committed at once. A deduction that was told to go
    /// on is committed. In both cases the commit goes to every follower.
    /// Anything else is ignored.
    pub open spec fn finish(self, m: Finish) -> (EstadoCoordinador, Seq<AccionCoordinador>) {
        let i = self.indice(m.id_transaccion);
        if !self.conectado {
            (self, Seq::<AccionCoordinador>::empty())
        } else if m.tipo == CommitType::SUMA && i >= self.transacciones.len() {
            (
                EstadoCoordinador {
                    transacciones: self.transacciones.push(
                        Transaccion {
                            id: m.id_transaccion,
                            status: TransactionState::Commit,
                            yes_nodos: Seq::empty(),
                            ok_nodos: Seq::empty(),
                            from_id_nodo: m.id_nodo,
                            id_cuenta: m.id_cuenta,
                            tipo: CommitType::SUMA,
                            id_cafetera: m.id_cafetera,
                        },
                    ),
                    ..self
                },
                difundir(self.nodos, Self::commit_de(m)),
            )
        } else if m.tipo == CommitType::RESTA && i < self.transacciones.len()
            && self.transacciones[i].tipo == CommitType::RESTA && self.transacciones[i].status
            == TransactionState::Execute {
            (
                EstadoCoordinador {
                    transacciones: self.transacciones.update(
                        i,
                        Transaccion { status: TransactionState::Commit, ..self.transacciones[i] },
                    ),
                    ..self
                },
                difundir(self.nodos, Self::commit_de(m)),
            )
        } else {
            (self, Seq::<AccionCoordinador>::empty())
        }
    }

    /// A transaction is over: if it is a deduction it leaves the queue of
    /// its account, and the oldest one left there is started.
    pub open spec fn cerrar(self, tipo: CommitType, id: u32, id_cuenta: u32) -> (
        EstadoCoordinador,
        Seq<AccionCoordinador>,
    ) {
        if tipo == CommitType::RESTA {
            (EstadoCoordinador { cola: quitar(self.cola, id), ..self }).avanzar(id_cuenta)
        } else {
            (self, Seq::<AccionCoordinador>::empty())
        }
    }

    /// A follower answers a commit: its answer is noted. When the
    /// transaction is being committed and every follower has answered, it
    /// is `Done` and closed.
    pub open spec fn okey(self, m: OkeyToCoordinator) -> (
        EstadoCoordinador,
        Seq<AccionCoordinador>,
    ) {
        let i = self.indice(m.id_transaccion);
        if !self.conectado || i >= self.transacciones.len() {
            (self, Seq::<AccionCoordinador>::empty())
        } else {
            let t = self.transacciones[i];
            let votos = anotar(t.ok_nodos, m.id_nodo);
            if t.status == TransactionState::Commit && todos(self.nodos, votos) {
                (EstadoCoordinador {
                    transacciones: self.transacciones.update(
                        i,
                        Transaccion {
                            status: TransactionState::Done,
                            ok_nodos: Seq::empty(),
                            ..t
                        },
                    ),
                    ..self
                }).cerrar(t.tipo, t.id, t.id_cuenta)
            } else {
                (
                    EstadoCoordinador {
                        transacciones: self.transacciones.update(
                            i,
                            Transaccion { ok_nodos: votos, ..t },
                        ),
                        ..self
                    },
                    Seq::<AccionCoordinador>::empty(),
                )
            }
        }
    }

    /// A follower answers an abort: its answer is noted. When the
    /// transaction has been called off and every follower has answered, it
    /// is closed.
    pub open spec fn okey_abort(self, m: OkeyAbortToCoordinator) -> (
        EstadoCoordinador,
        Seq<AccionCoordinador>,
    ) {
        let i = self.indice(m.id_transaccion);
        if !self.conectado || i >= self.transacciones.len() {
            (self, Seq::<AccionCoordinador>::empty())
        } else {
            let t = self.transacciones[i];
            let votos = anotar(t.ok_nodos, m.id_nodo);
            if t.status == TransactionState::Abort && todos(self.nodos, votos) {
                (EstadoCoordinador {
                    transacciones: self.transacciones.update(
                        i,
                        Transaccion { ok_nodos: Seq::empty(), ..t },
                    ),
                    ..self
                }).cerrar(t.tipo, t.id, t.id_cuenta)
            } else {
                (
                    EstadoCoordinador {
                        transacciones: self.transacciones.update(
                            i,
                            Transaccion { ok_nodos: votos, ..t },
                        ),
                        ..self
                    },
                    Seq::<AccionCoordinador>::empty(),
                )
            }
        }
    }

    /// A node calls a transaction off: if the leader knows it and it is
    /// live, it is marked so and the abort goes to every follower.
    pub open spec fn abort(self, m: Abort) -> (EstadoCoordinador, Seq<AccionCoordinador>) {
        let i = self.indice(m.id_transaccion);
        if !self.conectado || i >= self.transacciones.len() || !viva(
            self.transacciones[i].status,
        ) {
            (self, Seq::<AccionCoordinador>::empty())
        } else {
            (
                EstadoCoordinador {
                    transacciones: self.transacciones.update(
                        i,
                        Transaccion {
                            status: TransactionState::Abort,
                            ok_nodos: Seq::empty(),
                            ..self.transacciones[i]
                        },
                    ),
                    ..self
                },
                difundir(self.nodos, RegistroCoordinador::Abort(m)),
            )
        }
    }

    /// A follower has gone: it leaves the followers, and every live
    /// transaction that started at it is called off with those that stay.
    pub open spec fn disconnect_nodo(self, m: DisconnectNodo) -> (
        EstadoCoordinador,
        Seq<AccionCoordinador>,
    ) {
        if !self.conectado {
            (self, Seq::<AccionCoordinador>::empty())
        } else {
            let nodos = sin_nodo(self.nodos, m.id_nodo);
            let (transacciones, acciones) = abortar_de(
                self.transacciones,
                self.transacciones.len() as int,
                m.id_nodo,
                nodos,
            );
            (EstadoCoordinador { nodos, transacciones, ..self }, acciones)
        }
    }

    /// The operator cuts the leader off: every stream is closed and
    /// everything is forgotten.
    pub open spec fn disconnect(self) -> (EstadoCoordinador, Seq<AccionCoordinador>) {
        (
            EstadoCoordinador {
                nodos: Seq::empty(),
                transacciones: Seq::empty(),
                cola: Seq::empty(),
                conectado: false,
            },
            Seq::new(
                self.nodos.len(),
                |i: int| AccionCoordinador::Shutdown { id_nodo: self.nodos[i] },
            ),
        )
    }

    /// What a record of a follower brings about.
    pub open spec fn recibir(self, e: Entrada) -> (EstadoCoordinador, Seq<AccionCoordinador>) {
        match e {
            Entrada::Starter(m) => self.starter(m),
            Entrada::Yes(m) => self.yes(m),
            Entrada::Ping(m) => (self, Seq::<AccionCoordinador>::empty()),
            Entrada::Finish(m) => self.finish(m),
            Entrada::Okey(m) => self.okey(m),
            Entrada::OkeyAbort(m) => self.okey_abort(m),
            Entrada::Abort(m) => self.abort(m),
            Entrada::Disconnect(m) => self.disconnect(),
            Entrada::Desconocido => (self, Seq::<AccionCoordinador>::empty()),
            Entrada::AddNodo { id_nodo } => (
                self.add_nodo(id_nodo),
                Seq::<AccionCoordinador>::empty(),
            ),
            Entrada::DisconnectNodo(m) => self.disconnect_nodo(m),
            Entrada::SetState(m) => (self.set_state(m.estado), Seq::<AccionCoordinador>::empty()),
        }
    }
}

/// Adding an item at the end moves the first place only if there was none.
pub proof fn lemma_primero_push<T>(s: Seq<T>, p: spec_fn(T) -> bool, x: T)
    ensures
        primero(s, p) < s.len() ==> primero(s.push(x), p) == primero(s, p),
        primero(s, p) >= s.len() && p(x) ==> primero(s.push(x), p) == s.len(),
        primero(s, p) >= s.len() && !p(x) ==> primero(s.push(x), p) == s.len() + 1,
{
    lemma_primero(s, p);
    let f = primero(s, p);
    let s2 = s.push(x);
    if f < s.len() {
        assert forall|j: int| 0 <= j < f implies !p(#[trigger] s2[j]) by {
            assert(s2[j] == s[j]);
        }
        assert(s2[f] == s[f]);
        lemma_primero_unico(s2, p, f);
    } else {
        assert forall|j: int| 0 <= j < s.len() implies !p(#[trigger] s2[j]) by {
            assert(s2[j] == s[j]);
        }
        if p(x) {
            lemma_primero_unico(s2, p, s.len() as int);
        } else {
            assert forall|j: int| 0 <= j < s2.len() implies !p(#[trigger] s2[j]) by {
                if j < s.len() {
                    assert(s2[j] == s[j]);
                }
            }
            lemma_primero_unico(s2, p, s2.len() as int);
        }
    }
}

/// Two sequences whose items pass the test at the same places have the
/// same first place.
pub proof fn lemma_primero_igual<T>(s: Seq<T>, s2: Seq<T>, p: spec_fn(T) -> bool)
    requires
        s.len() == s2.len(),
        forall|j: int| 0 <= j < s.len() ==> p(#[trigger] s[j]) == p(s2[j]),
    ensures
        primero(s2, p) == primero(s, p),
{
    lemma_primero(s, p);
    let f = primero(s, p);
    assert forall|j: int| 0 <= j < f implies !p(#[trigger] s2[j]) by {
        assert(!p(s[j]));
    }
    if f < s.len() {
        assert(p(s[f]));
    }
    lemma_primero_unico(s2, p, f);
}

/// Taking out an item other than the first that passes the test leaves
/// that first item first.
pub proof fn lemma_primero_remove<T>(s: Seq<T>, p: spec_fn(T) -> bool, q: int)
    requires
        0 <= q < s.len(),
        q != primero(s, p),
    ensures
        q < primero(s, p) ==> primero(s.remove(q), p) == primero(s, p) - 1,
        q > primero(s, p) ==> primero(s.remove(q), p) == primero(s, p),
        primero(s, p) < s.len() ==> primero(s.remove(q), p) < s.remove(q).len() && s.remove(
            q,
        )[primero(s.remove(q), p)] == s[primero(s, p)],
        primero(s, p) >= s.len() ==> primero(s.remove(q), p) >= s.remove(q).len(),
{
    lemma_primero(s, p);
    let f = primero(s, p);
    let r = s.remove(q);
    if q < f {
        assert forall|j: int| 0 <= j < f - 1 implies !p(#[trigger] r[j]) by {
            if j < q {
                assert(r[j] == s[j]);
            } else {
                assert(r[j] == s[j + 1]);
            }
        }
        if f < s.len() {
            assert(r[f - 1] == s[f]);
        }
        lemma_primero_unico(r, p, f - 1);
    } else {
        assert forall|j: int| 0 <= j < f implies !p(#[trigger] r[j]) by {
            assert(r[j] == s[j]);
        }
        assert(r[f] == s[f]);
        lemma_primero_unico(r, p, f);
    }
}

/// True while a transaction is being decided: called to prepare, told to
/// go on, or being committed.
pub open spec fn en_marcha(status: TransactionState) -> bool {
    status == TransactionState::Wait || status == TransactionState::Execute || status
        == TransactionState::Commit
}

/// True when the transaction `id` is the oldest that waits for the account
/// `id_cuenta`.
pub open spec fn es_cabeza(cola: Seq<EnCola>, id_cuenta: u32, id: u32) -> bool {
    primero(cola, de_cuenta(id_cuenta)) < cola.len() && cola[primero(
        cola,
        de_cuenta(id_cuenta),
    )].id_transaccion == id
}

/// No two transactions share an id.
pub open spec fn ids_unicos(ts: Seq<Transaccion>) -> bool {
    forall|i: int, j: int|
        0 <= i < j < ts.len() ==> (#[trigger] ts[i]).id != (#[trigger] ts[j]).id
}

impl EstadoCoordinador {
    /// The queue entry `e` names a transaction that the leader knows, and
    /// its account.
    pub open spec fn entrada_fiel(self, e: EnCola) -> bool {
        self.indice(e.id_transaccion) < self.transacciones.len()
            && self.transacciones[self.indice(e.id_transaccion)].id_cuenta == e.id_cuenta
    }

    /// A deduction that is being decided is the oldest of its account.
    pub open spec fn bien_puesta(self, t: Transaccion) -> bool {
        t.tipo == CommitType::RESTA && en_marcha(t.status) ==> es_cabeza(
            self.cola,
            t.id_cuenta,
            t.id,
        )
    }

    /// What holds of the leader at all times: ids are unique, the queues
    /// speak of known transactions, and only the oldest deduction of an
    /// account is ever being decided.
    pub open spec fn inv(self) -> bool {
        &&& ids_unicos(self.transacciones)
        &&& forall|k: int| 0 <= k < self.cola.len() ==> self.entrada_fiel(#[trigger] self.cola[k])
        &&& forall|i: int|
            0 <= i < self.transacciones.len() ==> self.bien_puesta(#[trigger] self.transacciones[i])
    }
}

/// At no moment are two deductions on one account being decided.
pub proof fn lemma_exclusion(s: EstadoCoordinador, i: int, j: int)
    requires
        s.inv(),
        0 <= i < s.transacciones.len(),
        0 <= j < s.transacciones.len(),
        s.transacciones[i].tipo == CommitType::RESTA,
        s.transacciones[j].tipo == CommitType::RESTA,
        s.transacciones[i].id_cuenta == s.transacciones[j].id_cuenta,
        en_marcha(s.transacciones[i].status),
        en_marcha(s.transacciones[j].status),
    ensures
        i == j,
{
    assert(s.bien_puesta(s.transacciones[i]));
    assert(s.bien_puesta(s.transacciones[j]));
    if i < j {
        assert(s.transacciones[i].id != s.transacciones[j].id);
    } else if j < i {
        assert(s.transacciones[j].id != s.transacciones[i].id);
    }
}

/// Changing a transaction in place, without touching its id or its
/// account and without putting it under decision, keeps the leader sound.
pub proof fn lemma_cambio_inv(s: EstadoCoordinador, i: int, t2: Transaccion)
    requires
        s.inv(),
        0 <= i < s.transacciones.len(),
        t2.id == s.transacciones[i].id,
        t2.id_cuenta == s.transacciones[i].id_cuenta,
        t2.tipo == s.transacciones[i].tipo,
        en_marcha(t2.status) ==> en_marcha(s.transacciones[i].status) || es_cabeza(
            s.cola,
            t2.id_cuenta,
            t2.id,
        ),
    ensures
        (EstadoCoordinador { transacciones: s.transacciones.update(i, t2), ..s }).inv(),
        forall|id: u32|
            primero(s.transacciones.update(i, t2), con_id(id)) == primero(
                s.transacciones,
                con_id(id),
            ),
{
    let ts = s.transacciones;
    let ts2 = ts.update(i, t2);
    let s2 = EstadoCoordinador { transacciones: ts2, ..s };
    assert forall|id: u32| primero(ts2, con_id(id)) == primero(ts, con_id(id)) by {
        assert forall|j: int| 0 <= j < ts.len() implies con_id(id)(#[trigger] ts[j]) == con_id(
            id,
        )(ts2[j]) by {}
        lemma_primero_igual(ts, ts2, con_id(id));
    }
    assert(ids_unicos(ts2)) by {
        assert forall|a: int, b: int| 0 <= a < b < ts2.len() implies (#[trigger] ts2[a]).id != (
        #[trigger] ts2[b]).id by {
            assert(ts[a].id != ts[b].id);
        }
    }
    assert forall|k: int| 0 <= k < s2.cola.len() implies s2.entrada_fiel(
        #[trigger] s2.cola[k],
    ) by {
        let id = s.cola[k].id_transaccion;
        assert(s.entrada_fiel(s.cola[k]));
        assert(primero(ts2, con_id(id)) == primero(ts, con_id(id)));
        lemma_primero(ts, con_id(id));
    }
    assert forall|j: int| 0 <= j < ts2.len() implies s2.bien_puesta(#[trigger] ts2[j]) by {
        assert(s.bien_puesta(ts[j]));
    }
}

/// Soundness speaks of the transactions and the queues alone.
pub proof fn lemma_inv_marco(s: EstadoCoordinador, nodos: Seq<u8>, conectado: bool)
    requires
        s.inv(),
    ensures
        (EstadoCoordinador { nodos, conectado, ..s }).inv(),
{
    let s2 = EstadoCoordinador { nodos, conectado, ..s };
    assert forall|k: int| 0 <= k < s2.cola.len() implies s2.entrada_fiel(
        #[trigger] s2.cola[k],
    ) by {
        assert(s.entrada_fiel(s.cola[k]));
    }
    assert forall|j: int| 0 <= j < s2.transacciones.len() implies s2.bien_puesta(
        #[trigger] s2.transacciones[j],
    ) by {
        assert(s.bien_puesta(s.transacciones[j]));
    }
}

/// Filing a transaction with a new id, not yet under decision, keeps the
/// leader sound, with or without a queue entry for it.
pub proof fn lemma_alta_inv(s: EstadoCoordinador, t: Transaccion, en_cola: bool)
    requires
        s.inv(),
        s.indice(t.id) >= s.transacciones.len(),
        !(t.tipo == CommitType::RESTA && en_marcha(t.status)),
    ensures
        (EstadoCoordinador {
            transacciones: s.transacciones.push(t),
            cola: if en_cola {
                s.cola.push(EnCola { id_cuenta: t.id_cuenta, id_transaccion: t.id })
            } else {
                s.cola
            },
            ..s
        }).inv(),
{
    let ts = s.transacciones;
    let ts2 = ts.push(t);
    let e = EnCola { id_cuenta: t.id_cuenta, id_transaccion: t.id };
    let cola2 = if en_cola {
        s.cola.push(e)
    } else {
        s.cola
    };
    let s2 = EstadoCoordinador { transacciones: ts2, cola: cola2, ..s };
    lemma_primero(ts, con_id(t.id));
    assert(ids_unicos(ts2)) by {
        assert forall|a: int, b: int| 0 <= a < b < ts2.len() implies (#[trigger] ts2[a]).id != (
        #[trigger] ts2[b]).id by {
            if b < ts.len() {
                assert(ts[a].id != ts[b].id);
            } else {
                assert(!con_id(t.id)(ts[a]));
            }
        }
    }
    assert forall|k: int| 0 <= k < cola2.len() implies s2.entrada_fiel(#[trigger] cola2[k]) by {
        let id = cola2[k].id_transaccion;
        lemma_primero_push(ts, con_id(id), t);
        lemma_primero(ts, con_id(id));
        if k < s.cola.len() {
            assert(s.entrada_fiel(s.cola[k]));
            assert(cola2[k] == s.cola[k]);
            assert(ts2[s.indice(id)] == ts[s.indice(id)]);
        } else {
            assert(cola2[k] == e);
        }
    }
    assert forall|j: int| 0 <= j < ts2.len() implies s2.bien_puesta(#[trigger] ts2[j]) by {
        if j < ts.len() {
            assert(s.bien_puesta(ts[j]));
            assert(ts2[j] == ts[j]);
            if en_cola {
                lemma_primero(s.cola, de_cuenta(ts[j].id_cuenta));
                lemma_primero_push(s.cola, de_cuenta(ts[j].id_cuenta), e);
                if es_cabeza(s.cola, ts[j].id_cuenta, ts[j].id) {
                    assert(cola2[primero(s.cola, de_cuenta(ts[j].id_cuenta))] == s.cola[primero(
                        s.cola,
                        de_cuenta(ts[j].id_cuenta),
                    )]);
                }
            }
        }
    }
}

/// Starting the oldest deduction of an account keeps the leader sound.
pub proof fn lemma_avanzar_inv(s: EstadoCoordinador, id_cuenta: u32)
    requires
        s.inv(),
    ensures
        s.avanzar(id_cuenta).0.inv(),
{
    let c = primero(s.cola, de_cuenta(id_cuenta));
    lemma_primero(s.cola, de_cuenta(id_cuenta));
    if c < s.cola.len() {
        let i = s.indice(s.cola[c].id_transaccion);
        lemma_primero(s.transacciones, con_id(s.cola[c].id_transaccion));
        if i < s.transacciones.len() && s.transacciones[i].status
            == TransactionState::Uninitialized {
            let t = s.transacciones[i];
            assert(s.entrada_fiel(s.cola[c]));
            assert(con_id(s.cola[c].id_transaccion)(t));
            assert(de_cuenta(id_cuenta)(s.cola[c]));
            lemma_cambio_inv(s, i, Transaccion { status: TransactionState::Wait, ..t });
        }
    }
}

/// Taking a transaction that is not under decision out of the queue keeps
/// the leader sound.
pub proof fn lemma_quitar_inv(s: EstadoCoordinador, id: u32)
    requires
        s.inv(),
        forall|i: int|
            0 <= i < s.transacciones.len() && (#[trigger] s.transacciones[i]).id == id ==> !(
            s.transacciones[i].tipo == CommitType::RESTA && en_marcha(s.transacciones[i].status)),
    ensures
        (EstadoCoordinador { cola: quitar(s.cola, id), ..s }).inv(),
{
    let q = primero(s.cola, de_transaccion(id));
    lemma_primero(s.cola, de_transaccion(id));
    let s2 = EstadoCoordinador { cola: quitar(s.cola, id), ..s };
    if q < s.cola.len() {
        let cola2 = s.cola.remove(q);
        assert(de_transaccion(id)(s.cola[q]));
        assert forall|k: int| 0 <= k < cola2.len() implies s2.entrada_fiel(
            #[trigger] cola2[k],
        ) by {
            if k < q {
                assert(cola2[k] == s.cola[k]);
                assert(s.entrada_fiel(s.cola[k]));
            } else {
                assert(cola2[k] == s.cola[k + 1]);
                assert(s.entrada_fiel(s.cola[k + 1]));
            }
        }
        assert forall|j: int| 0 <= j < s.transacciones.len() implies s2.bien_puesta(
            #[trigger] s.transacciones[j],
        ) by {
            let t = s.transacciones[j];
            assert(s.bien_puesta(t));
            if t.tipo == CommitType::RESTA && en_marcha(t.status) {
                let c = primero(s.cola, de_cuenta(t.id_cuenta));
                assert(t.id != id);
                assert(c != q);
                lemma_primero_remove(s.cola, de_cuenta(t.id_cuenta), q);
            }
        }
    }
}

/// Closing a transaction that is over keeps the leader sound.
pub proof fn lemma_cerrar_inv(s: EstadoCoordinador, tipo: CommitType, id: u32, id_cuenta: u32)
    requires
        s.inv(),
        forall|i: int|
            0 <= i < s.transacciones.len() && (#[trigger] s.transacciones[i]).id == id ==> !(
            s.transacciones[i].tipo == CommitType::RESTA && en_marcha(s.transacciones[i].status)),
    ensures
        s.cerrar(tipo, id, id_cuenta).0.inv(),
{
    if tipo == CommitType::RESTA {
        lemma_quitar_inv(s, id);
        lemma_avanzar_inv(EstadoCoordinador { cola: quitar(s.cola, id), ..s }, id_cuenta);
    }
}

/// Calling off the transactions of a lost follower keeps the leader sound.
pub proof fn lemma_abortar_de_inv(s: EstadoCoordinador, n: int, origen: u8, nodos: Seq<u8>)
    requires
        s.inv(),
        0 <= n <= s.transacciones.len(),
    ensures
        abortar_de(s.transacciones, n, origen, nodos).0.len() == s.transacciones.len(),
        forall|j: int|
            n <= j < s.transacciones.len() ==> abortar_de(s.transacciones, n, origen, nodos).0[j]
                == s.transacciones[j],
        (EstadoCoordinador {
            transacciones: abortar_de(s.transacciones, n, origen, nodos).0,
            ..s
        }).inv(),
    decreases n,
{
    if n > 0 {
        lemma_abortar_de_inv(s, n - 1, origen, nodos);
        let (t1, a) = abortar_de(s.transacciones, n - 1, origen, nodos);
        let s1 = EstadoCoordinador { transacciones: t1, ..s };
        let t = t1[n - 1];
        if t.from_id_nodo == origen && viva(t.status) {
            lemma_cambio_inv(
                s1,
                n - 1,
                Transaccion { status: TransactionState::Abort, ok_nodos: Seq::empty(), ..t },
            );
        }
    } else {
        assert((EstadoCoordinador { transacciones: s.transacciones, ..s }) == s);
    }
}

/// Whatever record arrives, a sound leader stays sound.
pub proof fn lemma_recibir_inv(s: EstadoCoordinador, e: Entrada)
    requires
        s.inv(),
    ensures
        s.recibir(e).0.inv(),
{
    match e {
        Entrada::Starter(m) => {
            if s.conectado && s.indice(m.id_transaccion) >= s.transacciones.len() {
                let t = Transaccion {
                    id: m.id_transaccion,
                    status: TransactionState::Uninitialized,
                    yes_nodos: Seq::empty(),
                    ok_nodos: Seq::empty(),
                    from_id_nodo: m.id_nodo,
                    id_cuenta: m.id_cuenta,
                    tipo: CommitType::RESTA,
                    id_cafetera: m.id_cafetera,
                };
                lemma_alta_inv(s, t, true);
                let s1 = EstadoCoordinador {
                    transacciones: s.transacciones.push(t),
                    cola: s.cola.push(
                        EnCola { id_cuenta: m.id_cuenta, id_transaccion: m.id_transaccion },
                    ),
                    ..s
                };
                lemma_avanzar_inv(s1, m.id_cuenta);
            }
        },
        Entrada::Yes(m) => {
            let i = s.indice(m.id_transaccion);
            lemma_primero(s.transacciones, con_id(m.id_transaccion));
            if s.conectado && i < s.transacciones.len() {
                let t = s.transacciones[i];
                let votos = anotar(t.yes_nodos, m.id_nodo);
                if t.status == TransactionState::Wait && todos(s.nodos, votos) {
                    lemma_cambio_inv(
                        s,
                        i,
                        Transaccion { status: TransactionState::Execute, yes_nodos: votos, ..t },
                    );
                } else {
                    lemma_cambio_inv(s, i, Transaccion { yes_nodos: votos, ..t });
                }
            }
        },
        Entrada::Ping(m) => {},
        Entrada::Finish(m) => {
            let i = s.indice(m.id_transaccion);
            lemma_primero(s.transacciones, con_id(m.id_transaccion));
            if s.conectado {
                if m.tipo == CommitType::SUMA && i >= s.transacciones.len() {
                    let t = Transaccion {
                        id: m.id_transaccion,
                        status: TransactionState::Commit,
                        yes_nodos: Seq::empty(),
                        ok_nodos: Seq::empty(),
                        from_id_nodo: m.id_nodo,
                        id_cuenta: m.id_cuenta,
                        tipo: CommitType::SUMA,
                        id_cafetera: m.id_cafetera,
                    };
                    lemma_alta_inv(s, t, false);
                } else if m.tipo == CommitType::RESTA && i < s.transacciones.len()
                    && s.transacciones[i].tipo == CommitType::RESTA && s.transacciones[i].status
                    == TransactionState::Execute {
                    lemma_cambio_inv(
                        s,
                        i,
                        Transaccion { status: TransactionState::Commit, ..s.transacciones[i] },
                    );
                }
            }
        },
        Entrada::Okey(m) => {
            let i = s.indice(m.id_transaccion);
            lemma_primero(s.transacciones, con_id(m.id_transaccion));
            if s.conectado && i < s.transacciones.len() {
                let t = s.transacciones[i];
                let votos = anotar(t.ok_nodos, m.id_nodo);
                if t.status == TransactionState::Commit && todos(s.nodos, votos) {
                    let t2 = Transaccion {
                        status: TransactionState::Done,
                        ok_nodos: Seq::empty(),
                        ..t
                    };
                    lemma_cambio_inv(s, i, t2);
                    let s1 = EstadoCoordinador {
                        transacciones: s.transacciones.update(i, t2),
                        ..s
                    };
                    lemma_cerrado(s1, i);
                    lemma_cerrar_inv(s1, t.tipo, t.id, t.id_cuenta);
                } else {
                    lemma_cambio_inv(s, i, Transaccion { ok_nodos: votos, ..t });
                }
            }
        },
        Entrada::OkeyAbort(m) => {
            let i = s.indice(m.id_transaccion);
            lemma_primero(s.transacciones, con_id(m.id_transaccion));
            if s.conectado && i < s.transacciones.len() {
                let t = s.transacciones[i];
                let votos = anotar(t.ok_nodos, m.id_nodo);
                if t.status == TransactionState::Abort && todos(s.nodos, votos) {
                    let t2 = Transaccion { ok_nodos: Seq::empty(), ..t };
                    lemma_cambio_inv(s, i, t2);
                    let s1 = EstadoCoordinador {
                        transacciones: s.transacciones.update(i, t2),
                        ..s
                    };
                    lemma_cerrado(s1, i);
                    lemma_cerrar_inv(s1, t.tipo, t.id, t.id_cuenta);
                } else {
                    lemma_cambio_inv(s, i, Transaccion { ok_nodos: votos, ..t });
                }
            }
        },
        Entrada::Abort(m) => {
            let i = s.indice(m.id_transaccion);
            lemma_primero(s.transacciones, con_id(m.id_transaccion));
            if s.conectado && i < s.transacciones.len() && viva(s.transacciones[i].status) {
                lemma_cambio_inv(
                    s,
                    i,
                    Transaccion {
                        status: TransactionState::Abort,
                        ok_nodos: Seq::empty(),
                        ..s.transacciones[i]
                    },
                );
            }
        },
        Entrada::Disconnect(m) => {},
        Entrada::Desconocido => {},
        Entrada::AddNodo { id_nodo } => {
            lemma_inv_marco(s, anotar(s.nodos, id_nodo), s.conectado);
        },
        Entrada::DisconnectNodo(m) => {
            lemma_disconnect_nodo_inv(s, m);
        },
        Entrada::SetState(m) => {
            lemma_inv_marco(s, s.nodos, m.estado);
        },
    }
}

/// With unique ids, a transaction that is not under decision is the only
/// one of its id, so that none of its id is under decision.
pub proof fn lemma_cerrado(s: EstadoCoordinador, i: int)
    requires
        ids_unicos(s.transacciones),
        0 <= i < s.transacciones.len(),
        !en_marcha(s.transacciones[i].status),
    ensures
        forall|j: int|
            0 <= j < s.transacciones.len() && (#[trigger] s.transacciones[j]).id
                == s.transacciones[i].id ==> !(s.transacciones[j].tipo == CommitType::RESTA
                && en_marcha(s.transacciones[j].status)),
{
    assert forall|j: int|
        0 <= j < s.transacciones.len() && (#[trigger] s.transacciones[j]).id
            == s.transacciones[i].id implies !(s.transacciones[j].tipo == CommitType::RESTA
        && en_marcha(s.transacciones[j].status)) by {
        if j < i {
            assert(s.transacciones[j].id != s.transacciones[i].id);
        } else if i < j {
            assert(s.transacciones[i].id != s.transacciones[j].id);
        }
    }
}

/// Losing a follower keeps the leader sound.
pub proof fn lemma_disconnect_nodo_inv(s: EstadoCoordinador, m: DisconnectNodo)
    requires
        s.inv(),
    ensures
        s.disconnect_nodo(m).0.inv(),
{
    if s.conectado {
        let nodos = sin_nodo(s.nodos, m.id_nodo);
        lemma_abortar_de_inv(s, s.transacciones.len() as int, m.id_nodo, nodos);
        let ts = abortar_de(s.transacciones, s.transacciones.len() as int, m.id_nodo, nodos).0;
        lemma_inv_marco(EstadoCoordinador { transacciones: ts, ..s }, nodos, s.conectado);
    }
}

/// A transaction as the leader holds it.
#[derive(Debug)]
pub struct TransactionCoordinator {
    pub id: u32,
    pub status: TransactionState,
    pub yes_nodos: Vec<u8>,
    pub ok_nodos: Vec<u8>,
    pub from_id_nodo: u8,
    pub id_cuenta: u32,
    pub tipo: CommitType,
    pub id_cafetera: u8,
}

impl View for TransactionCoordinator {
    type V = Transaccion;

    open spec fn view(&self) -> Transaccion {
        Transaccion {
            id: self.id,
            status: self.status,
            yes_nodos: self.yes_nodos@,
            ok_nodos: self.ok_nodos@,
            from_id_nodo: self.from_id_nodo,
            id_cuenta: self.id_cuenta,
            tipo: self.tipo,
            id_cafetera: self.id_cafetera,
        }
    }
}

/// The leader's side of the two-phase commit.
pub struct Coordinador {
    /// The followers, in the order in which they connected: the order in
    /// which each of them is written to. Their streams belong to whoever
    /// runs the leader.
    nodos: Vec<u8>,
    /// The transactions, by id.
    transacciones: Libro,
    /// The queue of each account.
    cola: Colas,
    conectado: bool,
}

impl View for Coordinador {
    type V = EstadoCoordinador;

    closed spec fn view(&self) -> EstadoCoordinador {
        EstadoCoordinador {
            nodos: self.nodos@,
            transacciones: self.transacciones@,
            cola: self.cola@,
            conectado: self.conectado,
        }
    }
}

fn ninguna() -> (r: Vec<AccionCoordinador>)
    ensures
        r@ == Seq::<AccionCoordinador>::empty(),
{
    Vec::new()
}

fn contiene(v: &Vec<u8>, x: u8) -> (r: bool)
    ensures
        r == v@.contains(x),
{
    let mut i: usize = 0;
    while i < v.len()
        invariant
            i <= v@.len(),
            forall|j: int| 0 <= j < i ==> v@[j] != x,
        decreases v@.len() - i,
    {
        if v[i] == x {
            return true;
        }
        i = i + 1;
    }
    false
}

pub(crate) fn anotar_en(v: &mut Vec<u8>, x: u8)
    ensures
        final(v)@ == anotar(old(v)@, x),
{
    if !contiene(v, x) {
        v.push(x);
    }
}

fn todos_en(nodos: &Vec<u8>, votos: &Vec<u8>) -> (r: bool)
    ensures
        r == todos(nodos@, votos@),
{
    let mut i: usize = 0;
    while i < nodos.len()
        invariant
            i <= nodos@.len(),
            forall|j: int| 0 <= j < i ==> votos@.contains(#[trigger] nodos@[j]),
        decreases nodos@.len() - i,
    {
        if !contiene(votos, nodos[i]) {
            return false;
        }
        i = i + 1;
    }
    true
}

fn difundir_a(acciones: &mut Vec<AccionCoordinador>, nodos: &Vec<u8>, registro: RegistroCoordinador)
    ensures
        final(acciones)@ == old(acciones)@ + difundir(nodos@, registro),
{
    let ghost antes = acciones@;
    let mut i: usize = 0;
    assert(acciones@ =~= antes + difundir(nodos@, registro).take(0));
    while i < nodos.len()
        invariant
            i <= nodos@.len(),
            acciones@ == antes + difundir(nodos@, registro).take(i as int),
        decreases nodos@.len() - i,
    {
        acciones.push(AccionCoordinador::Enviar { id_nodo: nodos[i], registro });
        assert(acciones@ =~= antes + difundir(nodos@, registro).take(i as int + 1));
        i = i + 1;
    }
    assert(difundir(nodos@, registro).take(i as int) =~= difundir(nodos@, registro));
}

fn quitar_nodo(nodos: &Vec<u8>, n: u8) -> (r: Vec<u8>)
    ensures
        r@ == sin_nodo(nodos@, n),
{
    let mut r: Vec<u8> = Vec::new();
    let mut i: usize = 0;
    assert(nodos@.take(0) =~= Seq::<u8>::empty());
    while i < nodos.len()
        invariant
            i <= nodos@.len(),
            r@ == sin_nodo(nodos@.take(i as int), n),
        decreases nodos@.len() - i,
    {
        proof {
            let p = nodos@.take(i as int + 1);
            assert(p.drop_last() =~= nodos@.take(i as int));
            assert(p.last() == nodos@[i as int]);
        }
        if nodos[i] != n {
            r.push(nodos[i]);
        }
        i = i + 1;
    }
    assert(nodos@.take(i as int) =~= nodos@);
    r
}

impl Coordinador {
    /// The book of transactions and the queues are in order.
    pub closed spec fn base(&self) -> bool {
        self.transacciones.wf() && self.cola.wf()
    }

    /// The book and the queues are in order, and the leader is in a state
    /// that it can reach: ids are unique, the queues speak of known
    /// transactions, and only the oldest deduction of an account is being
    /// decided.
    pub closed spec fn wf(&self) -> bool {
        self.base() && self@.inv()
    }

    /// What holds of every leader.
    pub proof fn lemma_wf(&self)
        requires
            self.wf(),
        ensures
            self@.inv(),
    {
    }

    /// A leader on the network, without followers or transactions.
    pub fn new() -> (r: Coordinador)
        ensures
            r.wf(),
            r@ == (EstadoCoordinador {
                nodos: Seq::empty(),
                transacciones: Seq::empty(),
                cola: Seq::empty(),
                conectado: true,
            }),
            r@.inv(),
    {
        let r = Coordinador {
            nodos: Vec::new(),
            transacciones: Libro::new(),
            cola: Colas::new(),
            conectado: true,
        };
        assert(r@.transacciones =~= Seq::<Transaccion>::empty());
        r
    }

    pub fn conectado(&self) -> (r: bool)
        requires
            self.wf(),
        ensures
            r == self@.conectado,
    {
        self.conectado
    }

    /// Number of followers.
    pub fn cantidad_nodos(&self) -> (r: usize)
        requires
            self.wf(),
        ensures
            r == self@.nodos.len(),
    {
        self.nodos.len()
    }

    /// The state of the transaction `id`, if the leader knows it.
    pub fn estado_de(&self, id: u32) -> (r: Option<TransactionState>)
        requires
            self.wf(),
        ensures
            r is Some <==> self@.indice(id) < self@.transacciones.len(),
            r is Some ==> r->0 == self@.transacciones[self@.indice(id)].status,
    {
        let i = self.buscar(id);
        if i < self.transacciones.len() {
            Some(self.transacciones.get(i).status)
        } else {
            None
        }
    }

    /// Number of deductions that wait or are under way for `id_cuenta`.
    pub fn largo_cola(&self, id_cuenta: u32) -> (r: usize)
        requires
            self.wf(),
        ensures
            r == cola_de(self@.cola, id_cuenta).len(),
    {
        self.cola.largo(id_cuenta)
    }

    fn buscar(&self, id: u32) -> (r: usize)
        requires
            self.base(),
        ensures
            r == self@.indice(id),
            r <= self.transacciones@.len(),
    {
        self.transacciones.buscar(id)
    }

    fn avanzar(&mut self, id_cuenta: u32) -> (r: Vec<AccionCoordinador>)
        requires
            old(self).base(),
        ensures
            final(self).base(),
            (final(self)@, r@) == old(self)@.avanzar(id_cuenta),
    {
        let mut acciones: Vec<AccionCoordinador> = Vec::new();
        if let Some(cabeza) = self.cola.cabeza(id_cuenta) {
            let i = self.buscar(cabeza);
            if i < self.transacciones.len() && self.transacciones.get(i).status
                == TransactionState::Uninitialized {
                let prepare = Prepare::new(
                    self.transacciones.get(i).from_id_nodo,
                    self.transacciones.get(i).id_cuenta,
                    self.transacciones.get(i).id,
                    self.transacciones.get(i).id_cafetera,
                );
                self.transacciones.set_status(i, TransactionState::Wait);
                difundir_a(&mut acciones, &self.nodos, RegistroCoordinador::Prepare(prepare));
                proof {
                    let t = old(self)@.transacciones[i as int];
                    assert(self@.transacciones =~= old(self)@.transacciones.update(
                        i as int,
                        Transaccion { status: TransactionState::Wait, ..t },
                    ));
                    assert(acciones@ =~= difundir(
                        self.nodos@,
                        RegistroCoordinador::Prepare(prepare),
                    ));
                }
            }
        }
        acciones
    }

    fn cerrar(&mut self, tipo: CommitType, id: u32, id_cuenta: u32) -> (r: Vec<
        AccionCoordinador,
    >)
        requires
            old(self).base(),
            forall|k: int|
                0 <= k < old(self)@.cola.len() && (#[trigger] old(self)@.cola[k]).id_transaccion
                    == id ==> old(self)@.cola[k].id_cuenta == id_cuenta,
        ensures
            final(self).base(),
            (final(self)@, r@) == old(self)@.cerrar(tipo, id, id_cuenta),
    {
        if tipo == CommitType::RESTA {
            proof {
                assert forall|k: int|
                    0 <= k < self.cola@.len() && (#[trigger] self.cola@[k]).id_transaccion
                        == id implies self.cola@[k].id_cuenta == id_cuenta by {
                    assert(old(self)@.cola[k].id_transaccion == id);
                }
            }
            self.cola.quitar(id_cuenta, id);
            assert(self@.transacciones =~= old(self)@.transacciones);
            self.avanzar(id_cuenta)
        } else {
            ninguna()
        }
    }

    /// Takes a new follower.
    pub fn add_nodo(&mut self, id_nodo: u8)
        requires
            old(self).wf(),
        ensures
            final(self).wf(),
            final(self)@ == old(self)@.add_nodo(id_nodo),
            old(self)@.inv() ==> final(self)@.inv(),
    {
        proof {
            if old(self)@.inv() {
                lemma_inv_marco(old(self)@, anotar(old(self)@.nodos, id_nodo), old(self)@.conectado);
            }
        }
        anotar_en(&mut self.nodos, id_nodo);
        assert(self@.transacciones =~= old(self)@.transacciones);
    }

    /// Takes the news of being on or off the network.
    pub fn set_state(&mut self, msg: SetState)
        requires
            old(self).wf(),
        ensures
            final(self).wf(),
            final(self)@ == old(self)@.set_state(msg.estado),
            old(self)@.inv() ==> final(self)@.inv(),
    {
        proof {
            if old(self)@.inv() {
                lemma_inv_marco(old(self)@, old(self)@.nodos, msg.estado);
            }
        }
        self.conectado = msg.estado;
        assert(self@.transacciones =~= old(self)@.transacciones);
    }

    /// Takes the opening of a deduction.
    pub fn starter(&mut self, m: Starter) -> (r: Vec<AccionCoordinador>)
        requires
            old(self).wf(),
        ensures
            final(self).wf(),
            (final(self)@, r@) == old(self)@.starter(m),
            old(self)@.inv() ==> final(self)@.inv(),
    {
        proof {
            if old(self)@.inv() {
                lemma_recibir_inv(old(self)@, Entrada::Starter(m));
            }
        }
        if !self.conectado {
            return ninguna();
        }
        let i = self.buscar(m.id_transaccion);
        if i < self.transacciones.len() {
            return ninguna();
        }
        self.transacciones.push(
            TransactionCoordinator {
                id: m.id_transaccion,
                status: TransactionState::Uninitialized,
                yes_nodos: Vec::new(),
                ok_nodos: Vec::new(),
                from_id_nodo: m.id_nodo,
                id_cuenta: m.id_cuenta,
                tipo: CommitType::RESTA,
                id_cafetera: m.id_cafetera,
            },
        );
        self.cola.push(m.id_cuenta, m.id_transaccion);
        proof {
            assert(self@.transacciones =~= old(self)@.transacciones.push(
                Transaccion {
                    id: m.id_transaccion,
                    status: TransactionState::Uninitialized,
                    yes_nodos: Seq::empty(),
                    ok_nodos: Seq::empty(),
                    from_id_nodo: m.id_nodo,
                    id_cuenta: m.id_cuenta,
                    tipo: CommitType::RESTA,
                    id_cafetera: m.id_cafetera,
                },
            ));
        }
        self.avanzar(m.id_cuenta)
    }

    /// Takes the answer to a call to prepare.
    pub fn yes(&mut self, m: Yes) -> (r: Vec<AccionCoordinador>)
        requires
            old(self).wf(),
        ensures
            final(self).wf(),
            (final(self)@, r@) == old(self)@.yes(m),
            old(self)@.inv() ==> final(self)@.inv(),
    {
        proof {
            if old(self)@.inv() {
                lemma_recibir_inv(old(self)@, Entrada::Yes(m));
            }
        }
        if !self.conectado {
            return ninguna();
        }
        let i = self.buscar(m.id_transaccion);
        if i >= self.transacciones.len() {
            return ninguna();
        }
        let ghost t = old(self)@.transacciones[i as int];
        self.transacciones.anotar_yes(i, m.id_nodo);
        if self.transacciones.get(i).status == TransactionState::Wait && todos_en(
            &self.nodos,
            &self.transacciones.get(i).yes_nodos,
        ) {
            self.transacciones.set_status(i, TransactionState::Execute);
            let from = self.transacciones.get(i).from_id_nodo;
            let mut acciones: Vec<AccionCoordinador> = Vec::new();
            acciones.push(
                AccionCoordinador::Enviar {
                    id_nodo: from,
                    registro: RegistroCoordinador::Execute(
                        Execute::new(from, m.id_cuenta, m.id_transaccion, m.id_cafetera),
                    ),
                },
            );
            proof {
                assert(self@.transacciones =~= old(self)@.transacciones.update(
                    i as int,
                    Transaccion {
                        status: TransactionState::Execute,
                        yes_nodos: anotar(t.yes_nodos, m.id_nodo),
                        ..t
                    },
                ));
                assert(acciones@ =~= old(self)@.yes(m).1);
            }
            acciones
        } else {
            proof {
                assert(self@.transacciones =~= old(self)@.transacciones.update(
                    i as int,
                    Transaccion { yes_nodos: anotar(t.yes_nodos, m.id_nodo), ..t },
                ));
            }
            ninguna()
        }
    }

    /// Takes the completion of a node's local work.
    pub fn finish(&mut self, m: Finish) -> (r: Vec<AccionCoordinador>)
        requires
            old(self).wf(),
        ensures
            final(self).wf(),
            (final(self)@, r@) == old(self)@.finish(m),
            old(self)@.inv() ==> final(self)@.inv(),
    {
        proof {
            if old(self)@.inv() {
                lemma_recibir_inv(old(self)@, Entrada::Finish(m));
            }
        }
        if !self.conectado {
            return ninguna();
        }
        let i = self.buscar(m.id_transaccion);
        let commit = RegistroCoordinador::Commit(
            Commit::new(
                m.id_nodo,
                m.id_cuenta,
                m.id_transaccion,
                m.tipo,
                m.cantidad,
                m.id_cafetera,
            ),
        );
        let mut acciones: Vec<AccionCoordinador> = Vec::new();
        match m.tipo {
            CommitType::SUMA => {
                if i >= self.transacciones.len() {
                    self.transacciones.push(
                        TransactionCoordinator {
                            id: m.id_transaccion,
                            status: TransactionState::Commit,
                            yes_nodos: Vec::new(),
                            ok_nodos: Vec::new(),
                            from_id_nodo: m.id_nodo,
                            id_cuenta: m.id_cuenta,
                            tipo: CommitType::SUMA,
                            id_cafetera: m.id_cafetera,
                        },
                    );
                    difundir_a(&mut acciones, &self.nodos, commit);
                    proof {
                        assert(self@.transacciones =~= old(self)@.transacciones.push(
                            Transaccion {
                                id: m.id_transaccion,
                                status: TransactionState::Commit,
                                yes_nodos: Seq::empty(),
                                ok_nodos: Seq::empty(),
                                from_id_nodo: m.id_nodo,
                                id_cuenta: m.id_cuenta,
                                tipo: CommitType::SUMA,
                                id_cafetera: m.id_cafetera,
                            },
                        ));
                        assert(acciones@ =~= difundir(self.nodos@, commit));
                    }
                } else {
                    assert(self@.transacciones =~= old(self)@.transacciones);
                }
            },
            CommitType::RESTA => {
                if i < self.transacciones.len() && self.transacciones.get(i).tipo == CommitType::RESTA
                    && self.transacciones.get(i).status == TransactionState::Execute {
                    self.transacciones.set_status(i, TransactionState::Commit);
                    difundir_a(&mut acciones, &self.nodos, commit);
                    proof {
                        let t = old(self)@.transacciones[i as int];
                        assert(self@.transacciones =~= old(self)@.transacciones.update(
                            i as int,
                            Transaccion { status: TransactionState::Commit, ..t },
                        ));
                        assert(acciones@ =~= difundir(self.nodos@, commit));
                    }
                } else {
                    assert(self@.transacciones =~= old(self)@.transacciones);
                }
            },
            CommitType::UNKNOWN => {
                assert(self@.transacciones =~= old(self)@.transacciones);
            },
        }
        acciones
    }

    /// Takes the answer to a commit.
    pub fn okey(&mut self, m: OkeyToCoordinator) -> (r: Vec<AccionCoordinador>)
        requires
            old(self).wf(),
        ensures
            final(self).wf(),
            (final(self)@, r@) == old(self)@.okey(m),
            old(self)@.inv() ==> final(self)@.inv(),
    {
        proof {
            if old(self)@.inv() {
                lemma_recibir_inv(old(self)@, Entrada::Okey(m));
            }
        }
        if !self.conectado {
            return ninguna();
        }
        let i = self.buscar(m.id_transaccion);
        if i >= self.transacciones.len() {
            return ninguna();
        }
        let ghost t = old(self)@.transacciones[i as int];
        self.transacciones.anotar_ok(i, m.id_nodo);
        if self.transacciones.get(i).status == TransactionState::Commit && todos_en(
            &self.nodos,
            &self.transacciones.get(i).ok_nodos,
        ) {
            self.transacciones.set_status(i, TransactionState::Done);
            self.transacciones.vaciar_ok(i);
            let tipo = self.transacciones.get(i).tipo;
            let id = self.transacciones.get(i).id;
            let id_cuenta = self.transacciones.get(i).id_cuenta;
            proof {
                assert(self@.transacciones =~= old(self)@.transacciones.update(
                    i as int,
                    Transaccion { status: TransactionState::Done, ok_nodos: Seq::empty(), ..t },
                ));
                lemma_primero(old(self)@.transacciones, con_id(m.id_transaccion));
                assert forall|k: int|
                    0 <= k < self@.cola.len() && (#[trigger] self@.cola[k]).id_transaccion
                        == id implies self@.cola[k].id_cuenta == id_cuenta by {
                    assert(old(self)@.entrada_fiel(old(self)@.cola[k]));
                }
            }
            self.cerrar(tipo, id, id_cuenta)
        } else {
            proof {
                assert(self@.transacciones =~= old(self)@.transacciones.update(
                    i as int,
                    Transaccion { ok_nodos: anotar(t.ok_nodos, m.id_nodo), ..t },
                ));
            }
            ninguna()
        }
    }

    /// Takes the answer to an abort.
    pub fn okey_abort(&mut self, m: OkeyAbortToCoordinator) -> (r: Vec<AccionCoordinador>)
        requires
            old(self).wf(),
        ensures
            final(self).wf(),
            (final(self)@, r@) == old(self)@.okey_abort(m),
            old(self)@.inv() ==> final(self)@.inv(),
    {
        proof {
            if old(self)@.inv() {
                lemma_recibir_inv(old(self)@, Entrada::OkeyAbort(m));
            }
        }
        if !self.conectado {
            return ninguna();
        }
        let i = self.buscar(m.id_transaccion);
        if i >= self.transacciones.len() {
            return ninguna();
        }
        let ghost t = old(self)@.transacciones[i as int];
        self.transacciones.anotar_ok(i, m.id_nodo);
        if self.transacciones.get(i).status == TransactionState::Abort && todos_en(
            &self.nodos,
            &self.transacciones.get(i).ok_nodos,
        ) {
            self.transacciones.vaciar_ok(i);
            let tipo = self.transacciones.get(i).tipo;
            let id = self.transacciones.get(i).id;
            let id_cuenta = self.transacciones.get(i).id_cuenta;
            proof {
                assert(self@.transacciones =~= old(self)@.transacciones.update(
                    i as int,
                    Transaccion { ok_nodos: Seq::empty(), ..t },
                ));
                lemma_primero(old(self)@.transacciones, con_id(m.id_transaccion));
                assert forall|k: int|
                    0 <= k < self@.cola.len() && (#[trigger] self@.cola[k]).id_transaccion
                        == id implies self@.cola[k].id_cuenta == id_cuenta by {
                    assert(old(self)@.entrada_fiel(old(self)@.cola[k]));
                }
            }
            self.cerrar(tipo, id, id_cuenta)
        } else {
            proof {
                assert(self@.transacciones =~= old(self)@.transacciones.update(
                    i as int,
                    Transaccion { ok_nodos: anotar(t.ok_nodos, m.id_nodo), ..t },
                ));
            }
            ninguna()
        }
    }

    /// Takes the calling off of a transaction.
    pub fn abort(&mut self, m: Abort) -> (r: Vec<AccionCoordinador>)
        requires
            old(self).wf(),
        ensures
            final(self).wf(),
            (final(self)@, r@) == old(self)@.abort(m),
            old(self)@.inv() ==> final(self)@.inv(),
    {
        proof {
            if old(self)@.inv() {
                lemma_recibir_inv(old(self)@, Entrada::Abort(m));
            }
        }
        if !self.conectado {
            return ninguna();
        }
        let i = self.buscar(m.id_transaccion);
        if i >= self.transacciones.len() {
            return ninguna();
        }
        let status = self.transacciones.get(i).status;
        if status == TransactionState::Abort || status == TransactionState::Done {
            return ninguna();
        }
        self.transacciones.set_status(i, TransactionState::Abort);
        self.transacciones.vaciar_ok(i);
        let mut acciones: Vec<AccionCoordinador> = Vec::new();
        difundir_a(&mut acciones, &self.nodos, RegistroCoordinador::Abort(m));
        proof {
            let t = old(self)@.transacciones[i as int];
            assert(self@.transacciones =~= old(self)@.transacciones.update(
                i as int,
                Transaccion { status: TransactionState::Abort, ok_nodos: Seq::empty(), ..t },
            ));
            assert(acciones@ =~= difundir(self.nodos@, RegistroCoordinador::Abort(m)));
        }
        acciones
    }

    /// Takes the loss of a follower.
    pub fn disconnect_nodo(&mut self, m: DisconnectNodo) -> (r: Vec<AccionCoordinador>)
        requires
            old(self).wf(),
        ensures
            final(self).wf(),
            (final(self)@, r@) == old(self)@.disconnect_nodo(m),
            old(self)@.inv() ==> final(self)@.inv(),
    {
        proof {
            if old(self)@.inv() {
                lemma_disconnect_nodo_inv(old(self)@, m);
            }
        }
        if !self.conectado {
            return ninguna();
        }
        let ghost pre = self@;
        self.nodos = quitar_nodo(&self.nodos, m.id_nodo);
        let mut acciones: Vec<AccionCoordinador> = Vec::new();
        let n = self.transacciones.len();
        let mut i: usize = 0;
        assert(self@.transacciones =~= pre.transacciones);
        while i < n
            invariant
                self.base(),
                i <= n,
                n == pre.transacciones.len(),
                self@.transacciones.len() == n,
                self@.nodos == sin_nodo(pre.nodos, m.id_nodo),
                self@.cola == pre.cola,
                self@.conectado == pre.conectado,
                (self@.transacciones, acciones@) == abortar_de(
                    pre.transacciones,
                    i as int,
                    m.id_nodo,
                    self@.nodos,
                ),
            decreases n - i,
        {
            let ghost antes = self@.transacciones;
            let ghost hechas = acciones@;
            let status = self.transacciones.get(i).status;
            if self.transacciones.get(i).from_id_nodo == m.id_nodo && status != TransactionState::Abort
                && status != TransactionState::Done {
                let abort = Abort::new(
                    self.transacciones.get(i).from_id_nodo,
                    self.transacciones.get(i).id_cuenta,
                    self.transacciones.get(i).id,
                    self.transacciones.get(i).id_cafetera,
                );
                self.transacciones.set_status(i, TransactionState::Abort);
                self.transacciones.vaciar_ok(i);
                difundir_a(&mut acciones, &self.nodos, RegistroCoordinador::Abort(abort));
                proof {
                    let t = antes[i as int];
                    assert(self@.transacciones =~= antes.update(
                        i as int,
                        Transaccion {
                            status: TransactionState::Abort,
                            ok_nodos: Seq::empty(),
                            ..t
                        },
                    ));
                }
            } else {
                assert(self@.transacciones =~= antes);
            }
            i = i + 1;
        }
        acciones
    }

    /// Takes the order to leave the network.
    pub fn disconnect(&mut self) -> (r: Vec<AccionCoordinador>)
        requires
            old(self).wf(),
        ensures
            final(self).wf(),
            (final(self)@, r@) == old(self)@.disconnect(),
            final(self)@.inv(),
    {
        let mut acciones: Vec<AccionCoordinador> = Vec::new();
        let ghost meta = old(self)@.disconnect().1;
        let mut i: usize = 0;
        assert(acciones@ =~= meta.take(0));
        while i < self.nodos.len()
            invariant
                i <= self.nodos@.len(),
                self.nodos@ == old(self)@.nodos,
                meta == old(self)@.disconnect().1,
                acciones@ == meta.take(i as int),
            decreases self.nodos@.len() - i,
        {
            acciones.push(AccionCoordinador::Shutdown { id_nodo: self.nodos[i] });
            assert(acciones@ =~= meta.take(i as int + 1));
            i = i + 1;
        }
        assert(meta.take(i as int) =~= meta);
        self.conectado = false;
        self.nodos = Vec::new();
        self.transacciones = Libro::new();
        self.cola = Colas::new();
        assert(self@.transacciones =~= Seq::<Transaccion>::empty());
        acciones
    }

    /// Takes whatever reaches the leader: a record of a follower, or the
    /// news of a stream or of the network.
    pub fn handle(&mut self, e: Entrada) -> (r: Vec<AccionCoordinador>)
        requires
            old(self).wf(),
        ensures
            final(self).wf(),
            (final(self)@, r@) == old(self)@.recibir(e),
            old(self)@.inv() ==> final(self)@.inv(),
    {
        proof {
            if old(self)@.inv() {
                lemma_recibir_inv(old(self)@, e);
            }
        }
        match e {
            Entrada::Starter(m) => self.starter(m),
            Entrada::Yes(m) => self.yes(m),
            Entrada::Ping(m) => ninguna(),
            Entrada::Finish(m) => self.finish(m),
            Entrada::Okey(m) => self.okey(m),
            Entrada::OkeyAbort(m) => self.okey_abort(m),
            Entrada::Abort(m) => self.abort(m),
            Entrada::Disconnect(m) => self.disconnect(),
            Entrada::Desconocido => ninguna(),
            Entrada::AddNodo { id_nodo } => {
                self.add_nodo(id_nodo);
                ninguna()
            },
            Entrada::DisconnectNodo(m) => self.disconnect_nodo(m),
            Entrada::SetState(m) => {
                self.set_state(m);
                ninguna()
            },
        }
    }
}

} // verus!
