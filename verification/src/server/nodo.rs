//! A replica of the ledger. The node keeps the accounts, listens to the
//! coffee machines of its branch and follows the leader through the
//! two-phase commit. Every entry point takes one event and returns the
//! messages to send; whoever runs the node performs them in order.

use crate::compartido::mensajes_cafetera::{
    trama_cantidad, trama_cuenta, Error, MensajeCafetera, MensajeCafeteraBytes, OkeyToCafetera,
    Ping, Restar, Sumar, LARGO_TRAMA,
};
use crate::server::coordinador::{Disconnect, DisconnectToString};
use crate::decimal::{
    append_decimal, ascii_chars, decimal, decimal_string, field_bounded, parse_bounded,
};
use crate::server::mensaje::{
    Abort, CommitType, Finish, Mensaje, MensajeBytes, OkeyAbortToCoordinator, OkeyToCoordinator,
    PingCord, Starter, Yes,
};
use crate::server::registro::{
    leer_registro, leer_registro_largo, leer_registro_largo_spec, leer_registro_spec, leer_tipo,
    leer_tipo_spec, lemma_decimal_limpio, registro_largo_valido, registro_valido, CamposRegistro,
    CamposRegistroLargo,
};
use crate::server::tabla::Tabla;
use crate::server::utils::SALDO_INICIAL;
use vstd::prelude::*;
use vstd::utf8::*;

verus! {

/// Where a transaction stands at the node that holds it.
#[derive(Debug, Clone, Copy, PartialEq, Eq, Structural)]
pub enum TransactionState {
    /// Committed by the leader.
    Accepted,
    /// Known to the node, nothing decided yet.
    Wait,
    /// Local work done, completion sent, commit awaited.
    WaitCommit,
    /// Cleared by the leader; the machine is preparing the drink.
    Locked,
    /// A credit whose completion waits for a leader to send it to.
    ToSend,
    Commit,
    /// Called off.
    Abort,
}

/// The endpoint a machine's datagram came from, and where answers go.
#[derive(Debug, Clone, Copy, PartialEq, Eq, Structural)]
pub struct Direccion {
    pub ip: u32,
    pub puerto: u16,
}

/// What a node remembers of a request of one of its machines.
#[derive(Debug, Clone, Copy)]
pub struct Transaction {
    /// Endpoint of the machine.
    pub socket: Direccion,
    /// Points to move.
    pub cantidad: u32,
    pub state: TransactionState,
    /// Machine that placed the request.
    pub id_cafetera: u8,
    /// Account of the request.
    pub id_cuenta: u32,
}

/// An account as one replica holds it.
#[derive(Debug, Clone, Copy)]
pub struct Cuenta {
    /// Set while a deduction on the account is being decided.
    pub blocked: bool,
    /// Points left.
    pub saldo: u32,
}

/// A datagram of a machine, with the endpoint it came from.
#[derive(Debug)]
pub struct ReceiveFromCafetera {
    pub msg: Vec<u8>,
    pub socket: Direccion,
}

/// News from the election: the node `id_nodo_coordinador` leads.
#[derive(Debug, Clone, Copy)]
pub struct ReceiveNewCoordinator {
    pub id_nodo_coordinador: u8,
}

/// What reaches a node.
#[derive(Debug)]
pub enum MensajeNodo {
    /// A datagram of a machine.
    Cafetera(ReceiveFromCafetera),
    /// A line of the leader.
    Linea(String),
    /// The stream to the leader has ended.
    Fin,
    /// News from the election.
    Coordinador(ReceiveNewCoordinator),
}

impl MensajeNodo {
    /// True when the node can take it: a datagram and a line have to be
    /// such as can be read.
    pub open spec fn bien_formado(&self) -> bool {
        match self {
            MensajeNodo::Cafetera(m) => trama_bien_formada(m.msg@),
            MensajeNodo::Linea(linea) => linea_bien_formada(linea@),
            _ => true,
        }
    }
}

/// What a node answers to a machine.
#[derive(Debug, Clone, Copy)]
pub enum RespuestaCafetera {
    Okey(OkeyToCafetera),
    Error(Error),
}

/// What a node writes to the leader.
#[derive(Debug, Clone, Copy)]
pub enum RegistroNodo {
    Starter(Starter),
    Yes(Yes),
    Finish(Finish),
    Abort(Abort),
    Okey(OkeyToCoordinator),
    OkeyAbort(OkeyAbortToCoordinator),
    Ping(PingCord),
    Disconnect(Disconnect),
}

/// One thing to do for the node, in the order given.
#[derive(Debug, Clone, Copy)]
pub enum AccionNodo {
    /// Send `mensaje` to the machine at `socket`.
    Cafetera { mensaje: RespuestaCafetera, socket: Direccion },
    /// Write the record, and an end of line, to the leader. A failed write
    /// means the leader is gone: an election is due.
    Coordinador(RegistroNodo),
    /// Have the election listener start an election.
    StartElection,
    /// Tell the election listener whether the node is on the network.
    SetState { estado: bool },
    /// Close the stream to the leader.
    Shutdown,
    /// Open a stream to the node `id_coordinador` and announce oneself.
    Conectar { id_coordinador: u8 },
}

impl RespuestaCafetera {
    /// The frame of the answer.
    pub open spec fn spec_bytes(&self) -> Seq<u8> {
        match self {
            RespuestaCafetera::Okey(m) => crate::compartido::mensajes_cafetera::trama(
                m.tipo_mensaje,
                m.id_cafetera,
                0,
                0,
            ),
            RespuestaCafetera::Error(m) => crate::compartido::mensajes_cafetera::trama(
                m.tipo_mensaje,
                m.id_cafetera,
                0,
                0,
            ),
        }
    }

    pub fn to_bytes(&self) -> (r: Vec<u8>)
        ensures
            r@ == self.spec_bytes(),
    {
        match self {
            RespuestaCafetera::Okey(m) => m.to_bytes(),
            RespuestaCafetera::Error(m) => m.to_bytes(),
        }
    }
}

impl RegistroNodo {
    /// The line of the record, without its end of line.
    pub open spec fn spec_texto(&self) -> Seq<char> {
        match self {
            RegistroNodo::Starter(m) => crate::server::registro::registro(
                m.tipo_mensaje,
                m.id_nodo,
                m.id_cuenta,
                m.id_transaccion,
                m.id_cafetera,
            ),
            RegistroNodo::Yes(m) => crate::server::registro::registro(
                m.tipo_mensaje,
                m.id_nodo,
                m.id_cuenta,
                m.id_transaccion,
                m.id_cafetera,
            ),
            RegistroNodo::Finish(m) => crate::server::registro::registro_largo(
                m.tipo_mensaje,
                m.id_nodo,
                m.id_cuenta,
                m.id_transaccion,
                m.tipo.spec_to_bytes(),
                m.cantidad,
                m.id_cafetera,
            ),
            RegistroNodo::Abort(m) => crate::server::registro::registro(
                m.tipo_mensaje,
                m.id_nodo,
                m.id_cuenta,
                m.id_transaccion,
                m.id_cafetera,
            ),
            RegistroNodo::Okey(m) => crate::server::registro::registro(
                m.tipo_mensaje,
                m.id_nodo,
                m.id_cuenta,
                m.id_transaccion,
                m.id_cafetera,
            ),
            RegistroNodo::OkeyAbort(m) => crate::server::registro::registro(
                m.tipo_mensaje,
                m.id_nodo,
                m.id_cuenta,
                m.id_transaccion,
                m.id_cafetera,
            ),
            RegistroNodo::Ping(m) => crate::server::registro::registro(
                m.tipo_mensaje,
                m.id_nodo,
                m.id_cuenta,
                m.id_transaccion,
                m.id_cafetera,
            ),
            RegistroNodo::Disconnect(m) => decimal(m.tipo_mensaje as nat),
        }
    }

    pub fn to_string(&self) -> (r: String)
        ensures
            r@ == self.spec_texto(),
    {
        match self {
            RegistroNodo::Starter(m) => m.to_string(),
            RegistroNodo::Yes(m) => m.to_string(),
            RegistroNodo::Finish(m) => m.f_to_string(),
            RegistroNodo::Abort(m) => m.to_string(),
            RegistroNodo::Okey(m) => m.to_string(),
            RegistroNodo::OkeyAbort(m) => m.to_string(),
            RegistroNodo::Ping(m) => m.to_string(),
            RegistroNodo::Disconnect(m) => m.to_string(),
        }
    }
}

/// The text of a transaction id: node, machine and order number, each in
/// decimal, one after the other.
pub open spec fn texto_id(id_nodo: u8, id_cafetera: u8, orden: u32) -> Seq<char> {
    decimal(id_nodo as nat) + decimal(id_cafetera as nat) + decimal(orden as nat)
}

/// The transaction id made of node, machine and order number: the number
/// that `texto_id` spells, if it fits.
pub open spec fn spec_id_transaccion(id_nodo: u8, id_cafetera: u8, orden: u32) -> Option<u32> {
    match field_bounded(texto_id(id_nodo, id_cafetera, orden), u32::MAX as nat) {
        Some(v) => Some(v as u32),
        None => None,
    }
}

/// Transaction ids tell their requests apart: as long as nodes are
/// numbered from one to nine and machines from zero to nine, two requests
/// with the same id come from the same node and the same machine and have
/// the same order number.
pub proof fn lemma_id_unico(n1: u8, m1: u8, o1: u32, n2: u8, m2: u8, o2: u32)
    requires
        1 <= n1 <= 9 && m1 <= 9,
        1 <= n2 <= 9 && m2 <= 9,
        spec_id_transaccion(n1, m1, o1) is Some,
        spec_id_transaccion(n1, m1, o1) == spec_id_transaccion(n2, m2, o2),
    ensures
        n1 == n2 && m1 == m2 && o1 == o2,
{
    let t1 = texto_id(n1, m1, o1);
    let t2 = texto_id(n2, m2, o2);
    lemma_texto_id(n1, m1, o1);
    lemma_texto_id(n2, m2, o2);
    crate::decimal::lemma_canonico(t1);
    crate::decimal::lemma_canonico(t2);
    assert(t1 == t2);
    assert(t1[0] == t2[0] && t1[1] == t2[1]);
    assert(decimal(o1 as nat) =~= t1.subrange(2, t1.len() as int));
    assert(decimal(o2 as nat) =~= t2.subrange(2, t2.len() as int));
    crate::decimal::lemma_decimal_inyectivo(o1 as nat, o2 as nat);
}

/// The text of an id of a node from one to nine and a machine from zero to
/// nine: the digit of the node, the digit of the machine, then the order
/// number.
pub proof fn lemma_texto_id(n: u8, m: u8, o: u32)
    requires
        1 <= n <= 9 && m <= 9,
    ensures
        texto_id(n, m, o).len() >= 3,
        texto_id(n, m, o)[0] == crate::decimal::digit_char(n as nat),
        texto_id(n, m, o)[1] == crate::decimal::digit_char(m as nat),
        texto_id(n, m, o)[0] != '0',
        texto_id(n, m, o)[0] != '+',
        crate::decimal::all_digits(texto_id(n, m, o)),
        texto_id(n, m, o).subrange(2, texto_id(n, m, o).len() as int) == decimal(o as nat),
        crate::decimal::field_number(texto_id(n, m, o)) == Some(
            crate::decimal::digits_value(texto_id(n, m, o)),
        ),
{
    let t = texto_id(n, m, o);
    let c = decimal(o as nat);
    crate::decimal::lemma_decimal_reads_back(o as nat);
    crate::decimal::lemma_digit_char(n as nat);
    crate::decimal::lemma_digit_char(m as nat);
    assert(decimal(n as nat) =~= seq![crate::decimal::digit_char(n as nat)]);
    assert(decimal(m as nat) =~= seq![crate::decimal::digit_char(m as nat)]);
    assert(t.len() == 2 + c.len());
    assert(t[0] == crate::decimal::digit_char(n as nat));
    assert(t[1] == crate::decimal::digit_char(m as nat));
    assert forall|i: int| 0 <= i < t.len() implies crate::decimal::is_digit(#[trigger] t[i]) by {
        if i >= 2 {
            assert(t[i] == c[i - 2]);
        }
    }
    assert(t.subrange(2, t.len() as int) =~= c);
    assert(crate::decimal::field_digits(t) == t);
}

/// Computes a transaction id.
pub fn id_transaccion(id_nodo: u8, id_cafetera: u8, orden: u32) -> (r: Option<u32>)
    ensures
        r == spec_id_transaccion(id_nodo, id_cafetera, orden),
{
    let mut s = decimal_string(id_nodo as u64);
    append_decimal(&mut s, id_cafetera as u64);
    append_decimal(&mut s, orden as u64);
    proof {
        lemma_decimal_limpio(id_nodo as nat);
        lemma_decimal_limpio(id_cafetera as nat);
        lemma_decimal_limpio(orden as nat);
        let a = decimal(id_nodo as nat);
        let b = decimal(id_cafetera as nat);
        let c = decimal(orden as nat);
        let t = texto_id(id_nodo, id_cafetera, orden);
        assert(s@ == t);
        assert forall|i: int| 0 <= i < t.len() implies '\0' <= #[trigger] t[i] <= '\u{7f}' by {
            if i < a.len() {
                assert(t[i] == a[i]);
            } else if i < a.len() + b.len() {
                assert(t[i] == b[i - a.len()]);
            } else {
                assert(t[i] == c[i - a.len() - b.len()]);
            }
        }
    }
    match ascii_chars(s.as_str()) {
        Some(chars) => parse_bounded(&chars, u32::MAX),
        None => None,
    }
}

/// The accounts with `id` among them: as it was, or opened at the initial
/// balance when the node had not heard of it.
pub open spec fn con_cuenta(cuentas: Map<u32, Cuenta>, id: u32) -> Map<u32, Cuenta> {
    if cuentas.contains_key(id) {
        cuentas
    } else {
        cuentas.insert(id, Cuenta { blocked: false, saldo: SALDO_INICIAL })
    }
}

/// The order of a table after `id` has been filed in it.
pub open spec fn con_orden(orden: Seq<u32>, tabla: Map<u32, Transaction>, id: u32) -> Seq<u32> {
    if tabla.contains_key(id) {
        orden
    } else {
        orden.push(id)
    }
}

/// The acknowledgement sent to the machine at `socket`.
pub open spec fn okey_a(socket: Direccion) -> AccionNodo {
    AccionNodo::Cafetera {
        mensaje: RespuestaCafetera::Okey(OkeyToCafetera::spec_new(0, 0, 0)),
        socket,
    }
}

/// The refusal sent to the machine at `socket`.
pub open spec fn error_a(socket: Direccion) -> AccionNodo {
    AccionNodo::Cafetera { mensaje: RespuestaCafetera::Error(Error::spec_new(0, 0, 0)), socket }
}

/// A transaction with another state.
pub open spec fn con_estado(t: Transaction, state: TransactionState) -> Transaction {
    Transaction { state, ..t }
}

/// True while a deduction is neither committed nor called off.
pub open spec fn pendiente(state: TransactionState) -> bool {
    state == TransactionState::Wait || state == TransactionState::Locked || state
        == TransactionState::WaitCommit
}

/// The balance after a committed transfer. A credit stops at the largest
/// balance, a deduction at zero; an unknown kind of transfer moves nothing.
pub open spec fn saldo_tras(saldo: u32, tipo: CommitType, cantidad: u32) -> u32 {
    match tipo {
        CommitType::SUMA => if saldo + cantidad > u32::MAX {
            u32::MAX
        } else {
            (saldo + cantidad) as u32
        },
        CommitType::RESTA => if cantidad > saldo {
            0
        } else {
            (saldo - cantidad) as u32
        },
        CommitType::UNKNOWN => saldo,
    }
}

/// Calls off every pending deduction of `orden`, oldest first, and tells
/// its machine.
pub open spec fn abortar_pendientes(orden: Seq<u32>, restas: Map<u32, Transaction>) -> (
    Map<u32, Transaction>,
    Seq<AccionNodo>,
)
    decreases orden.len(),
{
    if orden.len() == 0 {
        (restas, Seq::<AccionNodo>::empty())
    } else {
        let (m, a) = abortar_pendientes(orden.drop_last(), restas);
        let k = orden.last();
        if m.contains_key(k) && pendiente(m[k].state) {
            (m.insert(k, con_estado(m[k], TransactionState::Abort)), a.push(error_a(m[k].socket)))
        } else {
            (m, a)
        }
    }
}

/// The completion record of the credit `id`.
pub open spec fn finish_de_suma(id_nodo: u8, id: u32, t: Transaction) -> AccionNodo {
    AccionNodo::Coordinador(
        RegistroNodo::Finish(
            Finish::spec_new(id_nodo, t.id_cuenta, id, CommitType::SUMA, t.cantidad, t.id_cafetera),
        ),
    )
}

/// Sends the completion of every parked credit of `orden`, oldest first.
pub open spec fn enviar_pendientes(orden: Seq<u32>, sumas: Map<u32, Transaction>, id_nodo: u8) -> (
    Map<u32, Transaction>,
    Seq<AccionNodo>,
)
    decreases orden.len(),
{
    if orden.len() == 0 {
        (sumas, Seq::<AccionNodo>::empty())
    } else {
        let (m, a) = enviar_pendientes(orden.drop_last(), sumas, id_nodo);
        let k = orden.last();
        if m.contains_key(k) && m[k].state == TransactionState::ToSend {
            (
                m.insert(k, con_estado(m[k], TransactionState::WaitCommit)),
                a.push(finish_de_suma(id_nodo, k, m[k])),
            )
        } else {
            (m, a)
        }
    }
}

/// The credits with every one that awaited its commit parked instead.
pub open spec fn aparcadas(sumas: Map<u32, Transaction>) -> Map<u32, Transaction> {
    Map::new(
        |k: u32| sumas.contains_key(k),
        |k: u32|
            if sumas[k].state == TransactionState::WaitCommit {
                con_estado(sumas[k], TransactionState::ToSend)
            } else {
                sumas[k]
            },
    )
}

/// What a node knows, as plain mathematics.
pub struct EstadoNodo {
    /// The accounts.
    pub cuentas: Map<u32, Cuenta>,
    /// The deductions asked by the machines of this node.
    pub restas: Map<u32, Transaction>,
    /// Their ids, oldest first.
    pub orden_restas: Seq<u32>,
    /// The credits asked by the machines of this node.
    pub sumas: Map<u32, Transaction>,
    /// Their ids, oldest first.
    pub orden_sumas: Seq<u32>,
    /// For each machine, its latest transaction.
    pub en_curso: Map<u32, u32>,
    pub id_nodo: u8,
    /// Requests numbered so far.
    pub id_orden: u32,
    /// Whether the node takes itself to be on the network.
    pub conectado: bool,
    pub id_coordinador: u8,
}

impl EstadoNodo {
    /// The id of the next request of the machine `id_cafetera`, if one can
    /// be made.
    pub open spec fn nuevo_id(self, id_cafetera: u8) -> Option<u32> {
        if self.id_orden == u32::MAX {
            None
        } else {
            spec_id_transaccion(self.id_nodo, id_cafetera, (self.id_orden + 1) as u32)
        }
    }

    /// The transactions of the account `id_cuenta` that are under way,
    /// machine by machine.
    pub open spec fn en_vuelo(self, id_cuenta: u32) -> Map<u8, u32> {
        Map::new(
            |c: u8|
                self.en_curso.contains_key(c as u32) && ((self.sumas.contains_key(
                    self.en_curso[c as u32],
                ) && self.sumas[self.en_curso[c as u32]].id_cuenta == id_cuenta) || (
                !self.sumas.contains_key(self.en_curso[c as u32]) && self.restas.contains_key(
                    self.en_curso[c as u32],
                ) && self.restas[self.en_curso[c as u32]].id_cuenta == id_cuenta)),
            |c: u8| self.en_curso[c as u32],
        )
    }

    /// A machine asks for a credit: the request is filed, the account
    /// opened if need be, and the machine told to go ahead at once. If no
    /// id can be made for the request, it is refused.
    pub open spec fn sumar(self, m: Sumar, socket: Direccion) -> (EstadoNodo, Seq<AccionNodo>) {
        match self.nuevo_id(m.id_cafetera) {
            None => (self, seq![error_a(socket)]),
            Some(id) => (
                EstadoNodo {
                    cuentas: con_cuenta(self.cuentas, m.id_cuenta),
                    sumas: self.sumas.insert(
                        id,
                        Transaction {
                            socket,
                            cantidad: m.cantidad_modificar,
                            state: TransactionState::Wait,
                            id_cafetera: m.id_cafetera,
                            id_cuenta: m.id_cuenta,
                        },
                    ),
                    orden_sumas: con_orden(self.orden_sumas, self.sumas, id),
                    en_curso: self.en_curso.insert(m.id_cafetera as u32, id),
                    id_orden: (self.id_orden + 1) as u32,
                    ..self
                },
                seq![okey_a(socket)],
            ),
        }
    }

    /// A machine asks for a deduction: off the network, or when no id can
    /// be made, the request is refused; otherwise it is filed and opened
    /// with the leader.
    pub open spec fn restar(self, m: Restar, socket: Direccion) -> (EstadoNodo, Seq<AccionNodo>) {
        if !self.conectado {
            (self, seq![error_a(socket)])
        } else {
            match self.nuevo_id(m.id_cafetera) {
                None => (self, seq![error_a(socket)]),
                Some(id) => (
                    EstadoNodo {
                        cuentas: con_cuenta(self.cuentas, m.id_cuenta),
                        restas: self.restas.insert(
                            id,
                            Transaction {
                                socket,
                                cantidad: m.cantidad_modificar,
                                state: TransactionState::Wait,
                                id_cafetera: m.id_cafetera,
                                id_cuenta: m.id_cuenta,
                            },
                        ),
                        orden_restas: con_orden(self.orden_restas, self.restas, id),
                        en_curso: self.en_curso.insert(m.id_cafetera as u32, id),
                        id_orden: (self.id_orden + 1) as u32,
                        ..self
                    },
                    seq![
                        AccionNodo::Coordinador(
                            RegistroNodo::Starter(
                                Starter::spec_new(self.id_nodo, m.id_cuenta, id, m.id_cafetera),
                            ),
                        ),
                    ],
                ),
            }
        }
    }

    /// A machine pings: the ping is passed on to the leader.
    pub open spec fn ping(self, m: Ping) -> (EstadoNodo, Seq<AccionNodo>) {
        (
            self,
            seq![
                AccionNodo::Coordinador(
                    RegistroNodo::Ping(PingCord::spec_new(self.id_nodo, 0, 0, m.id_cafetera)),
                ),
            ],
        )
    }

    /// The machine `id_cafetera` reports its drink prepared. A credit that
    /// waited for it is completed with the leader, or parked while the node
    /// is off the network. A deduction that the leader had cleared is
    /// completed with the leader, or called off while off the network.
    /// Anything else is ignored.
    pub open spec fn okey(self, id_cafetera: u8) -> (EstadoNodo, Seq<AccionNodo>) {
        let c = id_cafetera as u32;
        if !self.en_curso.contains_key(c) {
            (self, Seq::<AccionNodo>::empty())
        } else {
            let id = self.en_curso[c];
            if self.sumas.contains_key(id) {
                let t = self.sumas[id];
                if t.state != TransactionState::Wait {
                    (self, Seq::<AccionNodo>::empty())
                } else if self.conectado {
                    (
                        EstadoNodo {
                            sumas: self.sumas.insert(
                                id,
                                con_estado(t, TransactionState::WaitCommit),
                            ),
                            ..self
                        },
                        seq![
                            AccionNodo::Coordinador(
                                RegistroNodo::Finish(
                                    Finish::spec_new(
                                        self.id_nodo,
                                        t.id_cuenta,
                                        id,
                                        CommitType::SUMA,
                                        t.cantidad,
                                        id_cafetera,
                                    ),
                                ),
                            ),
                        ],
                    )
                } else {
                    (
                        EstadoNodo {
                            sumas: self.sumas.insert(id, con_estado(t, TransactionState::ToSend)),
                            ..self
                        },
                        Seq::<AccionNodo>::empty(),
                    )
                }
            } else if self.restas.contains_key(id) {
                let t = self.restas[id];
                if t.state != TransactionState::Locked {
                    (self, Seq::<AccionNodo>::empty())
                } else if self.conectado {
                    (
                        EstadoNodo {
                            restas: self.restas.insert(
                                id,
                                con_estado(t, TransactionState::WaitCommit),
                            ),
                            ..self
                        },
                        seq![
                            AccionNodo::Coordinador(
                                RegistroNodo::Finish(
                                    Finish::spec_new(
                                        self.id_nodo,
                                        t.id_cuenta,
                                        id,
                                        CommitType::RESTA,
                                        t.cantidad,
                                        id_cafetera,
                                    ),
                                ),
                            ),
                        ],
                    )
                } else {
                    (
                        EstadoNodo {
                            restas: self.restas.insert(id, con_estado(t, TransactionState::Abort)),
                            ..self
                        },
                        seq![error_a(t.socket)],
                    )
                }
            } else {
                (self, Seq::<AccionNodo>::empty())
            }
        }
    }

    /// The machine `id_cafetera` reports its drink failed. A credit that
    /// waited for it is called off. A deduction that the leader had cleared
    /// is called off with the leader, if the node is on the network.
    /// Anything else is ignored.
    pub open spec fn error(self, id_cafetera: u8) -> (EstadoNodo, Seq<AccionNodo>) {
        let c = id_cafetera as u32;
        if !self.en_curso.contains_key(c) {
            (self, Seq::<AccionNodo>::empty())
        } else {
            let id = self.en_curso[c];
            if self.sumas.contains_key(id) {
                let t = self.sumas[id];
                if t.state == TransactionState::Wait {
                    (
                        EstadoNodo {
                            sumas: self.sumas.insert(id, con_estado(t, TransactionState::Abort)),
                            ..self
                        },
                        Seq::<AccionNodo>::empty(),
                    )
                } else {
                    (self, Seq::<AccionNodo>::empty())
                }
            } else if self.restas.contains_key(id) && self.restas[id].state
                == TransactionState::Locked && self.conectado {
                let t = self.restas[id];
                (
                    EstadoNodo {
                        restas: self.restas.insert(id, con_estado(t, TransactionState::Abort)),
                        ..self
                    },
                    seq![
                        AccionNodo::Coordinador(
                            RegistroNodo::Abort(
                                Abort::spec_new(self.id_nodo, t.id_cuenta, id, id_cafetera),
                            ),
                        ),
                    ],
                )
            } else {
                (self, Seq::<AccionNodo>::empty())
            }
        }
    }

    /// The operator cuts the node off. The leader tells its own
    /// coordinator to leave and silences its election listener; any other
    /// node closes its stream to the leader and from then on refuses
    /// deductions.
    pub open spec fn desconectar(self) -> (EstadoNodo, Seq<AccionNodo>) {
        if self.id_nodo == self.id_coordinador {
            (
                self,
                seq![
                    AccionNodo::Coordinador(
                        RegistroNodo::Disconnect(Disconnect { tipo_mensaje: 10 }),
                    ),
                    AccionNodo::SetState { estado: false },
                ],
            )
        } else {
            (EstadoNodo { conectado: false, ..self }, seq![AccionNodo::Shutdown])
        }
    }

    /// The operator puts the node back: the election listener goes looking
    /// for the leader.
    pub open spec fn conectar(self) -> (EstadoNodo, Seq<AccionNodo>) {
        (EstadoNodo { conectado: true, ..self }, seq![AccionNodo::SetState { estado: true }])
    }

    /// What a datagram of a machine brings about.
    pub open spec fn recibir(self, bytes: Seq<u8>, socket: Direccion) -> (
        EstadoNodo,
        Seq<AccionNodo>,
    ) {
        match MensajeCafetera::spec_from_bytes(bytes[0]) {
            MensajeCafetera::SUMAR => self.sumar(
                Sumar::spec_new(bytes[1], trama_cuenta(bytes), trama_cantidad(bytes)),
                socket,
            ),
            MensajeCafetera::RESTAR => self.restar(
                Restar::spec_new(bytes[1], trama_cuenta(bytes), trama_cantidad(bytes)),
                socket,
            ),
            MensajeCafetera::PING => self.ping(
                Ping::spec_new(bytes[1], trama_cuenta(bytes), trama_cantidad(bytes)),
            ),
            MensajeCafetera::OKEY => self.okey(bytes[1]),
            MensajeCafetera::ERROR => self.error(bytes[1]),
            MensajeCafetera::DESCONECTAR => self.desconectar(),
            MensajeCafetera::CONECTAR => self.conectar(),
            MensajeCafetera::DESCONOCIDO => (self, Seq::<AccionNodo>::empty()),
        }
    }

    /// The leader calls to prepare: the account is locked, opened first if
    /// need be, and the node answers yes.
    pub open spec fn prepare(self, c: CamposRegistro) -> (EstadoNodo, Seq<AccionNodo>) {
        let cuentas = con_cuenta(self.cuentas, c.id_cuenta);
        (
            EstadoNodo {
                cuentas: cuentas.insert(
                    c.id_cuenta,
                    Cuenta { blocked: true, saldo: cuentas[c.id_cuenta].saldo },
                ),
                ..self
            },
            seq![
                AccionNodo::Coordinador(
                    RegistroNodo::Yes(
                        Yes::spec_new(self.id_nodo, c.id_cuenta, c.id_transaccion, c.id_cafetera),
                    ),
                ),
            ],
        )
    }

    /// The leader clears a deduction of this node. If the node holds it,
    /// the balance decides: an amount above the balance calls the deduction
    /// off, with the machine and with the leader; any other amount lets the
    /// machine prepare the drink. A deduction that the node does not hold
    /// is called off with the leader.
    pub open spec fn execute(self, c: CamposRegistro) -> (EstadoNodo, Seq<AccionNodo>) {
        let abort = AccionNodo::Coordinador(
            RegistroNodo::Abort(
                Abort::spec_new(self.id_nodo, c.id_cuenta, c.id_transaccion, c.id_cafetera),
            ),
        );
        let id = c.id_transaccion;
        if self.restas.contains_key(id) {
            let t = self.restas[id];
            let cuentas = con_cuenta(self.cuentas, c.id_cuenta);
            if t.cantidad > cuentas[c.id_cuenta].saldo {
                (
                    EstadoNodo {
                        cuentas,
                        restas: self.restas.insert(id, con_estado(t, TransactionState::Abort)),
                        ..self
                    },
                    seq![error_a(t.socket), abort],
                )
            } else {
                (
                    EstadoNodo {
                        cuentas,
                        restas: self.restas.insert(id, con_estado(t, TransactionState::Locked)),
                        ..self
                    },
                    seq![okey_a(t.socket)],
                )
            }
        } else {
            (self, seq![abort])
        }
    }

    /// The leader commits a transfer: the balance moves, the account is
    /// unlocked, and the node answers. A transfer of this node is marked
    /// accepted; for a deduction its machine is told to hand the drink
    /// over, before the answer goes to the leader.
    pub open spec fn commit(self, c: CamposRegistroLargo) -> (EstadoNodo, Seq<AccionNodo>) {
        let tipo = CommitType::spec_from_bytes(c.transferencia);
        let id = c.id_transaccion;
        let antes = con_cuenta(self.cuentas, c.id_cuenta);
        let cuentas = antes.insert(
            c.id_cuenta,
            Cuenta {
                blocked: false,
                saldo: saldo_tras(antes[c.id_cuenta].saldo, tipo, c.cantidad),
            },
        );
        let ok = AccionNodo::Coordinador(
            RegistroNodo::Okey(
                OkeyToCoordinator::spec_new(self.id_nodo, c.id_cuenta, id, c.id_cafetera),
            ),
        );
        if tipo == CommitType::SUMA && self.sumas.contains_key(id) {
            (
                EstadoNodo {
                    cuentas,
                    sumas: self.sumas.insert(
                        id,
                        con_estado(self.sumas[id], TransactionState::Accepted),
                    ),
                    ..self
                },
                seq![ok],
            )
        } else if tipo == CommitType::RESTA && self.restas.contains_key(id) {
            (
                EstadoNodo {
                    cuentas,
                    restas: self.restas.insert(
                        id,
                        con_estado(self.restas[id], TransactionState::Accepted),
                    ),
                    ..self
                },
                seq![okey_a(self.restas[id].socket), ok],
            )
        } else {
            (EstadoNodo { cuentas, ..self }, seq![ok])
        }
    }

    /// The leader calls a transaction off: the account is unlocked and the
    /// node answers. If the transaction is a pending deduction of this
    /// node, it is called off here too and its machine is told first.
    pub open spec fn abort(self, c: CamposRegistro) -> (EstadoNodo, Seq<AccionNodo>) {
        let id = c.id_transaccion;
        let antes = con_cuenta(self.cuentas, c.id_cuenta);
        let cuentas = antes.insert(
            c.id_cuenta,
            Cuenta { blocked: false, saldo: antes[c.id_cuenta].saldo },
        );
        let ok = AccionNodo::Coordinador(
            RegistroNodo::OkeyAbort(
                OkeyAbortToCoordinator::spec_new(self.id_nodo, c.id_cuenta, id, c.id_cafetera),
            ),
        );
        if self.restas.contains_key(id) && pendiente(self.restas[id].state) {
            (
                EstadoNodo {
                    cuentas,
                    restas: self.restas.insert(
                        id,
                        con_estado(self.restas[id], TransactionState::Abort),
                    ),
                    ..self
                },
                seq![error_a(self.restas[id].socket), ok],
            )
        } else {
            (EstadoNodo { cuentas, ..self }, seq![ok])
        }
    }

    /// What a line of the leader brings about. Lines of other kinds than
    /// the four below, and lines that announce no kind, are ignored.
    pub open spec fn recibir_linea(self, linea: Seq<char>) -> (EstadoNodo, Seq<AccionNodo>) {
        match leer_tipo_spec(linea) {
            None => (self, Seq::<AccionNodo>::empty()),
            Some(code) => match Mensaje::spec_from_code(code) {
                Mensaje::PREPARE => self.prepare(leer_registro_spec(linea)),
                Mensaje::EXECUTE => self.execute(leer_registro_spec(linea)),
                Mensaje::COMMIT => self.commit(leer_registro_largo_spec(linea)),
                Mensaje::ABORT => self.abort(leer_registro_spec(linea)),
                _ => (self, Seq::<AccionNodo>::empty()),
            },
        }
    }

    /// The stream to the leader has ended. A node that took itself to be on
    /// the network asks for an election. Every pending deduction is called
    /// off, oldest first, and its machine told. Every credit whose
    /// completion was sent and not yet committed is parked, to be sent
    /// again to the next leader. The node is off the network until a leader
    /// is found.
    pub open spec fn finished(self) -> (EstadoNodo, Seq<AccionNodo>) {
        let (restas, errores) = abortar_pendientes(self.orden_restas, self.restas);
        let eleccion = if self.conectado {
            seq![AccionNodo::StartElection]
        } else {
            Seq::<AccionNodo>::empty()
        };
        (
            EstadoNodo { restas, sumas: aparcadas(self.sumas), conectado: false, ..self },
            eleccion + errores,
        )
    }

    /// A leader is known: the node connects to it, is on the network
    /// again, and sends the completion of every parked credit, oldest
    /// first.
    pub open spec fn nuevo_coordinador(self, id: u8) -> (EstadoNodo, Seq<AccionNodo>) {
        let (sumas, envios) = enviar_pendientes(self.orden_sumas, self.sumas, self.id_nodo);
        (
            EstadoNodo { id_coordinador: id, conectado: true, sumas, ..self },
            seq![AccionNodo::Conectar { id_coordinador: id }] + envios,
        )
    }
}

impl EstadoNodo {
    /// What the node makes of whatever reaches it.
    pub open spec fn paso(self, m: MensajeNodo) -> (EstadoNodo, Seq<AccionNodo>) {
        match m {
            MensajeNodo::Cafetera(c) => self.recibir(c.msg@, c.socket),
            MensajeNodo::Linea(linea) => self.recibir_linea(linea@),
            MensajeNodo::Fin => self.finished(),
            MensajeNodo::Coordinador(c) => self.nuevo_coordinador(c.id_nodo_coordinador),
        }
    }
}

/// True when a datagram can be read: it has a kind, and the five kinds
/// that carry fields come as a whole frame.
pub open spec fn trama_bien_formada(bytes: Seq<u8>) -> bool {
    &&& bytes.len() >= 1
    &&& match MensajeCafetera::spec_from_bytes(bytes[0]) {
        MensajeCafetera::SUMAR
        | MensajeCafetera::RESTAR
        | MensajeCafetera::PING
        | MensajeCafetera::OKEY
        | MensajeCafetera::ERROR => bytes.len() >= LARGO_TRAMA,
        _ => true,
    }
}

/// Tells whether a datagram can be read.
pub fn es_trama_bien_formada(bytes: &Vec<u8>) -> (r: bool)
    ensures
        r == trama_bien_formada(bytes@),
{
    if bytes.len() < 1 {
        return false;
    }
    match MensajeCafetera::from_bytes(bytes[0]) {
        MensajeCafetera::SUMAR
        | MensajeCafetera::RESTAR
        | MensajeCafetera::PING
        | MensajeCafetera::OKEY
        | MensajeCafetera::ERROR => bytes.len() >= LARGO_TRAMA,
        _ => true,
    }
}

/// True when a line of the leader can be read: a line of one of the four
/// kinds that a node acts on is a valid record of its length.
pub open spec fn linea_bien_formada(linea: Seq<char>) -> bool {
    match leer_tipo_spec(linea) {
        None => true,
        Some(code) => match Mensaje::spec_from_code(code) {
            Mensaje::PREPARE | Mensaje::EXECUTE | Mensaje::ABORT => registro_valido(linea),
            Mensaje::COMMIT => registro_largo_valido(linea),
            _ => true,
        },
    }
}

/// Tells whether a line of the leader can be read.
pub fn es_linea_bien_formada(linea: &str) -> (r: bool)
    ensures
        r == linea_bien_formada(linea@),
{
    match leer_tipo(linea) {
        None => true,
        Some(code) => match Mensaje::from_code(code) {
            Mensaje::PREPARE | Mensaje::EXECUTE | Mensaje::ABORT => leer_registro(linea).is_some(),
            Mensaje::COMMIT => leer_registro_largo(linea).is_some(),
            _ => true,
        },
    }
}

/// The balance of the account `id`, opened or not.
pub open spec fn saldo_de(cuentas: Map<u32, Cuenta>, id: u32) -> int {
    if cuentas.contains_key(id) {
        cuentas[id].saldo as int
    } else {
        SALDO_INICIAL as int
    }
}

/// What a commit adds to the account `id`: the amount of a credit, minus
/// the amount of a deduction, nothing for another account or an unknown
/// kind of transfer.
pub open spec fn aporte(c: CamposRegistroLargo, id: u32) -> int {
    if c.id_cuenta != id {
        0
    } else {
        match CommitType::spec_from_bytes(c.transferencia) {
            CommitType::SUMA => c.cantidad as int,
            CommitType::RESTA => -(c.cantidad as int),
            CommitType::UNKNOWN => 0,
        }
    }
}

/// What a run of commits adds to the account `id`.
pub open spec fn aporte_total(cs: Seq<CamposRegistroLargo>, id: u32) -> int
    decreases cs.len(),
{
    if cs.len() == 0 {
        0
    } else {
        aporte_total(cs.drop_last(), id) + aporte(cs.last(), id)
    }
}

/// True when the balance of the account `id` stays between zero and the
/// largest balance all along a run of commits that starts at `saldo`.
pub open spec fn sin_tope(saldo: int, cs: Seq<CamposRegistroLargo>, id: u32) -> bool {
    forall|k: int|
        0 <= k <= cs.len() ==> 0 <= saldo + #[trigger] aporte_total(cs.take(k), id) <= u32::MAX
}

impl EstadoNodo {
    /// The node after a run of commits.
    pub open spec fn tras_commits(self, cs: Seq<CamposRegistroLargo>) -> EstadoNodo
        decreases cs.len(),
    {
        if cs.len() == 0 {
            self
        } else {
            self.tras_commits(cs.drop_last()).commit(cs.last()).0
        }
    }
}

/// One commit moves the balance of its account by its amount, up for a
/// credit and down for a deduction, as long as the result is a balance;
/// it moves no other account.
pub proof fn lemma_commit_saldo(s: EstadoNodo, c: CamposRegistroLargo, id: u32)
    requires
        0 <= saldo_de(s.cuentas, id) + aporte(c, id) <= u32::MAX,
    ensures
        saldo_de(s.commit(c).0.cuentas, id) == saldo_de(s.cuentas, id) + aporte(c, id),
        saldo_de(s.commit(c).0.cuentas, id) >= 0,
{
}

/// Along a run of commits the balance of an account is what it was at the
/// start, plus the credits committed on it, minus the deductions committed
/// on it.
pub proof fn lemma_conservacion(s: EstadoNodo, cs: Seq<CamposRegistroLargo>, id: u32)
    requires
        sin_tope(saldo_de(s.cuentas, id), cs, id),
    ensures
        saldo_de(s.tras_commits(cs).cuentas, id) == saldo_de(s.cuentas, id) + aporte_total(cs, id),
    decreases cs.len(),
{
    if cs.len() > 0 {
        let antes = cs.drop_last();
        let saldo = saldo_de(s.cuentas, id);
        assert forall|k: int| 0 <= k <= antes.len() implies 0 <= saldo + #[trigger] aporte_total(
            antes.take(k),
            id,
        ) <= u32::MAX by {
            assert(antes.take(k) =~= cs.take(k));
        }
        lemma_conservacion(s, antes, id);
        assert(cs.take(cs.len() as int) =~= cs);
        assert(0 <= saldo + aporte_total(cs.take(cs.len() as int), id) <= u32::MAX);
        lemma_commit_saldo(s.tras_commits(antes), cs.last(), id);
    }
}

/// Nothing that a machine sends moves a balance.
pub proof fn lemma_cafetera_no_mueve_saldo(
    s: EstadoNodo,
    bytes: Seq<u8>,
    socket: Direccion,
    id: u32,
)
    ensures
        saldo_de(s.recibir(bytes, socket).0.cuentas, id) == saldo_de(s.cuentas, id),
{
}

/// Of what the leader sends, only a commit moves a balance: a call to
/// prepare, a clearance and an abort leave every balance as it was.
pub proof fn lemma_solo_commit_mueve_saldo(s: EstadoNodo, c: CamposRegistro, id: u32)
    ensures
        saldo_de(s.prepare(c).0.cuentas, id) == saldo_de(s.cuentas, id),
        saldo_de(s.execute(c).0.cuentas, id) == saldo_de(s.cuentas, id),
        saldo_de(s.abort(c).0.cuentas, id) == saldo_de(s.cuentas, id),
        s.finished().0.cuentas == s.cuentas,
        s.nuevo_coordinador(c.id_nodo).0.cuentas == s.cuentas,
{
}

/// A deduction that is cleared while its amount is above the balance is
/// called off, with the leader and with the machine; one within the
/// balance goes on, and its later commit leaves a balance of zero or more.
pub proof fn lemma_sin_sobregiro(s: EstadoNodo, c: CamposRegistro)
    requires
        s.restas.contains_key(c.id_transaccion),
    ensures
        saldo_de(s.execute(c).0.cuentas, c.id_cuenta) == saldo_de(s.cuentas, c.id_cuenta),
        s.restas[c.id_transaccion].cantidad > saldo_de(s.cuentas, c.id_cuenta) ==> {
            &&& s.execute(c).0.restas[c.id_transaccion].state == TransactionState::Abort
            &&& s.execute(c).1 == seq![
                error_a(s.restas[c.id_transaccion].socket),
                AccionNodo::Coordinador(
                    RegistroNodo::Abort(
                        Abort::spec_new(s.id_nodo, c.id_cuenta, c.id_transaccion, c.id_cafetera),
                    ),
                ),
            ]
        },
        s.restas[c.id_transaccion].cantidad <= saldo_de(s.cuentas, c.id_cuenta) ==> {
            &&& s.execute(c).0.restas[c.id_transaccion].state == TransactionState::Locked
            &&& s.execute(c).1 == seq![okey_a(s.restas[c.id_transaccion].socket)]
            &&& saldo_de(s.execute(c).0.cuentas, c.id_cuenta)
                - s.restas[c.id_transaccion].cantidad >= 0
        },
{
}

/// Parked credits are sent, one and all: after the news of a leader every
/// credit of `orden` that was parked awaits its commit, and its completion
/// is among the records sent; every other credit is as it was.
pub proof fn lemma_envia_pendientes(
    orden: Seq<u32>,
    sumas: Map<u32, Transaction>,
    id_nodo: u8,
    k: u32,
)
    requires
        orden.no_duplicates(),
        sumas.contains_key(k),
    ensures
        enviar_pendientes(orden, sumas, id_nodo).0.dom() == sumas.dom(),
        orden.contains(k) && sumas[k].state == TransactionState::ToSend ==> {
            &&& enviar_pendientes(orden, sumas, id_nodo).0[k] == con_estado(
                sumas[k],
                TransactionState::WaitCommit,
            )
            &&& enviar_pendientes(orden, sumas, id_nodo).1.contains(
                finish_de_suma(id_nodo, k, sumas[k]),
            )
        },
        !(orden.contains(k) && sumas[k].state == TransactionState::ToSend) ==> enviar_pendientes(
            orden,
            sumas,
            id_nodo,
        ).0[k] == sumas[k],
    decreases orden.len(),
{
    if orden.len() > 0 {
        let antes = orden.drop_last();
        let u = orden.last();
        assert(antes.no_duplicates());
        lemma_envia_pendientes(antes, sumas, id_nodo, k);
        let (m, a) = enviar_pendientes(antes, sumas, id_nodo);
        assert(!antes.contains(u)) by {
            if antes.contains(u) {
                let i = antes.index_of(u);
                assert(orden[i] == u && orden[orden.len() - 1] == u);
            }
        }
        if sumas.contains_key(u) {
            lemma_envia_pendientes(antes, sumas, id_nodo, u);
        }
        assert(orden.contains(k) <==> antes.contains(k) || k == u) by {
            if antes.contains(k) {
                let i = antes.index_of(k);
                assert(orden[i] == k);
            }
            if orden.contains(k) && k != u {
                let i = orden.index_of(k);
                assert(antes[i] == k);
            }
            if k == u {
                assert(orden[orden.len() - 1] == u);
            }
        }
        let (m2, a2) = enviar_pendientes(orden, sumas, id_nodo);
        if m.contains_key(u) && m[u].state == TransactionState::ToSend {
            assert(m2.dom() =~= sumas.dom());
            if antes.contains(k) && sumas[k].state == TransactionState::ToSend {
                let i = a.index_of(finish_de_suma(id_nodo, k, sumas[k]));
                assert(a2[i] == a[i]);
            }
            if k == u {
                assert(a2.last() == finish_de_suma(id_nodo, k, sumas[k]));
            }
        }
    } else {
        assert(!orden.contains(k));
    }
}

/// Calling off the pending deductions of `orden` reaches each of them:
/// a pending deduction that `orden` names ends called off, with the error
/// for its machine among the answers, and every other deduction is as it
/// was.
pub proof fn lemma_aborta_pendientes(orden: Seq<u32>, restas: Map<u32, Transaction>, k: u32)
    requires
        orden.no_duplicates(),
        restas.contains_key(k),
    ensures
        abortar_pendientes(orden, restas).0.dom() == restas.dom(),
        orden.contains(k) && pendiente(restas[k].state) ==> {
            &&& abortar_pendientes(orden, restas).0[k] == con_estado(
                restas[k],
                TransactionState::Abort,
            )
            &&& abortar_pendientes(orden, restas).1.contains(error_a(restas[k].socket))
        },
        !(orden.contains(k) && pendiente(restas[k].state)) ==> abortar_pendientes(
            orden,
            restas,
        ).0[k] == restas[k],
    decreases orden.len(),
{
    if orden.len() > 0 {
        let antes = orden.drop_last();
        let u = orden.last();
        assert(antes.no_duplicates());
        lemma_aborta_pendientes(antes, restas, k);
        let (m, a) = abortar_pendientes(antes, restas);
        assert(!antes.contains(u)) by {
            if antes.contains(u) {
                let i = antes.index_of(u);
                assert(orden[i] == u && orden[orden.len() - 1] == u);
            }
        }
        if restas.contains_key(u) {
            lemma_aborta_pendientes(antes, restas, u);
        }
        assert(orden.contains(k) <==> antes.contains(k) || k == u) by {
            if antes.contains(k) {
                let i = antes.index_of(k);
                assert(orden[i] == k);
            }
            if orden.contains(k) && k != u {
                let i = orden.index_of(k);
                assert(antes[i] == k);
            }
            if k == u {
                assert(orden[orden.len() - 1] == u);
            }
        }
        let (m2, a2) = abortar_pendientes(orden, restas);
        if m.contains_key(u) && pendiente(m[u].state) {
            assert(m2.dom() =~= restas.dom());
            if antes.contains(k) && pendiente(restas[k].state) {
                let i = a.index_of(error_a(restas[k].socket));
                assert(a2[i] == a[i]);
            }
            if k == u {
                assert(a2.last() == error_a(restas[k].socket));
            }
        }
    } else {
        assert(!orden.contains(k));
    }
}

/// Calling deductions off tells machines of errors and nothing else.
pub proof fn lemma_errores(orden: Seq<u32>, restas: Map<u32, Transaction>, i: int)
    requires
        0 <= i < abortar_pendientes(orden, restas).1.len(),
    ensures
        abortar_pendientes(orden, restas).1[i] is Cafetera,
    decreases orden.len(),
{
    if orden.len() > 0 {
        let (m, a) = abortar_pendientes(orden.drop_last(), restas);
        if i < a.len() {
            lemma_errores(orden.drop_last(), restas, i);
        }
    }
}

/// True when the action sends the leader the completion of a credit that
/// `orden` names.
pub open spec fn envio_de(orden: Seq<u32>, a: AccionNodo) -> bool {
    a matches AccionNodo::Coordinador(RegistroNodo::Finish(f)) && orden.contains(f.id_transaccion)
}

/// No completion is sent twice: the completions of the parked credits
/// are one for each credit, each under the id of its own.
pub proof fn lemma_envios_unicos(orden: Seq<u32>, sumas: Map<u32, Transaction>, id_nodo: u8)
    requires
        orden.no_duplicates(),
    ensures
        enviar_pendientes(orden, sumas, id_nodo).1.no_duplicates(),
        forall|i: int|
            0 <= i < enviar_pendientes(orden, sumas, id_nodo).1.len() ==> envio_de(
                orden,
                #[trigger] enviar_pendientes(orden, sumas, id_nodo).1[i],
            ),
    decreases orden.len(),
{
    if orden.len() > 0 {
        let antes = orden.drop_last();
        let u = orden.last();
        assert(antes.no_duplicates());
        lemma_envios_unicos(antes, sumas, id_nodo);
        let (m, a) = enviar_pendientes(antes, sumas, id_nodo);
        let a2 = enviar_pendientes(orden, sumas, id_nodo).1;
        assert(!antes.contains(u)) by {
            if antes.contains(u) {
                let i = antes.index_of(u);
                assert(orden[i] == u && orden[orden.len() - 1] == u);
            }
        }
        assert forall|i: int| 0 <= i < a2.len() implies envio_de(orden, #[trigger] a2[i]) by {
            if i < a.len() {
                assert(envio_de(antes, a[i]));
                let f = a[i]->Coordinador_0->Finish_0;
                let j = antes.index_of(f.id_transaccion);
                assert(orden[j] == f.id_transaccion);
            } else {
                assert(orden[orden.len() - 1] == u);
            }
        }
        assert forall|i: int, j: int| 0 <= i < a2.len() && 0 <= j < a2.len() && i != j implies a2[i]
            != a2[j] by {
            if i < a.len() && j < a.len() {
            } else if i < a.len() {
                assert(envio_de(antes, a[i]));
            } else if j < a.len() {
                assert(envio_de(antes, a[j]));
            }
        }
    }
}

/// A credit is not lost with its leader: whether its completion was sent
/// and not yet committed, or was still to be sent, once the stream to the
/// old leader has ended and a new leader is known the completion is among
/// the records sent, and the credit awaits its commit.
pub proof fn lemma_credito_reenviado(s: EstadoNodo, id: u8, k: u32)
    requires
        s.orden_sumas.no_duplicates(),
        s.orden_sumas.contains(k),
        s.sumas.contains_key(k),
        s.sumas[k].state == TransactionState::WaitCommit || s.sumas[k].state
            == TransactionState::ToSend,
    ensures
        s.finished().0.nuevo_coordinador(id).1.contains(finish_de_suma(s.id_nodo, k, s.sumas[k])),
        s.finished().0.nuevo_coordinador(id).0.sumas[k].state == TransactionState::WaitCommit,
{
    let f = s.finished().0;
    lemma_envia_pendientes(f.orden_sumas, f.sumas, f.id_nodo, k);
    let envios = enviar_pendientes(f.orden_sumas, f.sumas, f.id_nodo).1;
    let fin = finish_de_suma(s.id_nodo, k, s.sumas[k]);
    assert(finish_de_suma(f.id_nodo, k, f.sumas[k]) == fin);
    let i = envios.index_of(fin);
    assert(f.nuevo_coordinador(id).1[i + 1] == fin);
}

/// A replica of the ledger.
pub struct Nodo {
    cuentas: Tabla<Cuenta>,
    transacciones_resta: Tabla<Transaction>,
    transacciones_suma: Tabla<Transaction>,
    en_curso: Tabla<u32>,
    id_nodo: u8,
    id_orden: u32,
    conectado: bool,
    id_coordinador: u8,
}

impl View for Nodo {
    type V = EstadoNodo;

    closed spec fn view(&self) -> EstadoNodo {
        EstadoNodo {
            cuentas: self.cuentas@,
            restas: self.transacciones_resta@,
            orden_restas: self.transacciones_resta.orden(),
            sumas: self.transacciones_suma@,
            orden_sumas: self.transacciones_suma.orden(),
            en_curso: self.en_curso@,
            id_nodo: self.id_nodo,
            id_orden: self.id_orden,
            conectado: self.conectado,
            id_coordinador: self.id_coordinador,
        }
    }
}

fn es_pendiente(state: TransactionState) -> (r: bool)
    ensures
        r == pendiente(state),
{
    state == TransactionState::Wait || state == TransactionState::Locked || state
        == TransactionState::WaitCommit
}

fn una(a: AccionNodo) -> (r: Vec<AccionNodo>)
    ensures
        r@ == seq![a],
{
    let mut v: Vec<AccionNodo> = Vec::new();
    v.push(a);
    assert(v@ =~= seq![a]);
    v
}

fn dos(a: AccionNodo, b: AccionNodo) -> (r: Vec<AccionNodo>)
    ensures
        r@ == seq![a, b],
{
    let mut v: Vec<AccionNodo> = Vec::new();
    v.push(a);
    v.push(b);
    assert(v@ =~= seq![a, b]);
    v
}

fn ninguna() -> (r: Vec<AccionNodo>)
    ensures
        r@ == Seq::<AccionNodo>::empty(),
{
    Vec::new()
}

fn accion_okey(socket: Direccion) -> (r: AccionNodo)
    ensures
        r == okey_a(socket),
{
    AccionNodo::Cafetera { mensaje: RespuestaCafetera::Okey(OkeyToCafetera::new(0, 0, 0)), socket }
}

fn accion_error(socket: Direccion) -> (r: AccionNodo)
    ensures
        r == error_a(socket),
{
    AccionNodo::Cafetera { mensaje: RespuestaCafetera::Error(Error::new(0, 0, 0)), socket }
}

fn saldo_nuevo(saldo: u32, tipo: CommitType, cantidad: u32) -> (r: u32)
    ensures
        r == saldo_tras(saldo, tipo, cantidad),
{
    match tipo {
        CommitType::SUMA => if cantidad > u32::MAX - saldo {
            u32::MAX
        } else {
            saldo + cantidad
        },
        CommitType::RESTA => if cantidad > saldo {
            0
        } else {
            saldo - cantidad
        },
        CommitType::UNKNOWN => saldo,
    }
}

impl Nodo {
    /// The tables of the node are in order.
    pub closed spec fn wf(&self) -> bool {
        &&& self.cuentas.wf()
        &&& self.transacciones_resta.wf()
        &&& self.transacciones_suma.wf()
        &&& self.en_curso.wf()
    }

    /// What holds of every node: the order of its deductions names each
    /// of them once, and so does the order of its credits.
    pub proof fn lemma_wf(&self)
        requires
            self.wf(),
        ensures
            self@.orden_restas.no_duplicates(),
            forall|k: u32| self@.restas.contains_key(k) <==> self@.orden_restas.contains(k),
            self@.orden_sumas.no_duplicates(),
            forall|k: u32| self@.sumas.contains_key(k) <==> self@.orden_sumas.contains(k),
    {
        self.transacciones_resta.lemma_orden();
        self.transacciones_suma.lemma_orden();
    }

    /// No credit of a node is lost with its leader: one whose completion
    /// was sent and not yet committed, or was still to be sent, has its
    /// completion among the records for the next leader, once the stream
    /// to the old one has ended, and then awaits its commit.
    pub proof fn lemma_credito_a_salvo(&self, id: u8, k: u32)
        requires
            self.wf(),
            self@.sumas.contains_key(k),
            self@.sumas[k].state == TransactionState::WaitCommit || self@.sumas[k].state
                == TransactionState::ToSend,
        ensures
            self@.finished().0.nuevo_coordinador(id).1.contains(
                finish_de_suma(self@.id_nodo, k, self@.sumas[k]),
            ),
            self@.finished().0.nuevo_coordinador(id).0.sumas[k].state
                == TransactionState::WaitCommit,
    {
        self.lemma_wf();
        lemma_credito_reenviado(self@, id, k);
    }

    /// A node that knows the account 1 and nothing else, on the network,
    /// with `id_coordinador` as its leader.
    pub fn new(id_nodo: u8, id_coordinador: u8) -> (r: Nodo)
        ensures
            r.wf(),
            r@ == (EstadoNodo {
                cuentas: Map::<u32, Cuenta>::empty().insert(
                    1,
                    Cuenta { blocked: false, saldo: SALDO_INICIAL },
                ),
                restas: Map::<u32, Transaction>::empty(),
                orden_restas: Seq::<u32>::empty(),
                sumas: Map::<u32, Transaction>::empty(),
                orden_sumas: Seq::<u32>::empty(),
                en_curso: Map::<u32, u32>::empty(),
                id_nodo,
                id_orden: 0,
                conectado: true,
                id_coordinador,
            }),
    {
        let mut cuentas: Tabla<Cuenta> = Tabla::new();
        cuentas.insert(1, Cuenta { blocked: false, saldo: SALDO_INICIAL });
        Nodo {
            cuentas,
            transacciones_resta: Tabla::new(),
            transacciones_suma: Tabla::new(),
            en_curso: Tabla::new(),
            id_nodo,
            id_orden: 0,
            conectado: true,
            id_coordinador,
        }
    }

    pub fn id_nodo(&self) -> (r: u8)
        ensures
            r == self@.id_nodo,
    {
        self.id_nodo
    }

    pub fn id_coordinador(&self) -> (r: u8)
        ensures
            r == self@.id_coordinador,
    {
        self.id_coordinador
    }

    pub fn conectado(&self) -> (r: bool)
        ensures
            r == self@.conectado,
    {
        self.conectado
    }

    /// The account `id`, if the node has heard of it.
    pub fn cuenta(&self, id: u32) -> (r: Option<Cuenta>)
        requires
            self.wf(),
        ensures
            r is Some <==> self@.cuentas.contains_key(id),
            r is Some ==> r->0 == self@.cuentas[id],
    {
        match self.cuentas.get(id) {
            Some(c) => Some(*c),
            None => None,
        }
    }

    /// The deduction `id`, if it was asked at this node.
    pub fn transaccion_resta(&self, id: u32) -> (r: Option<Transaction>)
        requires
            self.wf(),
        ensures
            r is Some <==> self@.restas.contains_key(id),
            r is Some ==> r->0 == self@.restas[id],
    {
        match self.transacciones_resta.get(id) {
            Some(t) => Some(*t),
            None => None,
        }
    }

    /// The credit `id`, if it was asked at this node.
    pub fn transaccion_suma(&self, id: u32) -> (r: Option<Transaction>)
        requires
            self.wf(),
        ensures
            r is Some <==> self@.sumas.contains_key(id),
            r is Some ==> r->0 == self@.sumas[id],
    {
        match self.transacciones_suma.get(id) {
            Some(t) => Some(*t),
            None => None,
        }
    }

    /// The latest transaction of the machine `id_cafetera`.
    pub fn transaccion_en_curso(&self, id_cafetera: u8) -> (r: Option<u32>)
        requires
            self.wf(),
        ensures
            r is Some <==> self@.en_curso.contains_key(id_cafetera as u32),
            r is Some ==> r->0 == self@.en_curso[id_cafetera as u32],
    {
        match self.en_curso.get(id_cafetera as u32) {
            Some(t) => Some(*t),
            None => None,
        }
    }

    fn abrir_cuenta(&mut self, id: u32) -> (r: Cuenta)
        requires
            old(self).wf(),
        ensures
            final(self).wf(),
            final(self)@ == (EstadoNodo {
                cuentas: con_cuenta(old(self)@.cuentas, id),
                ..old(self)@
            }),
            r == final(self)@.cuentas[id],
    {
        let found = match self.cuentas.get(id) {
            Some(c) => Some(*c),
            None => None,
        };
        match found {
            Some(c) => c,
            None => {
                let c = Cuenta { blocked: false, saldo: SALDO_INICIAL };
                self.cuentas.insert(id, c);
                c
            },
        }
    }

    fn nuevo_id(&self, id_cafetera: u8) -> (r: Option<u32>)
        ensures
            r == self@.nuevo_id(id_cafetera),
    {
        if self.id_orden == u32::MAX {
            None
        } else {
            id_transaccion(self.id_nodo, id_cafetera, self.id_orden + 1)
        }
    }

    /// Takes a request for a credit.
    pub fn sumar(&mut self, m: Sumar, socket: Direccion) -> (r: Vec<AccionNodo>)
        requires
            old(self).wf(),
        ensures
            final(self).wf(),
            (final(self)@, r@) == old(self)@.sumar(m, socket),
    {
        match self.nuevo_id(m.id_cafetera) {
            None => una(accion_error(socket)),
            Some(id) => {
                self.abrir_cuenta(m.id_cuenta);
                self.transacciones_suma.insert(
                    id,
                    Transaction {
                        socket,
                        cantidad: m.cantidad_modificar,
                        state: TransactionState::Wait,
                        id_cafetera: m.id_cafetera,
                        id_cuenta: m.id_cuenta,
                    },
                );
                self.en_curso.insert(m.id_cafetera as u32, id);
                self.id_orden = self.id_orden + 1;
                una(accion_okey(socket))
            },
        }
    }

    /// Takes a request for a deduction.
    pub fn restar(&mut self, m: Restar, socket: Direccion) -> (r: Vec<AccionNodo>)
        requires
            old(self).wf(),
        ensures
            final(self).wf(),
            (final(self)@, r@) == old(self)@.restar(m, socket),
    {
        if !self.conectado {
            return una(accion_error(socket));
        }
        match self.nuevo_id(m.id_cafetera) {
            None => una(accion_error(socket)),
            Some(id) => {
                self.abrir_cuenta(m.id_cuenta);
                self.transacciones_resta.insert(
                    id,
                    Transaction {
                        socket,
                        cantidad: m.cantidad_modificar,
                        state: TransactionState::Wait,
                        id_cafetera: m.id_cafetera,
                        id_cuenta: m.id_cuenta,
                    },
                );
                self.en_curso.insert(m.id_cafetera as u32, id);
                self.id_orden = self.id_orden + 1;
                una(
                    AccionNodo::Coordinador(
                        RegistroNodo::Starter(
                            Starter::new(self.id_nodo, m.id_cuenta, id, m.id_cafetera),
                        ),
                    ),
                )
            },
        }
    }

    /// Passes the ping of a machine on.
    pub fn ping(&self, m: Ping) -> (r: Vec<AccionNodo>)
        ensures
            (self@, r@) == self@.ping(m),
    {
        una(
            AccionNodo::Coordinador(
                RegistroNodo::Ping(PingCord::new(self.id_nodo, 0, 0, m.id_cafetera)),
            ),
        )
    }

    /// Takes the report of a prepared drink.
    pub fn okey(&mut self, id_cafetera: u8) -> (r: Vec<AccionNodo>)
        requires
            old(self).wf(),
        ensures
            final(self).wf(),
            (final(self)@, r@) == old(self)@.okey(id_cafetera),
    {
        let id = match self.transaccion_en_curso(id_cafetera) {
            None => {
                return ninguna();
            },
            Some(id) => id,
        };
        match self.transaccion_suma(id) {
            Some(t) => {
                if t.state != TransactionState::Wait {
                    ninguna()
                } else if self.conectado {
                    self.transacciones_suma.insert(
                        id,
                        Transaction { state: TransactionState::WaitCommit, ..t },
                    );
                    una(
                        AccionNodo::Coordinador(
                            RegistroNodo::Finish(
                                Finish::new(
                                    self.id_nodo,
                                    t.id_cuenta,
                                    id,
                                    CommitType::SUMA,
                                    t.cantidad,
                                    id_cafetera,
                                ),
                            ),
                        ),
                    )
                } else {
                    self.transacciones_suma.insert(
                        id,
                        Transaction { state: TransactionState::ToSend, ..t },
                    );
                    ninguna()
                }
            },
            None => match self.transaccion_resta(id) {
                Some(t) => {
                    if t.state != TransactionState::Locked {
                        ninguna()
                    } else if self.conectado {
                        self.transacciones_resta.insert(
                            id,
                            Transaction { state: TransactionState::WaitCommit, ..t },
                        );
                        una(
                            AccionNodo::Coordinador(
                                RegistroNodo::Finish(
                                    Finish::new(
                                        self.id_nodo,
                                        t.id_cuenta,
                                        id,
                                        CommitType::RESTA,
                                        t.cantidad,
                                        id_cafetera,
                                    ),
                                ),
                            ),
                        )
                    } else {
                        self.transacciones_resta.insert(
                            id,
                            Transaction { state: TransactionState::Abort, ..t },
                        );
                        una(accion_error(t.socket))
                    }
                },
                None => ninguna(),
            },
        }
    }

    /// Takes the report of a failed drink.
    pub fn error(&mut self, id_cafetera: u8) -> (r: Vec<AccionNodo>)
        requires
            old(self).wf(),
        ensures
            final(self).wf(),
            (final(self)@, r@) == old(self)@.error(id_cafetera),
    {
        let id = match self.transaccion_en_curso(id_cafetera) {
            None => {
                return ninguna();
            },
            Some(id) => id,
        };
        match self.transaccion_suma(id) {
            Some(t) => {
                if t.state == TransactionState::Wait {
                    self.transacciones_suma.insert(
                        id,
                        Transaction { state: TransactionState::Abort, ..t },
                    );
                }
                ninguna()
            },
            None => match self.transaccion_resta(id) {
                Some(t) => {
                    if t.state == TransactionState::Locked && self.conectado {
                        self.transacciones_resta.insert(
                            id,
                            Transaction { state: TransactionState::Abort, ..t },
                        );
                        una(
                            AccionNodo::Coordinador(
                                RegistroNodo::Abort(
                                    Abort::new(self.id_nodo, t.id_cuenta, id, id_cafetera),
                                ),
                            ),
                        )
                    } else {
                        ninguna()
                    }
                },
                None => ninguna(),
            },
        }
    }

    /// Cuts the node off.
    pub fn desconectar(&mut self) -> (r: Vec<AccionNodo>)
        requires
            old(self).wf(),
        ensures
            final(self).wf(),
            (final(self)@, r@) == old(self)@.desconectar(),
    {
        if self.id_nodo == self.id_coordinador {
            dos(
                AccionNodo::Coordinador(
                    RegistroNodo::Disconnect(
                        Disconnect { tipo_mensaje: Mensaje::DISCONNECT.to_bytes() },
                    ),
                ),
                AccionNodo::SetState { estado: false },
            )
        } else {
            self.conectado = false;
            una(AccionNodo::Shutdown)
        }
    }

    /// Puts the node back on the network.
    pub fn conectar(&mut self) -> (r: Vec<AccionNodo>)
        requires
            old(self).wf(),
        ensures
            final(self).wf(),
            (final(self)@, r@) == old(self)@.conectar(),
    {
        self.conectado = true;
        una(AccionNodo::SetState { estado: true })
    }

    /// Takes whatever reaches the node: a datagram of a machine, a line of
    /// the leader, the end of the stream to the leader, or the news of a
    /// leader.
    pub fn handle(&mut self, msg: MensajeNodo) -> (r: Vec<AccionNodo>)
        requires
            old(self).wf(),
            msg.bien_formado(),
        ensures
            final(self).wf(),
            (final(self)@, r@) == old(self)@.paso(msg),
            msg is Fin ==> forall|k: u32|
                old(self)@.restas.contains_key(k) && pendiente(
                    (#[trigger] old(self)@.restas[k]).state,
                ) ==> {
                    &&& final(self)@.restas[k] == con_estado(
                        old(self)@.restas[k],
                        TransactionState::Abort,
                    )
                    &&& r@.contains(error_a(old(self)@.restas[k].socket))
                },
            msg is Coordinador ==> r@.no_duplicates() && forall|k: u32|
                old(self)@.sumas.contains_key(k) && old(self)@.sumas[k].state
                    == TransactionState::ToSend ==> {
                    &&& r@.contains(#[trigger] finish_de_suma(
                        old(self)@.id_nodo,
                        k,
                        old(self)@.sumas[k],
                    ))
                    &&& final(self)@.sumas[k].state == TransactionState::WaitCommit
                },
    {
        match msg {
            MensajeNodo::Cafetera(m) => self.handle_cafetera(m),
            MensajeNodo::Linea(linea) => self.handle_linea(linea),
            MensajeNodo::Fin => self.finished(),
            MensajeNodo::Coordinador(m) => self.handle_new_coordinator(m),
        }
    }

    /// Takes a datagram of a machine.
    pub fn handle_cafetera(&mut self, msg: ReceiveFromCafetera) -> (r: Vec<AccionNodo>)
        requires
            old(self).wf(),
            trama_bien_formada(msg.msg@),
        ensures
            final(self).wf(),
            (final(self)@, r@) == old(self)@.recibir(msg.msg@, msg.socket),
    {
        let socket = msg.socket;
        let tipo_mensaje = MensajeCafetera::from_bytes(msg.msg[0]);
        match tipo_mensaje {
            MensajeCafetera::SUMAR => {
                let mensaje = Sumar::from_bytes(msg.msg);
                self.sumar(mensaje, socket)
            },
            MensajeCafetera::RESTAR => {
                let mensaje = Restar::from_bytes(msg.msg);
                self.restar(mensaje, socket)
            },
            MensajeCafetera::PING => {
                let mensaje = Ping::from_bytes(msg.msg);
                self.ping(mensaje)
            },
            MensajeCafetera::OKEY => {
                let mensaje = OkeyToCafetera::from_bytes(msg.msg);
                self.okey(mensaje.id_cafetera)
            },
            MensajeCafetera::ERROR => {
                let mensaje = Error::from_bytes(msg.msg);
                self.error(mensaje.id_cafetera)
            },
            MensajeCafetera::DESCONOCIDO => ninguna(),
            MensajeCafetera::DESCONECTAR => self.desconectar(),
            MensajeCafetera::CONECTAR => self.conectar(),
        }
    }

    /// Takes a call to prepare.
    pub fn prepare(&mut self, c: CamposRegistro) -> (r: Vec<AccionNodo>)
        requires
            old(self).wf(),
        ensures
            final(self).wf(),
            (final(self)@, r@) == old(self)@.prepare(c),
    {
        let cuenta = self.abrir_cuenta(c.id_cuenta);
        self.cuentas.insert(c.id_cuenta, Cuenta { blocked: true, saldo: cuenta.saldo });
        una(
            AccionNodo::Coordinador(
                RegistroNodo::Yes(
                    Yes::new(self.id_nodo, c.id_cuenta, c.id_transaccion, c.id_cafetera),
                ),
            ),
        )
    }

    /// Takes the clearance of a deduction.
    pub fn execute(&mut self, c: CamposRegistro) -> (r: Vec<AccionNodo>)
        requires
            old(self).wf(),
        ensures
            final(self).wf(),
            (final(self)@, r@) == old(self)@.execute(c),
    {
        let abort = AccionNodo::Coordinador(
            RegistroNodo::Abort(
                Abort::new(self.id_nodo, c.id_cuenta, c.id_transaccion, c.id_cafetera),
            ),
        );
        let id = c.id_transaccion;
        match self.transaccion_resta(id) {
            Some(t) => {
                let cuenta = self.abrir_cuenta(c.id_cuenta);
                if t.cantidad > cuenta.saldo {
                    self.transacciones_resta.insert(
                        id,
                        Transaction { state: TransactionState::Abort, ..t },
                    );
                    dos(accion_error(t.socket), abort)
                } else {
                    self.transacciones_resta.insert(
                        id,
                        Transaction { state: TransactionState::Locked, ..t },
                    );
                    una(accion_okey(t.socket))
                }
            },
            None => una(abort),
        }
    }

    /// Takes a commit.
    pub fn commit(&mut self, c: CamposRegistroLargo) -> (r: Vec<AccionNodo>)
        requires
            old(self).wf(),
        ensures
            final(self).wf(),
            (final(self)@, r@) == old(self)@.commit(c),
    {
        let tipo = CommitType::from_bytes(c.transferencia);
        let id = c.id_transaccion;
        let cuenta = self.abrir_cuenta(c.id_cuenta);
        self.cuentas.insert(
            c.id_cuenta,
            Cuenta { blocked: false, saldo: saldo_nuevo(cuenta.saldo, tipo, c.cantidad) },
        );
        let ok = AccionNodo::Coordinador(
            RegistroNodo::Okey(
                OkeyToCoordinator::new(self.id_nodo, c.id_cuenta, id, c.id_cafetera),
            ),
        );
        match tipo {
            CommitType::SUMA => {
                match self.transaccion_suma(id) {
                    Some(t) => {
                        self.transacciones_suma.insert(
                            id,
                            Transaction { state: TransactionState::Accepted, ..t },
                        );
                    },
                    None => {},
                }
                una(ok)
            },
            CommitType::RESTA => {
                match self.transaccion_resta(id) {
                    Some(t) => {
                        self.transacciones_resta.insert(
                            id,
                            Transaction { state: TransactionState::Accepted, ..t },
                        );
                        dos(accion_okey(t.socket), ok)
                    },
                    None => una(ok),
                }
            },
            CommitType::UNKNOWN => una(ok),
        }
    }

    /// Takes the calling off of a transaction.
    pub fn abort(&mut self, c: CamposRegistro) -> (r: Vec<AccionNodo>)
        requires
            old(self).wf(),
        ensures
            final(self).wf(),
            (final(self)@, r@) == old(self)@.abort(c),
    {
        let id = c.id_transaccion;
        let cuenta = self.abrir_cuenta(c.id_cuenta);
        self.cuentas.insert(c.id_cuenta, Cuenta { blocked: false, saldo: cuenta.saldo });
        let ok = AccionNodo::Coordinador(
            RegistroNodo::OkeyAbort(
                OkeyAbortToCoordinator::new(self.id_nodo, c.id_cuenta, id, c.id_cafetera),
            ),
        );
        match self.transaccion_resta(id) {
            Some(t) => {
                if es_pendiente(t.state) {
                    self.transacciones_resta.insert(
                        id,
                        Transaction { state: TransactionState::Abort, ..t },
                    );
                    dos(accion_error(t.socket), ok)
                } else {
                    una(ok)
                }
            },
            None => una(ok),
        }
    }

    /// Takes a line of the leader.
    pub fn handle_linea(&mut self, linea: String) -> (r: Vec<AccionNodo>)
        requires
            old(self).wf(),
            linea_bien_formada(linea@),
        ensures
            final(self).wf(),
            (final(self)@, r@) == old(self)@.recibir_linea(linea@),
    {
        let texto = linea.as_str();
        match leer_tipo(texto) {
            None => ninguna(),
            Some(code) => match Mensaje::from_code(code) {
                Mensaje::PREPARE => {
                    let c = leer_registro(texto).unwrap();
                    self.prepare(c)
                },
                Mensaje::EXECUTE => {
                    let c = leer_registro(texto).unwrap();
                    self.execute(c)
                },
                Mensaje::COMMIT => {
                    let c = leer_registro_largo(texto).unwrap();
                    self.commit(c)
                },
                Mensaje::ABORT => {
                    let c = leer_registro(texto).unwrap();
                    self.abort(c)
                },
                _ => ninguna(),
            },
        }
    }

    /// Takes the end of the stream to the leader. Every deduction that was
    /// pending is called off and its machine told; every other deduction is
    /// as it was.
    pub fn finished(&mut self) -> (r: Vec<AccionNodo>)
        requires
            old(self).wf(),
        ensures
            final(self).wf(),
            (final(self)@, r@) == old(self)@.finished(),
            final(self)@.restas.dom() == old(self)@.restas.dom(),
            forall|k: u32|
                old(self)@.restas.contains_key(k) && pendiente(
                    (#[trigger] old(self)@.restas[k]).state,
                ) ==> {
                    &&& final(self)@.restas[k] == con_estado(
                        old(self)@.restas[k],
                        TransactionState::Abort,
                    )
                    &&& r@.contains(error_a(old(self)@.restas[k].socket))
                },
            forall|k: u32|
                old(self)@.restas.contains_key(k) && !pendiente(
                    (#[trigger] old(self)@.restas[k]).state,
                ) ==> final(self)@.restas[k] == old(self)@.restas[k],
            final(self)@.sumas.dom() == old(self)@.sumas.dom(),
            forall|k: u32|
                old(self)@.sumas.contains_key(k) ==> #[trigger] final(self)@.sumas[k] == (
                if old(self)@.sumas[k].state == TransactionState::WaitCommit {
                    con_estado(old(self)@.sumas[k], TransactionState::ToSend)
                } else {
                    old(self)@.sumas[k]
                }),
            final(self)@.cuentas == old(self)@.cuentas,
            !final(self)@.conectado,
            r@.contains(AccionNodo::StartElection) <==> old(self)@.conectado,
    {
        let ghost pre = self@;
        proof {
            old(self).lemma_wf();
            assert(aparcadas(pre.sumas).dom() =~= pre.sumas.dom());
            let errores = abortar_pendientes(pre.orden_restas, pre.restas).1;
            let todas = pre.finished().1;
            assert forall|k: u32| pre.restas.contains_key(k) implies {
                &&& pre.finished().0.restas.dom() == pre.restas.dom()
                &&& pendiente((#[trigger] pre.restas[k]).state) ==> pre.finished().0.restas[k]
                    == con_estado(pre.restas[k], TransactionState::Abort) && todas.contains(
                    error_a(pre.restas[k].socket),
                )
                &&& !pendiente(pre.restas[k].state) ==> pre.finished().0.restas[k] == pre.restas[k]
            } by {
                lemma_aborta_pendientes(pre.orden_restas, pre.restas, k);
                if pendiente(pre.restas[k].state) {
                    let i = errores.index_of(error_a(pre.restas[k].socket));
                    assert(todas[todas.len() - errores.len() + i] == errores[i]);
                }
            }
            if pre.restas.dom() =~= Set::<u32>::empty() {
                assert(pre.orden_restas.len() == 0) by {
                    if pre.orden_restas.len() > 0 {
                        assert(pre.orden_restas.contains(pre.orden_restas[0]));
                    }
                }
                assert(pre.finished().0.restas.dom() =~= pre.restas.dom());
            } else {
                let k0 = choose|k0: u32| pre.restas.dom().contains(k0);
                assert(pre.restas.contains_key(k0));
                lemma_aborta_pendientes(pre.orden_restas, pre.restas, k0);
            }
            assert(todas.contains(AccionNodo::StartElection) <==> pre.conectado) by {
                if pre.conectado {
                    assert(todas[0] == AccionNodo::StartElection);
                } else {
                    if todas.contains(AccionNodo::StartElection) {
                        let i = todas.index_of(AccionNodo::StartElection);
                        lemma_errores(pre.orden_restas, pre.restas, i);
                    }
                }
            }
        }
        let mut acciones: Vec<AccionNodo> = Vec::new();
        if self.conectado {
            acciones.push(AccionNodo::StartElection);
        }
        let ghost eleccion = acciones@;
        assert(eleccion =~= if pre.conectado {
            seq![AccionNodo::StartElection]
        } else {
            Seq::<AccionNodo>::empty()
        });
        let n = self.transacciones_resta.len();
        let mut i: usize = 0;
        assert(pre.orden_restas.take(0) =~= Seq::<u32>::empty());
        assert(acciones@ =~= eleccion + Seq::<AccionNodo>::empty());
        while i < n
            invariant
                self.wf(),
                i <= n,
                n == pre.orden_restas.len(),
                self@ == (EstadoNodo { restas: self@.restas, ..pre }),
                self@.restas == abortar_pendientes(pre.orden_restas.take(i as int), pre.restas).0,
                acciones@ == eleccion + abortar_pendientes(
                    pre.orden_restas.take(i as int),
                    pre.restas,
                ).1,
            decreases n - i,
        {
            let k = self.transacciones_resta.key_at(i);
            let t = *self.transacciones_resta.value_at(i);
            proof {
                let p = pre.orden_restas.take(i as int + 1);
                assert(p.drop_last() =~= pre.orden_restas.take(i as int));
                assert(p.last() == k);
            }
            if es_pendiente(t.state) {
                self.transacciones_resta.insert(
                    k,
                    Transaction { state: TransactionState::Abort, ..t },
                );
                acciones.push(accion_error(t.socket));
                assert(acciones@ =~= eleccion + abortar_pendientes(
                    pre.orden_restas.take(i as int + 1),
                    pre.restas,
                ).1);
            }
            i = i + 1;
        }
        assert(pre.orden_restas.take(n as int) =~= pre.orden_restas);
        self.aparcar();
        self.conectado = false;
        acciones
    }

    /// Parks every credit that awaited its commit.
    fn aparcar(&mut self)
        requires
            old(self).wf(),
        ensures
            final(self).wf(),
            final(self)@ == (EstadoNodo { sumas: aparcadas(old(self)@.sumas), ..old(self)@ }),
    {
        let ghost pre = self@;
        proof {
            self.transacciones_suma.lemma_orden();
        }
        let n = self.transacciones_suma.len();
        let mut i: usize = 0;
        while i < n
            invariant
                self.wf(),
                i <= n,
                n == pre.orden_sumas.len(),
                pre.orden_sumas.no_duplicates(),
                forall|k: u32| pre.sumas.contains_key(k) <==> pre.orden_sumas.contains(k),
                self@ == (EstadoNodo { sumas: self@.sumas, ..pre }),
                self@.sumas.dom() == pre.sumas.dom(),
                forall|j: int|
                    0 <= j < i ==> self@.sumas[#[trigger] pre.orden_sumas[j]] == aparcadas(
                        pre.sumas,
                    )[pre.orden_sumas[j]],
                forall|j: int|
                    i <= j < n ==> self@.sumas[#[trigger] pre.orden_sumas[j]]
                        == pre.sumas[pre.orden_sumas[j]],
            decreases n - i,
        {
            let k = self.transacciones_suma.key_at(i);
            let t = *self.transacciones_suma.value_at(i);
            let ghost antes = self@.sumas;
            if t.state == TransactionState::WaitCommit {
                self.transacciones_suma.insert(
                    k,
                    Transaction { state: TransactionState::ToSend, ..t },
                );
                assert(self@.sumas.dom() =~= antes.dom());
            }
            proof {
                assert forall|j: int| 0 <= j < i + 1 implies self@.sumas[#[trigger] pre.orden_sumas[j]]
                    == aparcadas(pre.sumas)[pre.orden_sumas[j]] by {
                    if j < i {
                        assert(pre.orden_sumas[j] != k);
                        assert(antes[pre.orden_sumas[j]] == aparcadas(pre.sumas)[pre.orden_sumas[j]]);
                    }
                }
                assert forall|j: int| i + 1 <= j < n implies self@.sumas[#[trigger] pre.orden_sumas[j]]
                    == pre.sumas[pre.orden_sumas[j]] by {
                    assert(pre.orden_sumas[j] != k);
                    assert(antes[pre.orden_sumas[j]] == pre.sumas[pre.orden_sumas[j]]);
                }
            }
            i = i + 1;
        }
        proof {
            assert forall|k: u32| self@.sumas.contains_key(k) implies #[trigger] self@.sumas[k]
                == aparcadas(pre.sumas)[k] by {
                assert(self@.sumas.dom().contains(k));
                assert(pre.sumas.dom().contains(k));
                assert(pre.orden_sumas.contains(k));
                let j = choose|j: int| 0 <= j < pre.orden_sumas.len() && pre.orden_sumas[j] == k;
                assert(self@.sumas[pre.orden_sumas[j]] == aparcadas(pre.sumas)[pre.orden_sumas[j]]);
            }
            assert(self@.sumas =~= aparcadas(pre.sumas));
        }
    }

    /// Takes the news of a leader.
    pub fn handle_new_coordinator(&mut self, msg: ReceiveNewCoordinator) -> (r: Vec<AccionNodo>)
        requires
            old(self).wf(),
        ensures
            final(self).wf(),
            (final(self)@, r@) == old(self)@.nuevo_coordinador(msg.id_nodo_coordinador),
            forall|k: u32|
                old(self)@.sumas.contains_key(k) && old(self)@.sumas[k].state
                    == TransactionState::ToSend ==> {
                    &&& r@.contains(#[trigger] finish_de_suma(
                        old(self)@.id_nodo,
                        k,
                        old(self)@.sumas[k],
                    ))
                    &&& final(self)@.sumas[k].state == TransactionState::WaitCommit
                },
            forall|k: u32|
                old(self)@.sumas.contains_key(k) && (#[trigger] old(self)@.sumas[k]).state
                    != TransactionState::ToSend ==> final(self)@.sumas[k] == old(self)@.sumas[k],
            r@.no_duplicates(),
    {
        let ghost pre = self@;
        proof {
            self.transacciones_suma.lemma_orden();
            assert forall|k: u32|
                pre.sumas.contains_key(k) && (#[trigger] pre.sumas[k]).state
                    != TransactionState::ToSend implies pre.nuevo_coordinador(
                msg.id_nodo_coordinador,
            ).0.sumas[k] == pre.sumas[k] by {
                lemma_envia_pendientes(pre.orden_sumas, pre.sumas, pre.id_nodo, k);
            }
            lemma_envios_unicos(pre.orden_sumas, pre.sumas, pre.id_nodo);
            let envios = enviar_pendientes(pre.orden_sumas, pre.sumas, pre.id_nodo).1;
            let todas = pre.nuevo_coordinador(msg.id_nodo_coordinador).1;
            assert forall|i: int, j: int|
                0 <= i < todas.len() && 0 <= j < todas.len() && i != j implies todas[i]
                != todas[j] by {
                if i > 0 && j > 0 {
                    assert(todas[i] == envios[i - 1] && todas[j] == envios[j - 1]);
                } else if i > 0 {
                    assert(envio_de(pre.orden_sumas, envios[i - 1]));
                } else {
                    assert(envio_de(pre.orden_sumas, envios[j - 1]));
                }
            }
            assert forall|k: u32|
                pre.sumas.contains_key(k) && pre.sumas[k].state
                    == TransactionState::ToSend implies {
                &&& pre.nuevo_coordinador(msg.id_nodo_coordinador).1.contains(
                    #[trigger] finish_de_suma(pre.id_nodo, k, pre.sumas[k]),
                )
                &&& pre.nuevo_coordinador(msg.id_nodo_coordinador).0.sumas[k].state
                    == TransactionState::WaitCommit
            } by {
                lemma_envia_pendientes(pre.orden_sumas, pre.sumas, pre.id_nodo, k);
                let envios = enviar_pendientes(pre.orden_sumas, pre.sumas, pre.id_nodo).1;
                let f = finish_de_suma(pre.id_nodo, k, pre.sumas[k]);
                let i = envios.index_of(f);
                let todas = pre.nuevo_coordinador(msg.id_nodo_coordinador).1;
                assert(todas[i + 1] == f);
            }
        }
        let id = msg.id_nodo_coordinador;
        self.id_coordinador = id;
        self.conectado = true;
        let mut acciones: Vec<AccionNodo> = Vec::new();
        acciones.push(AccionNodo::Conectar { id_coordinador: id });
        let ghost inicio = acciones@;
        assert(inicio =~= seq![AccionNodo::Conectar { id_coordinador: id }]);
        let n = self.transacciones_suma.len();
        let mut i: usize = 0;
        assert(pre.orden_sumas.take(0) =~= Seq::<u32>::empty());
        assert(acciones@ =~= inicio + Seq::<AccionNodo>::empty());
        while i < n
            invariant
                self.wf(),
                i <= n,
                n == pre.orden_sumas.len(),
                self@ == (EstadoNodo {
                    sumas: self@.sumas,
                    id_coordinador: id,
                    conectado: true,
                    ..pre
                }),
                self@.sumas == enviar_pendientes(
                    pre.orden_sumas.take(i as int),
                    pre.sumas,
                    pre.id_nodo,
                ).0,
                acciones@ == inicio + enviar_pendientes(
                    pre.orden_sumas.take(i as int),
                    pre.sumas,
                    pre.id_nodo,
                ).1,
            decreases n - i,
        {
            let k = self.transacciones_suma.key_at(i);
            let t = *self.transacciones_suma.value_at(i);
            proof {
                let p = pre.orden_sumas.take(i as int + 1);
                assert(p.drop_last() =~= pre.orden_sumas.take(i as int));
                assert(p.last() == k);
            }
            if t.state == TransactionState::ToSend {
                self.transacciones_suma.insert(
                    k,
                    Transaction { state: TransactionState::WaitCommit, ..t },
                );
                let finish = Finish::new(
                    self.id_nodo,
                    t.id_cuenta,
                    k,
                    CommitType::SUMA,
                    t.cantidad,
                    t.id_cafetera,
                );
                acciones.push(AccionNodo::Coordinador(RegistroNodo::Finish(finish)));
                assert(acciones@ =~= inicio + enviar_pendientes(
                    pre.orden_sumas.take(i as int + 1),
                    pre.sumas,
                    pre.id_nodo,
                ).1);
            }
            i = i + 1;
        }
        assert(pre.orden_sumas.take(n as int) =~= pre.orden_sumas);
        acciones
    }
}

} // verus!
