//! The leader's end of the stream of one follower: it reads the lines of
//! the follower into records for the coordinator, and notices when the
//! follower goes.

use crate::server::coordinador::{Disconnect, DisconnectNodo, Entrada};
use crate::server::mensaje::{
    Abort, CommitType, Finish, Mensaje, MensajeBytes, OkeyAbortToCoordinator, OkeyToCoordinator,
    PingCord, Starter, Yes,
};
use crate::server::registro::{
    leer_registro, leer_registro_largo, leer_registro_largo_spec, leer_registro_spec, leer_tipo,
    leer_tipo_spec, registro_largo_valido, registro_valido,
};
use vstd::prelude::*;
use vstd::string::*;

verus! {

/// A line for the follower, without its end of line.
#[derive(Debug, Clone)]
pub struct ReceiverFromCoordinador {
    pub string: String,
}

/// The order to close the stream to the follower.
#[derive(Debug, Clone, Copy)]
pub struct Shutdown;

impl ReceiverFromCoordinador {
    /// What is written to the stream: the line and its end.
    pub fn linea(self) -> (r: String)
        ensures
            r@ == self.string@.push('\n'),
    {
        proof {
            reveal_strlit("\n");
        }
        let mut s = self.string;
        s.append("\n");
        assert(self.string@ + "\n"@ =~= self.string@.push('\n'));
        s
    }
}

/// The record that a line of a follower stands for.
pub open spec fn decodificar(linea: Seq<char>) -> Entrada {
    let c = leer_registro_spec(linea);
    let l = leer_registro_largo_spec(linea);
    match leer_tipo_spec(linea) {
        None => Entrada::Desconocido,
        Some(code) => match Mensaje::spec_from_code(code) {
            Mensaje::STARTER => Entrada::Starter(
                Starter::spec_new(c.id_nodo, c.id_cuenta, c.id_transaccion, c.id_cafetera),
            ),
            Mensaje::YES => Entrada::Yes(
                Yes::spec_new(c.id_nodo, c.id_cuenta, c.id_transaccion, c.id_cafetera),
            ),
            Mensaje::PING => Entrada::Ping(
                PingCord::spec_new(c.id_nodo, c.id_cuenta, c.id_transaccion, c.id_cafetera),
            ),
            Mensaje::FINISH => Entrada::Finish(
                Finish::spec_new(
                    l.id_nodo,
                    l.id_cuenta,
                    l.id_transaccion,
                    CommitType::spec_from_bytes(l.transferencia),
                    l.cantidad,
                    l.id_cafetera,
                ),
            ),
            Mensaje::OKEY => Entrada::Okey(
                OkeyToCoordinator::spec_new(c.id_nodo, c.id_cuenta, c.id_transaccion, c.id_cafetera),
            ),
            Mensaje::OKEYABORT => Entrada::OkeyAbort(
                OkeyAbortToCoordinator::spec_new(
                    c.id_nodo,
                    c.id_cuenta,
                    c.id_transaccion,
                    c.id_cafetera,
                ),
            ),
            Mensaje::ABORT => Entrada::Abort(
                Abort::spec_new(c.id_nodo, c.id_cuenta, c.id_transaccion, c.id_cafetera),
            ),
            Mensaje::DISCONNECT => Entrada::Disconnect(Disconnect { tipo_mensaje: 10 }),
            _ => Entrada::Desconocido,
        },
    }
}

/// True when a line of a follower can be read: a line of a kind that the
/// leader acts on is a valid record of its length. The order to leave
/// needs nothing but its kind.
pub open spec fn linea_bien_formada(linea: Seq<char>) -> bool {
    match leer_tipo_spec(linea) {
        None => true,
        Some(code) => match Mensaje::spec_from_code(code) {
            Mensaje::STARTER
            | Mensaje::YES
            | Mensaje::PING
            | Mensaje::OKEY
            | Mensaje::OKEYABORT
            | Mensaje::ABORT => registro_valido(linea),
            Mensaje::FINISH => registro_largo_valido(linea),
            _ => true,
        },
    }
}

/// Tells whether a line of a follower can be read.
pub fn es_linea_bien_formada(linea: &str) -> (r: bool)
    ensures
        r == linea_bien_formada(linea@),
{
    match leer_tipo(linea) {
        None => true,
        Some(code) => match Mensaje::from_code(code) {
            Mensaje::STARTER
            | Mensaje::YES
            | Mensaje::PING
            | Mensaje::OKEY
            | Mensaje::OKEYABORT
            | Mensaje::ABORT => leer_registro(linea).is_some(),
            Mensaje::FINISH => leer_registro_largo(linea).is_some(),
            _ => true,
        },
    }
}

/// The leader's end of the stream of the follower `id_nodo`.
#[derive(Debug, Clone, Copy)]
pub struct NodoHandler {
    pub id_nodo: u8,
    /// Cleared once the leader has been told to leave the network: the end
    /// of the stream is then no news.
    pub conectado: bool,
}

impl NodoHandler {
    pub fn new(id_nodo: u8) -> (r: NodoHandler)
        ensures
            r.id_nodo == id_nodo,
            r.conectado,
    {
        NodoHandler { id_nodo, conectado: true }
    }

    /// Reads a line of the follower into the record to hand to the
    /// coordinator. The order to leave the network also marks this end as
    /// disconnected.
    pub fn handle(&mut self, linea: String) -> (r: Entrada)
        requires
            linea_bien_formada(linea@),
        ensures
            r == decodificar(linea@),
            final(self).id_nodo == old(self).id_nodo,
            final(self).conectado == (old(self).conectado && !(r is Disconnect)),
    {
        let texto = linea.as_str();
        match leer_tipo(texto) {
            None => Entrada::Desconocido,
            Some(code) => match Mensaje::from_code(code) {
                Mensaje::STARTER => Entrada::Starter(Starter::from_string(linea)),
                Mensaje::YES => Entrada::Yes(Yes::from_string(linea)),
                Mensaje::PING => Entrada::Ping(PingCord::from_string(linea)),
                Mensaje::FINISH => Entrada::Finish(Finish::from_string(linea)),
                Mensaje::OKEY => Entrada::Okey(OkeyToCoordinator::from_string(linea)),
                Mensaje::OKEYABORT => Entrada::OkeyAbort(
                    OkeyAbortToCoordinator::from_string(linea),
                ),
                Mensaje::ABORT => Entrada::Abort(Abort::from_string(linea)),
                Mensaje::DISCONNECT => {
                    self.conectado = false;
                    Entrada::Disconnect(Disconnect { tipo_mensaje: Mensaje::DISCONNECT.to_bytes() })
                },
                _ => Entrada::Desconocido,
            },
        }
    }

    /// The stream of the follower has ended: the coordinator is told that
    /// the follower has gone, unless this end was already disconnected.
    pub fn finished(&self) -> (r: Option<DisconnectNodo>)
        ensures
            r is Some <==> self.conectado,
            r is Some ==> r->0.id_nodo == self.id_nodo,
    {
        if self.conectado {
            Some(DisconnectNodo { id_nodo: self.id_nodo })
        } else {
            None
        }
    }
}

} // verus!
