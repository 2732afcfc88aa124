//! Records exchanged between a node and the leader over their stream.
//! Every message is one line: five decimal fields
//! `kind-node-account-transaction-machine`, or seven for the two messages
//! that carry a transfer, `kind-node-account-transaction-transfer-amount-machine`.

use crate::server::registro::{
    escribir_registro, escribir_registro_largo, leer_registro, leer_registro_largo,
    leer_registro_largo_spec, leer_registro_spec, registro, registro_largo,
    registro_largo_valido, registro_valido,
};
use vstd::prelude::*;

verus! {

/// Kind of a record.
#[derive(Debug, Clone, Copy, PartialEq, Eq, Structural)]
pub enum Mensaje {
    STARTER,
    PREPARE,
    YES,
    EXECUTE,
    FINISH,
    COMMIT,
    OKEY,
    ABORT,
    PING,
    OKEYABORT,
    DISCONNECT,
    UNKNOWN,
}

impl Mensaje {
    /// The kind with the number `code`.
    pub open spec fn spec_from_code(code: u8) -> Mensaje {
        if code == 0 {
            Mensaje::STARTER
        } else if code == 1 {
            Mensaje::PREPARE
        } else if code == 2 {
            Mensaje::YES
        } else if code == 3 {
            Mensaje::EXECUTE
        } else if code == 4 {
            Mensaje::FINISH
        } else if code == 5 {
            Mensaje::COMMIT
        } else if code == 6 {
            Mensaje::OKEY
        } else if code == 7 {
            Mensaje::ABORT
        } else if code == 8 {
            Mensaje::PING
        } else if code == 9 {
            Mensaje::OKEYABORT
        } else if code == 10 {
            Mensaje::DISCONNECT
        } else {
            Mensaje::UNKNOWN
        }
    }

    /// The number of a kind.
    pub open spec fn spec_to_bytes(&self) -> u8 {
        match self {
            Mensaje::STARTER => 0,
            Mensaje::PREPARE => 1,
            Mensaje::YES => 2,
            Mensaje::EXECUTE => 3,
            Mensaje::FINISH => 4,
            Mensaje::COMMIT => 5,
            Mensaje::OKEY => 6,
            Mensaje::ABORT => 7,
            Mensaje::PING => 8,
            Mensaje::OKEYABORT => 9,
            Mensaje::DISCONNECT => 10,
            Mensaje::UNKNOWN => 11,
        }
    }

    /// The kind announced by the ASCII character `byte`: a digit stands
    /// for the kind of its number, anything else for no kind. The order to
    /// leave the network has a number of two digits, and no character of
    /// its own.
    pub open spec fn spec_from_bytes(byte: u8) -> Mensaje {
        if 48 <= byte <= 57 {
            Self::spec_from_code((byte - 48) as u8)
        } else {
            Mensaje::UNKNOWN
        }
    }

    /// Decodes the first character of a line.
    pub fn from_bytes(byte: u8) -> (r: Mensaje)
        ensures
            r == Self::spec_from_bytes(byte),
    {
        match byte {
            48u8 => Mensaje::STARTER,
            49u8 => Mensaje::PREPARE,
            50u8 => Mensaje::YES,
            51u8 => Mensaje::EXECUTE,
            52u8 => Mensaje::FINISH,
            53u8 => Mensaje::COMMIT,
            54u8 => Mensaje::OKEY,
            55u8 => Mensaje::ABORT,
            56u8 => Mensaje::PING,
            57u8 => Mensaje::OKEYABORT,
            _ => Mensaje::UNKNOWN,
        }
    }

    /// Decodes the number in the first field of a record.
    pub fn from_code(code: u8) -> (r: Mensaje)
        ensures
            r == Self::spec_from_code(code),
    {
        match code {
            0u8 => Mensaje::STARTER,
            1u8 => Mensaje::PREPARE,
            2u8 => Mensaje::YES,
            3u8 => Mensaje::EXECUTE,
            4u8 => Mensaje::FINISH,
            5u8 => Mensaje::COMMIT,
            6u8 => Mensaje::OKEY,
            7u8 => Mensaje::ABORT,
            8u8 => Mensaje::PING,
            9u8 => Mensaje::OKEYABORT,
            10u8 => Mensaje::DISCONNECT,
            _ => Mensaje::UNKNOWN,
        }
    }

    /// The number written in the first field of a record of this kind.
    pub fn to_bytes(&self) -> (r: u8)
        ensures
            r == self.spec_to_bytes(),
    {
        match self {
            Mensaje::STARTER => 0u8,
            Mensaje::PREPARE => 1u8,
            Mensaje::YES => 2u8,
            Mensaje::EXECUTE => 3u8,
            Mensaje::FINISH => 4u8,
            Mensaje::COMMIT => 5u8,
            Mensaje::OKEY => 6u8,
            Mensaje::ABORT => 7u8,
            Mensaje::PING => 8u8,
            Mensaje::OKEYABORT => 9u8,
            Mensaje::DISCONNECT => 10u8,
            Mensaje::UNKNOWN => 11u8,
        }
    }
}

/// Every known kind is found again from its number.
pub proof fn lemma_mensaje_roundtrip(m: Mensaje)
    requires
        m != Mensaje::UNKNOWN,
    ensures
        Mensaje::spec_from_code(m.spec_to_bytes()) == m,
{
}

/// Kind of transfer that a transaction makes.
#[derive(Debug, Clone, Copy, PartialEq, Eq, Structural)]
pub enum CommitType {
    /// A credit.
    SUMA,
    /// A deduction.
    RESTA,
    UNKNOWN,
}

impl CommitType {
    /// The number of a kind of transfer.
    pub open spec fn spec_to_bytes(&self) -> u8 {
        match self {
            CommitType::SUMA => 0,
            CommitType::RESTA => 1,
            CommitType::UNKNOWN => 2,
        }
    }

    /// The kind of transfer with the number `bytes`.
    pub open spec fn spec_from_bytes(bytes: u8) -> CommitType {
        if bytes == 0 {
            CommitType::SUMA
        } else if bytes == 1 {
            CommitType::RESTA
        } else {
            CommitType::UNKNOWN
        }
    }

    pub fn to_bytes(&self) -> (r: u8)
        ensures
            r == self.spec_to_bytes(),
    {
        match self {
            CommitType::SUMA => 0,
            CommitType::RESTA => 1,
            CommitType::UNKNOWN => 2,
        }
    }

    pub fn from_bytes(bytes: u8) -> (r: CommitType)
        ensures
            r == Self::spec_from_bytes(bytes),
    {
        match bytes {
            0u8 => CommitType::SUMA,
            1u8 => CommitType::RESTA,
            _ => CommitType::UNKNOWN,
        }
    }
}

/// Every kind of transfer is found again from its number.
pub proof fn lemma_commit_type_roundtrip(t: CommitType)
    ensures
        CommitType::spec_from_bytes(t.spec_to_bytes()) == t,
{
}

/// What every short record offers: its five fields, its line, and its
/// reading from a line.
pub trait MensajeBytes: Sized {
    /// The message that `new` builds from the four arguments.
    spec fn spec_new(id_nodo: u8, id_cuenta: u32, id_transaccion: u32, id_cafetera: u8) -> Self;

    spec fn spec_tipo_mensaje(&self) -> u8;

    spec fn spec_id_nodo(&self) -> u8;

    spec fn spec_id_cuenta(&self) -> u32;

    spec fn spec_id_transaccion(&self) -> u32;

    spec fn spec_id_cafetera(&self) -> u8;

    fn new(id_nodo: u8, id_cuenta: u32, id_transaccion: u32, id_cafetera: u8) -> (r: Self)
        ensures
            r == Self::spec_new(id_nodo, id_cuenta, id_transaccion, id_cafetera),
    ;

    fn get_tipo_mensaje(&self) -> (r: u8)
        ensures
            r == self.spec_tipo_mensaje(),
    ;

    fn get_id_nodo(&self) -> (r: u8)
        ensures
            r == self.spec_id_nodo(),
    ;

    fn get_id_cuenta(&self) -> (r: u32)
        ensures
            r == self.spec_id_cuenta(),
    ;

    fn get_id_transaccion(&self) -> (r: u32)
        ensures
            r == self.spec_id_transaccion(),
    ;

    fn get_id_cafetera(&self) -> (r: u8)
        ensures
            r == self.spec_id_cafetera(),
    ;

    /// The line of the message, without its end of line.
    fn to_string(&self) -> (r: String)
        ensures
            r@ == registro(
                self.spec_tipo_mensaje(),
                self.spec_id_nodo(),
                self.spec_id_cuenta(),
                self.spec_id_transaccion(),
                self.spec_id_cafetera(),
            ),
    {
        escribir_registro(
            self.get_tipo_mensaje(),
            self.get_id_nodo(),
            self.get_id_cuenta(),
            self.get_id_transaccion(),
            self.get_id_cafetera(),
        )
    }

    /// Reads a message from a valid line; the kind written in the line is
    /// not looked at.
    fn from_string(string: String) -> (r: Self)
        requires
            registro_valido(string@),
        ensures
            r == Self::spec_new(
                leer_registro_spec(string@).id_nodo,
                leer_registro_spec(string@).id_cuenta,
                leer_registro_spec(string@).id_transaccion,
                leer_registro_spec(string@).id_cafetera,
            ),
    {
        let c = leer_registro(string.as_str()).unwrap();
        Self::new(c.id_nodo, c.id_cuenta, c.id_transaccion, c.id_cafetera)
    }
}

/// Sent by a node to the leader to open a deduction.
#[derive(Debug, Clone, Copy)]
pub struct Starter {
    pub tipo_mensaje: u8,
    /// Node that the record names.
    pub id_nodo: u8,
    /// Account of the transaction.
    pub id_cuenta: u32,
    /// Transaction that the record is about.
    pub id_transaccion: u32,
    /// Machine that placed the request.
    pub id_cafetera: u8,
}

impl MensajeBytes for Starter {
    open spec fn spec_new(id_nodo: u8, id_cuenta: u32, id_transaccion: u32, id_cafetera: u8) -> Self {
        Starter { tipo_mensaje: 0, id_nodo, id_cuenta, id_transaccion, id_cafetera }
    }

    open spec fn spec_tipo_mensaje(&self) -> u8 {
        self.tipo_mensaje
    }

    open spec fn spec_id_nodo(&self) -> u8 {
        self.id_nodo
    }

    open spec fn spec_id_cuenta(&self) -> u32 {
        self.id_cuenta
    }

    open spec fn spec_id_transaccion(&self) -> u32 {
        self.id_transaccion
    }

    open spec fn spec_id_cafetera(&self) -> u8 {
        self.id_cafetera
    }

    fn new(id_nodo: u8, id_cuenta: u32, id_transaccion: u32, id_cafetera: u8) -> (r: Starter) {
        Starter {
            tipo_mensaje: Mensaje::STARTER.to_bytes(),
            id_nodo,
            id_cuenta,
            id_transaccion,
            id_cafetera,
        }
    }

    fn get_tipo_mensaje(&self) -> (r: u8) {
        self.tipo_mensaje
    }

    fn get_id_nodo(&self) -> (r: u8) {
        self.id_nodo
    }

    fn get_id_cuenta(&self) -> (r: u32) {
        self.id_cuenta
    }

    fn get_id_transaccion(&self) -> (r: u32) {
        self.id_transaccion
    }

    fn get_id_cafetera(&self) -> (r: u8) {
        self.id_cafetera
    }
}

/// Sent by the leader to every node once a deduction heads its account queue.
#[derive(Debug, Clone, Copy)]
pub struct Prepare {
    pub tipo_mensaje: u8,
    /// Node that the record names.
    pub id_nodo: u8,
    /// Account of the transaction.
    pub id_cuenta: u32,
    /// Transaction that the record is about.
    pub id_transaccion: u32,
    /// Machine that placed the request.
    pub id_cafetera: u8,
}

impl MensajeBytes for Prepare {
    open spec fn spec_new(id_nodo: u8, id_cuenta: u32, id_transaccion: u32, id_cafetera: u8) -> Self {
        Prepare { tipo_mensaje: 1, id_nodo, id_cuenta, id_transaccion, id_cafetera }
    }

    open spec fn spec_tipo_mensaje(&self) -> u8 {
        self.tipo_mensaje
    }

    open spec fn spec_id_nodo(&self) -> u8 {
        self.id_nodo
    }

    open spec fn spec_id_cuenta(&self) -> u32 {
        self.id_cuenta
    }

    open spec fn spec_id_transaccion(&self) -> u32 {
        self.id_transaccion
    }

    open spec fn spec_id_cafetera(&self) -> u8 {
        self.id_cafetera
    }

    fn new(id_nodo: u8, id_cuenta: u32, id_transaccion: u32, id_cafetera: u8) -> (r: Prepare) {
        Prepare {
            tipo_mensaje: Mensaje::PREPARE.to_bytes(),
            id_nodo,
            id_cuenta,
            id_transaccion,
            id_cafetera,
        }
    }

    fn get_tipo_mensaje(&self) -> (r: u8) {
        self.tipo_mensaje
    }

    fn get_id_nodo(&self) -> (r: u8) {
        self.id_nodo
    }

    fn get_id_cuenta(&self) -> (r: u32) {
        self.id_cuenta
    }

    fn get_id_transaccion(&self) -> (r: u32) {
        self.id_transaccion
    }

    fn get_id_cafetera(&self) -> (r: u8) {
        self.id_cafetera
    }
}

impl Prepare {
    /// The call to prepare that answers the opening record `starter`.
    pub fn from_start(starter: Starter) -> (r: Prepare)
        ensures
            r == Prepare::spec_new(
                starter.id_nodo,
                starter.id_cuenta,
                starter.id_transaccion,
                starter.id_cafetera,
            ),
    {
        Prepare {
            tipo_mensaje: Mensaje::PREPARE.to_bytes(),
            id_nodo: starter.id_nodo,
            id_cuenta: starter.id_cuenta,
            id_transaccion: starter.id_transaccion,
            id_cafetera: starter.id_cafetera,
        }
    }
}

/// Answer of a node to a call to prepare.
#[derive(Debug, Clone, Copy)]
pub struct Yes {
    pub tipo_mensaje: u8,
    /// Node that the record names.
    pub id_nodo: u8,
    /// Account of the transaction.
    pub id_cuenta: u32,
    /// Transaction that the record is about.
    pub id_transaccion: u32,
    /// Machine that placed the request.
    pub id_cafetera: u8,
}

impl MensajeBytes for Yes {
    open spec fn spec_new(id_nodo: u8, id_cuenta: u32, id_transaccion: u32, id_cafetera: u8) -> Self {
        Yes { tipo_mensaje: 2, id_nodo, id_cuenta, id_transaccion, id_cafetera }
    }

    open spec fn spec_tipo_mensaje(&self) -> u8 {
        self.tipo_mensaje
    }

    open spec fn spec_id_nodo(&self) -> u8 {
        self.id_nodo
    }

    open spec fn spec_id_cuenta(&self) -> u32 {
        self.id_cuenta
    }

    open spec fn spec_id_transaccion(&self) -> u32 {
        self.id_transaccion
    }

    open spec fn spec_id_cafetera(&self) -> u8 {
        self.id_cafetera
    }

    fn new(id_nodo: u8, id_cuenta: u32, id_transaccion: u32, id_cafetera: u8) -> (r: Yes) {
        Yes {
            tipo_mensaje: Mensaje::YES.to_bytes(),
            id_nodo,
            id_cuenta,
            id_transaccion,
            id_cafetera,
        }
    }

    fn get_tipo_mensaje(&self) -> (r: u8) {
        self.tipo_mensaje
    }

    fn get_id_nodo(&self) -> (r: u8) {
        self.id_nodo
    }

    fn get_id_cuenta(&self) -> (r: u32) {
        self.id_cuenta
    }

    fn get_id_transaccion(&self) -> (r: u32) {
        self.id_transaccion
    }

    fn get_id_cafetera(&self) -> (r: u8) {
        self.id_cafetera
    }
}

/// Sent by the leader to the node where a deduction started, once every node has answered.
#[derive(Debug, Clone, Copy)]
pub struct Execute {
    pub tipo_mensaje: u8,
    /// Node that the record names.
    pub id_nodo: u8,
    /// Account of the transaction.
    pub id_cuenta: u32,
    /// Transaction that the record is about.
    pub id_transaccion: u32,
    /// Machine that placed the request.
    pub id_cafetera: u8,
}

impl MensajeBytes for Execute {
    open spec fn spec_new(id_nodo: u8, id_cuenta: u32, id_transaccion: u32, id_cafetera: u8) -> Self {
        Execute { tipo_mensaje: 3, id_nodo, id_cuenta, id_transaccion, id_cafetera }
    }

    open spec fn spec_tipo_mensaje(&self) -> u8 {
        self.tipo_mensaje
    }

    open spec fn spec_id_nodo(&self) -> u8 {
        self.id_nodo
    }

    open spec fn spec_id_cuenta(&self) -> u32 {
        self.id_cuenta
    }

    open spec fn spec_id_transaccion(&self) -> u32 {
        self.id_transaccion
    }

    open spec fn spec_id_cafetera(&self) -> u8 {
        self.id_cafetera
    }

    fn new(id_nodo: u8, id_cuenta: u32, id_transaccion: u32, id_cafetera: u8) -> (r: Execute) {
        Execute {
            tipo_mensaje: Mensaje::EXECUTE.to_bytes(),
            id_nodo,
            id_cuenta,
            id_transaccion,
            id_cafetera,
        }
    }

    fn get_tipo_mensaje(&self) -> (r: u8) {
        self.tipo_mensaje
    }

    fn get_id_nodo(&self) -> (r: u8) {
        self.id_nodo
    }

    fn get_id_cuenta(&self) -> (r: u32) {
        self.id_cuenta
    }

    fn get_id_transaccion(&self) -> (r: u32) {
        self.id_transaccion
    }

    fn get_id_cafetera(&self) -> (r: u8) {
        self.id_cafetera
    }
}

/// Sent by the node where a transaction started once its local work is done.
#[derive(Debug, Clone, Copy)]
pub struct Finish {
    pub tipo_mensaje: u8,
    /// Node where the transaction started.
    pub id_nodo: u8,
    /// Account of the transaction.
    pub id_cuenta: u32,
    /// Transaction that the record is about.
    pub id_transaccion: u32,
    /// Kind of transfer.
    pub tipo: CommitType,
    /// Points moved.
    pub cantidad: u32,
    /// Machine that placed the request.
    pub id_cafetera: u8,
}

impl Finish {
    /// The message that `new` builds from the six arguments.
    pub open spec fn spec_new(
        id_nodo: u8,
        id_cuenta: u32,
        id_transaccion: u32,
        tipo: CommitType,
        cantidad: u32,
        id_cafetera: u8,
    ) -> Finish {
        Finish { tipo_mensaje: 4, id_nodo, id_cuenta, id_transaccion, tipo, cantidad, id_cafetera }
    }

    pub fn new(
        id_nodo: u8,
        id_cuenta: u32,
        id_transaccion: u32,
        tipo: CommitType,
        cantidad: u32,
        id_cafetera: u8,
    ) -> (r: Finish)
        ensures
            r == Self::spec_new(id_nodo, id_cuenta, id_transaccion, tipo, cantidad, id_cafetera),
    {
        Finish {
            tipo_mensaje: Mensaje::FINISH.to_bytes(),
            id_nodo,
            id_cuenta,
            id_transaccion,
            tipo,
            cantidad,
            id_cafetera,
        }
    }

    /// The line of the message, without its end of line.
    pub fn f_to_string(&self) -> (r: String)
        ensures
            r@ == registro_largo(
                self.tipo_mensaje,
                self.id_nodo,
                self.id_cuenta,
                self.id_transaccion,
                self.tipo.spec_to_bytes(),
                self.cantidad,
                self.id_cafetera,
            ),
    {
        escribir_registro_largo(
            self.get_tipo_mensaje(),
            self.get_id_nodo(),
            self.get_id_cuenta(),
            self.get_id_transaccion(),
            self.tipo.to_bytes(),
            self.cantidad,
            self.id_cafetera,
        )
    }

    /// Reads a message from a valid line; the kind written in the line is
    /// not looked at.
    pub fn from_string(string: String) -> (r: Finish)
        requires
            registro_largo_valido(string@),
        ensures
            r == Self::spec_new(
                leer_registro_largo_spec(string@).id_nodo,
                leer_registro_largo_spec(string@).id_cuenta,
                leer_registro_largo_spec(string@).id_transaccion,
                CommitType::spec_from_bytes(leer_registro_largo_spec(string@).transferencia),
                leer_registro_largo_spec(string@).cantidad,
                leer_registro_largo_spec(string@).id_cafetera,
            ),
    {
        let c = leer_registro_largo(string.as_str()).unwrap();
        let tipo = CommitType::from_bytes(c.transferencia);
        Finish::new(c.id_nodo, c.id_cuenta, c.id_transaccion, tipo, c.cantidad, c.id_cafetera)
    }

    pub fn get_tipo_mensaje(&self) -> (r: u8)
        ensures
            r == self.tipo_mensaje,
    {
        self.tipo_mensaje
    }

    pub fn get_id_nodo(&self) -> (r: u8)
        ensures
            r == self.id_nodo,
    {
        self.id_nodo
    }

    pub fn get_id_cuenta(&self) -> (r: u32)
        ensures
            r == self.id_cuenta,
    {
        self.id_cuenta
    }

    pub fn get_id_transaccion(&self) -> (r: u32)
        ensures
            r == self.id_transaccion,
    {
        self.id_transaccion
    }
}

/// Answer of a node to a commit.
#[derive(Debug, Clone, Copy)]
pub struct OkeyToCoordinator {
    pub tipo_mensaje: u8,
    /// Node that the record names.
    pub id_nodo: u8,
    /// Account of the transaction.
    pub id_cuenta: u32,
    /// Transaction that the record is about.
    pub id_transaccion: u32,
    /// Machine that placed the request.
    pub id_cafetera: u8,
}

impl MensajeBytes for OkeyToCoordinator {
    open spec fn spec_new(id_nodo: u8, id_cuenta: u32, id_transaccion: u32, id_cafetera: u8) -> Self {
        OkeyToCoordinator { tipo_mensaje: 6, id_nodo, id_cuenta, id_transaccion, id_cafetera }
    }

    open spec fn spec_tipo_mensaje(&self) -> u8 {
        self.tipo_mensaje
    }

    open spec fn spec_id_nodo(&self) -> u8 {
        self.id_nodo
    }

    open spec fn spec_id_cuenta(&self) -> u32 {
        self.id_cuenta
    }

    open spec fn spec_id_transaccion(&self) -> u32 {
        self.id_transaccion
    }

    open spec fn spec_id_cafetera(&self) -> u8 {
        self.id_cafetera
    }

    fn new(id_nodo: u8, id_cuenta: u32, id_transaccion: u32, id_cafetera: u8) -> (r: OkeyToCoordinator) {
        OkeyToCoordinator {
            tipo_mensaje: Mensaje::OKEY.to_bytes(),
            id_nodo,
            id_cuenta,
            id_transaccion,
            id_cafetera,
        }
    }

    fn get_tipo_mensaje(&self) -> (r: u8) {
        self.tipo_mensaje
    }

    fn get_id_nodo(&self) -> (r: u8) {
        self.id_nodo
    }

    fn get_id_cuenta(&self) -> (r: u32) {
        self.id_cuenta
    }

    fn get_id_transaccion(&self) -> (r: u32) {
        self.id_transaccion
    }

    fn get_id_cafetera(&self) -> (r: u8) {
        self.id_cafetera
    }
}

/// Answer of a node to an abort.
#[derive(Debug, Clone, Copy)]
pub struct OkeyAbortToCoordinator {
    pub tipo_mensaje: u8,
    /// Node that the record names.
    pub id_nodo: u8,
    /// Account of the transaction.
    pub id_cuenta: u32,
    /// Transaction that the record is about.
    pub id_transaccion: u32,
    /// Machine that placed the request.
    pub id_cafetera: u8,
}

impl MensajeBytes for OkeyAbortToCoordinator {
    open spec fn spec_new(id_nodo: u8, id_cuenta: u32, id_transaccion: u32, id_cafetera: u8) -> Self {
        OkeyAbortToCoordinator { tipo_mensaje: 9, id_nodo, id_cuenta, id_transaccion, id_cafetera }
    }

    open spec fn spec_tipo_mensaje(&self) -> u8 {
        self.tipo_mensaje
    }

    open spec fn spec_id_nodo(&self) -> u8 {
        self.id_nodo
    }

    open spec fn spec_id_cuenta(&self) -> u32 {
        self.id_cuenta
    }

    open spec fn spec_id_transaccion(&self) -> u32 {
        self.id_transaccion
    }

    open spec fn spec_id_cafetera(&self) -> u8 {
        self.id_cafetera
    }

    fn new(id_nodo: u8, id_cuenta: u32, id_transaccion: u32, id_cafetera: u8) -> (r: OkeyAbortToCoordinator) {
        OkeyAbortToCoordinator {
            tipo_mensaje: Mensaje::OKEYABORT.to_bytes(),
            id_nodo,
            id_cuenta,
            id_transaccion,
            id_cafetera,
        }
    }

    fn get_tipo_mensaje(&self) -> (r: u8) {
        self.tipo_mensaje
    }

    fn get_id_nodo(&self) -> (r: u8) {
        self.id_nodo
    }

    fn get_id_cuenta(&self) -> (r: u32) {
        self.id_cuenta
    }

    fn get_id_transaccion(&self) -> (r: u32) {
        self.id_transaccion
    }

    fn get_id_cafetera(&self) -> (r: u8) {
        self.id_cafetera
    }
}

/// Calls a transaction off, in either direction.
#[derive(Debug, Clone, Copy)]
pub struct Abort {
    pub tipo_mensaje: u8,
    /// Node that the record names.
    pub id_nodo: u8,
    /// Account of the transaction.
    pub id_cuenta: u32,
    /// Transaction that the record is about.
    pub id_transaccion: u32,
    /// Machine that placed the request.
    pub id_cafetera: u8,
}

impl MensajeBytes for Abort {
    open spec fn spec_new(id_nodo: u8, id_cuenta: u32, id_transaccion: u32, id_cafetera: u8) -> Self {
        Abort { tipo_mensaje: 7, id_nodo, id_cuenta, id_transaccion, id_cafetera }
    }

    open spec fn spec_tipo_mensaje(&self) -> u8 {
        self.tipo_mensaje
    }

    open spec fn spec_id_nodo(&self) -> u8 {
        self.id_nodo
    }

    open spec fn spec_id_cuenta(&self) -> u32 {
        self.id_cuenta
    }

    open spec fn spec_id_transaccion(&self) -> u32 {
        self.id_transaccion
    }

    open spec fn spec_id_cafetera(&self) -> u8 {
        self.id_cafetera
    }

    fn new(id_nodo: u8, id_cuenta: u32, id_transaccion: u32, id_cafetera: u8) -> (r: Abort) {
        Abort {
            tipo_mensaje: Mensaje::ABORT.to_bytes(),
            id_nodo,
            id_cuenta,
            id_transaccion,
            id_cafetera,
        }
    }

    fn get_tipo_mensaje(&self) -> (r: u8) {
        self.tipo_mensaje
    }

    fn get_id_nodo(&self) -> (r: u8) {
        self.id_nodo
    }

    fn get_id_cuenta(&self) -> (r: u32) {
        self.id_cuenta
    }

    fn get_id_transaccion(&self) -> (r: u32) {
        self.id_transaccion
    }

    fn get_id_cafetera(&self) -> (r: u8) {
        self.id_cafetera
    }
}

/// Sent by the leader to every node to apply a transfer.
#[derive(Debug, Clone, Copy)]
pub struct Commit {
    pub tipo_mensaje: u8,
    /// Node where the transaction started.
    pub id_nodo: u8,
    /// Account of the transaction.
    pub id_cuenta: u32,
    /// Transaction that the record is about.
    pub id_transaccion: u32,
    /// Kind of transfer.
    pub tipo: CommitType,
    /// Points moved.
    pub cantidad: u32,
    /// Machine that placed the request.
    pub id_cafetera: u8,
}

impl Commit {
    /// The message that `new` builds from the six arguments.
    pub open spec fn spec_new(
        id_nodo: u8,
        id_cuenta: u32,
        id_transaccion: u32,
        tipo: CommitType,
        cantidad: u32,
        id_cafetera: u8,
    ) -> Commit {
        Commit { tipo_mensaje: 5, id_nodo, id_cuenta, id_transaccion, tipo, cantidad, id_cafetera }
    }

    pub fn new(
        id_nodo: u8,
        id_cuenta: u32,
        id_transaccion: u32,
        tipo: CommitType,
        cantidad: u32,
        id_cafetera: u8,
    ) -> (r: Commit)
        ensures
            r == Self::spec_new(id_nodo, id_cuenta, id_transaccion, tipo, cantidad, id_cafetera),
    {
        Commit {
            tipo_mensaje: Mensaje::COMMIT.to_bytes(),
            id_nodo,
            id_cuenta,
            id_transaccion,
            tipo,
            cantidad,
            id_cafetera,
        }
    }

    /// The line of the message, without its end of line.
    pub fn set_to_string(&self) -> (r: String)
        ensures
            r@ == registro_largo(
                self.tipo_mensaje,
                self.id_nodo,
                self.id_cuenta,
                self.id_transaccion,
                self.tipo.spec_to_bytes(),
                self.cantidad,
                self.id_cafetera,
            ),
    {
        escribir_registro_largo(
            self.get_tipo_mensaje(),
            self.get_id_nodo(),
            self.get_id_cuenta(),
            self.get_id_transaccion(),
            self.tipo.to_bytes(),
            self.cantidad,
            self.id_cafetera,
        )
    }

    /// Reads a message from a valid line; the kind written in the line is
    /// not looked at.
    pub fn from_string(string: String) -> (r: Commit)
        requires
            registro_largo_valido(string@),
        ensures
            r == Self::spec_new(
                leer_registro_largo_spec(string@).id_nodo,
                leer_registro_largo_spec(string@).id_cuenta,
                leer_registro_largo_spec(string@).id_transaccion,
                CommitType::spec_from_bytes(leer_registro_largo_spec(string@).transferencia),
                leer_registro_largo_spec(string@).cantidad,
                leer_registro_largo_spec(string@).id_cafetera,
            ),
    {
        let c = leer_registro_largo(string.as_str()).unwrap();
        let tipo = CommitType::from_bytes(c.transferencia);
        Commit::new(c.id_nodo, c.id_cuenta, c.id_transaccion, tipo, c.cantidad, c.id_cafetera)
    }

    pub fn get_tipo_mensaje(&self) -> (r: u8)
        ensures
            r == self.tipo_mensaje,
    {
        self.tipo_mensaje
    }

    pub fn get_id_nodo(&self) -> (r: u8)
        ensures
            r == self.id_nodo,
    {
        self.id_nodo
    }

    pub fn get_id_cuenta(&self) -> (r: u32)
        ensures
            r == self.id_cuenta,
    {
        self.id_cuenta
    }

    pub fn get_id_transaccion(&self) -> (r: u32)
        ensures
            r == self.id_transaccion,
    {
        self.id_transaccion
    }
}

/// Liveness probe of a node towards the leader.
#[derive(Debug, Clone, Copy)]
pub struct PingCord {
    pub tipo_mensaje: u8,
    /// Node that the record names.
    pub id_nodo: u8,
    /// Account of the transaction.
    pub id_cuenta: u32,
    /// Transaction that the record is about.
    pub id_transaccion: u32,
    /// Machine that placed the request.
    pub id_cafetera: u8,
}

impl MensajeBytes for PingCord {
    open spec fn spec_new(id_nodo: u8, id_cuenta: u32, id_transaccion: u32, id_cafetera: u8) -> Self {
        PingCord { tipo_mensaje: 8, id_nodo, id_cuenta, id_transaccion, id_cafetera }
    }

    open spec fn spec_tipo_mensaje(&self) -> u8 {
        self.tipo_mensaje
    }

    open spec fn spec_id_nodo(&self) -> u8 {
        self.id_nodo
    }

    open spec fn spec_id_cuenta(&self) -> u32 {
        self.id_cuenta
    }

    open spec fn spec_id_transaccion(&self) -> u32 {
        self.id_transaccion
    }

    open spec fn spec_id_cafetera(&self) -> u8 {
        self.id_cafetera
    }

    fn new(id_nodo: u8, id_cuenta: u32, id_transaccion: u32, id_cafetera: u8) -> (r: PingCord) {
        PingCord {
            tipo_mensaje: Mensaje::PING.to_bytes(),
            id_nodo,
            id_cuenta,
            id_transaccion,
            id_cafetera,
        }
    }

    fn get_tipo_mensaje(&self) -> (r: u8) {
        self.tipo_mensaje
    }

    fn get_id_nodo(&self) -> (r: u8) {
        self.id_nodo
    }

    fn get_id_cuenta(&self) -> (r: u32) {
        self.id_cuenta
    }

    fn get_id_transaccion(&self) -> (r: u32) {
        self.id_transaccion
    }

    fn get_id_cafetera(&self) -> (r: u8) {
        self.id_cafetera
    }
}

/// A short record written by `to_string` is valid, announces its own kind,
/// and reads back as the message it was written from.
pub proof fn lemma_mensaje_bytes_roundtrip<M: MensajeBytes>(m: M)
    ensures
        ({
            let s = registro(
                m.spec_tipo_mensaje(),
                m.spec_id_nodo(),
                m.spec_id_cuenta(),
                m.spec_id_transaccion(),
                m.spec_id_cafetera(),
            );
            &&& registro_valido(s)
            &&& crate::server::registro::leer_tipo_spec(s) == Some(m.spec_tipo_mensaje())
            &&& M::spec_new(
                leer_registro_spec(s).id_nodo,
                leer_registro_spec(s).id_cuenta,
                leer_registro_spec(s).id_transaccion,
                leer_registro_spec(s).id_cafetera,
            ) == M::spec_new(
                m.spec_id_nodo(),
                m.spec_id_cuenta(),
                m.spec_id_transaccion(),
                m.spec_id_cafetera(),
            )
        }),
{
    crate::server::registro::lemma_registro_roundtrip(
        m.spec_tipo_mensaje(),
        m.spec_id_nodo(),
        m.spec_id_cuenta(),
        m.spec_id_transaccion(),
        m.spec_id_cafetera(),
    );
}

/// A completion record built by `new` reads back from its own line as
/// itself.
pub proof fn lemma_finish_roundtrip(m: Finish)
    ensures
        ({
            let s = registro_largo(
                m.tipo_mensaje,
                m.id_nodo,
                m.id_cuenta,
                m.id_transaccion,
                m.tipo.spec_to_bytes(),
                m.cantidad,
                m.id_cafetera,
            );
            &&& registro_largo_valido(s)
            &&& Finish::spec_new(
                leer_registro_largo_spec(s).id_nodo,
                leer_registro_largo_spec(s).id_cuenta,
                leer_registro_largo_spec(s).id_transaccion,
                CommitType::spec_from_bytes(leer_registro_largo_spec(s).transferencia),
                leer_registro_largo_spec(s).cantidad,
                leer_registro_largo_spec(s).id_cafetera,
            ) == Finish::spec_new(
                m.id_nodo,
                m.id_cuenta,
                m.id_transaccion,
                m.tipo,
                m.cantidad,
                m.id_cafetera,
            )
        }),
{
    crate::server::registro::lemma_registro_largo_roundtrip(
        m.tipo_mensaje,
        m.id_nodo,
        m.id_cuenta,
        m.id_transaccion,
        m.tipo.spec_to_bytes(),
        m.cantidad,
        m.id_cafetera,
    );
    lemma_commit_type_roundtrip(m.tipo);
}

/// A commit record built by `new` reads back from its own line as itself.
pub proof fn lemma_commit_roundtrip(m: Commit)
    ensures
        ({
            let s = registro_largo(
                m.tipo_mensaje,
                m.id_nodo,
                m.id_cuenta,
                m.id_transaccion,
                m.tipo.spec_to_bytes(),
                m.cantidad,
                m.id_cafetera,
            );
            &&& registro_largo_valido(s)
            &&& Commit::spec_new(
                leer_registro_largo_spec(s).id_nodo,
                leer_registro_largo_spec(s).id_cuenta,
                leer_registro_largo_spec(s).id_transaccion,
                CommitType::spec_from_bytes(leer_registro_largo_spec(s).transferencia),
                leer_registro_largo_spec(s).cantidad,
                leer_registro_largo_spec(s).id_cafetera,
            ) == Commit::spec_new(
                m.id_nodo,
                m.id_cuenta,
                m.id_transaccion,
                m.tipo,
                m.cantidad,
                m.id_cafetera,
            )
        }),
{
    crate::server::registro::lemma_registro_largo_roundtrip(
        m.tipo_mensaje,
        m.id_nodo,
        m.id_cuenta,
        m.id_transaccion,
        m.tipo.spec_to_bytes(),
        m.cantidad,
        m.id_cafetera,
    );
    lemma_commit_type_roundtrip(m.tipo);
}

} // verus!
