//! Datagrams of the leader election: a two-byte frame `[kind | node]`.

use vstd::prelude::*;

verus! {

/// Length of an election frame.
pub const LARGO_TRAMA_BULLY: usize = 2;

/// Kind of an election frame, told by its first byte.
#[derive(Debug, Clone, Copy, PartialEq, Eq, Structural)]
pub enum MensajeBully {
    OKEY,
    ELECTION,
    COORDINATOR,
    PING,
    PINGCORD,
    DESCONOCIDO,
}

impl MensajeBully {
    /// The kind that the byte `byte` announces.
    pub open spec fn spec_from_bytes(byte: u8) -> MensajeBully {
        if byte == 0 {
            MensajeBully::OKEY
        } else if byte == 1 {
            MensajeBully::ELECTION
        } else if byte == 2 {
            MensajeBully::COORDINATOR
        } else if byte == 3 {
            MensajeBully::PING
        } else if byte == 4 {
            MensajeBully::PINGCORD
        } else {
            MensajeBully::DESCONOCIDO
        }
    }

    /// Decodes the first byte of a frame.
    pub fn from_bytes(byte: u8) -> (r: MensajeBully)
        ensures
            r == Self::spec_from_bytes(byte),
    {
        match byte {
            0u8 => MensajeBully::OKEY,
            1u8 => MensajeBully::ELECTION,
            2u8 => MensajeBully::COORDINATOR,
            3u8 => MensajeBully::PING,
            4u8 => MensajeBully::PINGCORD,
            _ => MensajeBully::DESCONOCIDO,
        }
    }
}

/// What every election message offers: its two wire fields, its frame, and
/// its reading from a frame.
pub trait MensajeBullyBytes: Sized {
    /// The message that `new` builds for the node `id_nodo`.
    spec fn spec_new(id_nodo: u8) -> Self;

    /// Node byte of the frame.
    spec fn spec_id_nodo(&self) -> u8;

    /// Kind byte of the frame.
    spec fn spec_tipo_mensaje(&self) -> u8;

    fn new(id_nodo: u8) -> (r: Self)
        ensures
            r == Self::spec_new(id_nodo),
    ;

    fn get_id_nodo(&self) -> (r: u8)
        ensures
            r == self.spec_id_nodo(),
    ;

    fn get_tipo_mensaje(&self) -> (r: u8)
        ensures
            r == self.spec_tipo_mensaje(),
    ;

    /// The two-byte frame of the message.
    fn to_bytes(&self) -> (r: Vec<u8>)
        ensures
            r@ == seq![self.spec_tipo_mensaje(), self.spec_id_nodo()],
    {
        let mut v: Vec<u8> = Vec::new();
        v.push(self.get_tipo_mensaje());
        v.push(self.get_id_nodo());
        assert(v@ =~= seq![self.spec_tipo_mensaje(), self.spec_id_nodo()]);
        v
    }

    /// Reads a message from a frame; the kind byte is not looked at.
    fn from_bytes(bytes: Vec<u8>) -> (r: Self)
        requires
            bytes@.len() >= LARGO_TRAMA_BULLY,
        ensures
            r == Self::spec_new(bytes@[1]),
    {
        Self::new(bytes[1])
    }
}

/// Answer of a node with a higher id to an election call.
#[derive(Debug, Clone, Copy)]
pub struct OkeyBully {
    pub tipo_mensaje: u8,
    /// Node that sends the message.
    pub id_nodo: u8,
}

impl MensajeBullyBytes for OkeyBully {
    open spec fn spec_new(id_nodo: u8) -> Self {
        OkeyBully { tipo_mensaje: 0, id_nodo }
    }

    open spec fn spec_id_nodo(&self) -> u8 {
        self.id_nodo
    }

    open spec fn spec_tipo_mensaje(&self) -> u8 {
        self.tipo_mensaje
    }

    fn new(id_nodo: u8) -> (r: OkeyBully) {
        OkeyBully { tipo_mensaje: 0, id_nodo }
    }

    fn get_id_nodo(&self) -> (r: u8) {
        self.id_nodo
    }

    fn get_tipo_mensaje(&self) -> (r: u8) {
        self.tipo_mensaje
    }
}

/// Call for an election, sent to every node with a higher id.
#[derive(Debug, Clone, Copy)]
pub struct Election {
    pub tipo_mensaje: u8,
    /// Node that sends the message.
    pub id_nodo: u8,
}

impl MensajeBullyBytes for Election {
    open spec fn spec_new(id_nodo: u8) -> Self {
        Election { tipo_mensaje: 1, id_nodo }
    }

    open spec fn spec_id_nodo(&self) -> u8 {
        self.id_nodo
    }

    open spec fn spec_tipo_mensaje(&self) -> u8 {
        self.tipo_mensaje
    }

    fn new(id_nodo: u8) -> (r: Election) {
        Election { tipo_mensaje: 1, id_nodo }
    }

    fn get_id_nodo(&self) -> (r: u8) {
        self.id_nodo
    }

    fn get_tipo_mensaje(&self) -> (r: u8) {
        self.tipo_mensaje
    }
}

/// Announcement of the node that has become leader.
#[derive(Debug, Clone, Copy)]
pub struct Coordinator {
    pub tipo_mensaje: u8,
    /// Node that sends the message.
    pub id_nodo: u8,
}

impl MensajeBullyBytes for Coordinator {
    open spec fn spec_new(id_nodo: u8) -> Self {
        Coordinator { tipo_mensaje: 2, id_nodo }
    }

    open spec fn spec_id_nodo(&self) -> u8 {
        self.id_nodo
    }

    open spec fn spec_tipo_mensaje(&self) -> u8 {
        self.tipo_mensaje
    }

    fn new(id_nodo: u8) -> (r: Coordinator) {
        Coordinator { tipo_mensaje: 2, id_nodo }
    }

    fn get_id_nodo(&self) -> (r: u8) {
        self.id_nodo
    }

    fn get_tipo_mensaje(&self) -> (r: u8) {
        self.tipo_mensaje
    }
}

/// Question of a reconnected node: who leads?
#[derive(Debug, Clone, Copy)]
pub struct Ping {
    pub tipo_mensaje: u8,
    /// Node that sends the message.
    pub id_nodo: u8,
}

impl MensajeBullyBytes for Ping {
    open spec fn spec_new(id_nodo: u8) -> Self {
        Ping { tipo_mensaje: 3, id_nodo }
    }

    open spec fn spec_id_nodo(&self) -> u8 {
        self.id_nodo
    }

    open spec fn spec_tipo_mensaje(&self) -> u8 {
        self.tipo_mensaje
    }

    fn new(id_nodo: u8) -> (r: Ping) {
        Ping { tipo_mensaje: 3, id_nodo }
    }

    fn get_id_nodo(&self) -> (r: u8) {
        self.id_nodo
    }

    fn get_tipo_mensaje(&self) -> (r: u8) {
        self.tipo_mensaje
    }
}

/// Answer of the leader to a ping.
#[derive(Debug, Clone, Copy)]
pub struct PingCord {
    pub tipo_mensaje: u8,
    /// Node that sends the message.
    pub id_nodo: u8,
}

impl MensajeBullyBytes for PingCord {
    open spec fn spec_new(id_nodo: u8) -> Self {
        PingCord { tipo_mensaje: 4, id_nodo }
    }

    open spec fn spec_id_nodo(&self) -> u8 {
        self.id_nodo
    }

    open spec fn spec_tipo_mensaje(&self) -> u8 {
        self.tipo_mensaje
    }

    fn new(id_nodo: u8) -> (r: PingCord) {
        PingCord { tipo_mensaje: 4, id_nodo }
    }

    fn get_id_nodo(&self) -> (r: u8) {
        self.id_nodo
    }

    fn get_tipo_mensaje(&self) -> (r: u8) {
        self.tipo_mensaje
    }
}

} // verus!
