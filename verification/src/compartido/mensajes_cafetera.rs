//! Datagrams exchanged between a coffee machine and its node: a fixed
//! ten-byte frame `[kind | machine | account (4, big-endian) | amount (4,
//! big-endian)]`.

use vstd::prelude::*;

verus! {

/// Length of a machine frame.
pub const LARGO_TRAMA: usize = 10;

/// Kind of a machine frame, told by its first byte.
#[derive(Debug, Clone, Copy, PartialEq, Eq, Structural)]
pub enum MensajeCafetera {
    SUMAR,
    RESTAR,
    PING,
    OKEY,
    ERROR,
    DESCONECTAR,
    CONECTAR,
    DESCONOCIDO,
}

impl MensajeCafetera {
    /// The kind that the byte `byte` announces.
    pub open spec fn spec_from_bytes(byte: u8) -> MensajeCafetera {
        if byte == 0 {
            MensajeCafetera::SUMAR
        } else if byte == 1 {
            MensajeCafetera::RESTAR
        } else if byte == 2 {
            MensajeCafetera::PING
        } else if byte == 3 {
            MensajeCafetera::OKEY
        } else if byte == 4 {
            MensajeCafetera::ERROR
        } else if byte == 5 {
            MensajeCafetera::DESCONECTAR
        } else if byte == 6 {
            MensajeCafetera::CONECTAR
        } else {
            MensajeCafetera::DESCONOCIDO
        }
    }

    /// Decodes the first byte of a frame.
    pub fn from_bytes(byte: u8) -> (r: MensajeCafetera)
        ensures
            r == Self::spec_from_bytes(byte),
    {
        match byte {
            0u8 => MensajeCafetera::SUMAR,
            1u8 => MensajeCafetera::RESTAR,
            2u8 => MensajeCafetera::PING,
            3u8 => MensajeCafetera::OKEY,
            4u8 => MensajeCafetera::ERROR,
            5u8 => MensajeCafetera::DESCONECTAR,
            6u8 => MensajeCafetera::CONECTAR,
            _ => MensajeCafetera::DESCONOCIDO,
        }
    }
}

/// The four bytes of `x`, most significant first.
pub open spec fn be_bytes(x: u32) -> Seq<u8> {
    seq![
        (x / 0x100_0000) as u8,
        ((x / 0x1_0000) % 256) as u8,
        ((x / 256) % 256) as u8,
        (x % 256) as u8,
    ]
}

/// The number whose big-endian bytes are `b0 b1 b2 b3`.
pub open spec fn be_value(b0: u8, b1: u8, b2: u8, b3: u8) -> u32 {
    (b0 as int * 0x100_0000 + b1 as int * 0x1_0000 + b2 as int * 256 + b3 as int) as u32
}

/// The frame that carries the given fields.
pub open spec fn trama(tipo: u8, id_cafetera: u8, id_cuenta: u32, cantidad: u32) -> Seq<u8> {
    seq![tipo, id_cafetera] + be_bytes(id_cuenta) + be_bytes(cantidad)
}

/// The account field of a frame.
pub open spec fn trama_cuenta(bytes: Seq<u8>) -> u32 {
    be_value(bytes[2], bytes[3], bytes[4], bytes[5])
}

/// The amount field of a frame.
pub open spec fn trama_cantidad(bytes: Seq<u8>) -> u32 {
    be_value(bytes[6], bytes[7], bytes[8], bytes[9])
}

/// Big-endian bytes and their value are inverse to each other.
pub proof fn lemma_be_roundtrip(x: u32, b0: u8, b1: u8, b2: u8, b3: u8)
    ensures
        be_bytes(x).len() == 4,
        be_value(be_bytes(x)[0], be_bytes(x)[1], be_bytes(x)[2], be_bytes(x)[3]) == x,
        be_bytes(be_value(b0, b1, b2, b3)) == seq![b0, b1, b2, b3],
{
    assert(be_bytes(be_value(b0, b1, b2, b3)) =~= seq![b0, b1, b2, b3]);
}

/// A frame has ten bytes and gives back the fields it was made from.
pub proof fn lemma_trama_fields(tipo: u8, id_cafetera: u8, id_cuenta: u32, cantidad: u32)
    ensures
        trama(tipo, id_cafetera, id_cuenta, cantidad).len() == LARGO_TRAMA,
        trama(tipo, id_cafetera, id_cuenta, cantidad)[0] == tipo,
        trama(tipo, id_cafetera, id_cuenta, cantidad)[1] == id_cafetera,
        trama_cuenta(trama(tipo, id_cafetera, id_cuenta, cantidad)) == id_cuenta,
        trama_cantidad(trama(tipo, id_cafetera, id_cuenta, cantidad)) == cantidad,
{
    lemma_be_roundtrip(id_cuenta, 0, 0, 0, 0);
    lemma_be_roundtrip(cantidad, 0, 0, 0, 0);
    let t = trama(tipo, id_cafetera, id_cuenta, cantidad);
    let a = be_bytes(id_cuenta);
    let c = be_bytes(cantidad);
    assert(t[2] == a[0] && t[3] == a[1] && t[4] == a[2] && t[5] == a[3]);
    assert(t[6] == c[0] && t[7] == c[1] && t[8] == c[2] && t[9] == c[3]);
}

fn push_be(v: &mut Vec<u8>, x: u32)
    ensures
        final(v)@ == old(v)@ + be_bytes(x),
{
    v.push((x / 0x100_0000) as u8);
    v.push(((x / 0x1_0000) % 256) as u8);
    v.push(((x / 256) % 256) as u8);
    v.push((x % 256) as u8);
    assert(v@ =~= old(v)@ + be_bytes(x));
}

fn read_be(bytes: &Vec<u8>, at: usize) -> (r: u32)
    requires
        at + 4 <= bytes.len(),
    ensures
        r == be_value(bytes@[at as int], bytes@[at + 1], bytes@[at + 2], bytes@[at + 3]),
{
    (bytes[at] as u32) * 0x100_0000 + (bytes[at + 1] as u32) * 0x1_0000 + (bytes[at + 2] as u32)
        * 256 + (bytes[at + 3] as u32)
}

/// What every machine message offers: its four wire fields, its frame, and
/// its reading from a frame.
pub trait MensajeCafeteraBytes: Sized {
    /// The message that `new` builds from the three arguments.
    spec fn spec_new(id_cafetera: u8, id_cuenta: u32, cantidad_modificar: u32) -> Self;

    /// Kind byte of the frame.
    spec fn spec_tipo_mensaje(&self) -> u8;

    /// Machine byte of the frame.
    spec fn spec_id_cafetera(&self) -> u8;

    /// Account field of the frame; zero for messages that carry none.
    spec fn spec_id_cuenta(&self) -> u32;

    /// Amount field of the frame; zero for messages that carry none.
    spec fn spec_cantidad_modificar(&self) -> u32;

    fn new(id_cafetera: u8, id_cuenta: u32, cantidad_modificar: u32) -> (r: Self)
        ensures
            r == Self::spec_new(id_cafetera, id_cuenta, cantidad_modificar),
    ;

    fn get_tipo_mensaje(&self) -> (r: u8)
        ensures
            r == self.spec_tipo_mensaje(),
    ;

    fn get_id_cafetera(&self) -> (r: u8)
        ensures
            r == self.spec_id_cafetera(),
    ;

    fn get_id_cuenta(&self) -> (r: u32)
        ensures
            r == self.spec_id_cuenta(),
    ;

    fn get_cantidad_modificar(&self) -> (r: u32)
        ensures
            r == self.spec_cantidad_modificar(),
    ;

    /// The ten-byte frame of the message.
    fn to_bytes(&self) -> (r: Vec<u8>)
        ensures
            r@ == trama(
                self.spec_tipo_mensaje(),
                self.spec_id_cafetera(),
                self.spec_id_cuenta(),
                self.spec_cantidad_modificar(),
            ),
    {
        let mut result: Vec<u8> = Vec::new();
        result.push(self.get_tipo_mensaje());
        result.push(self.get_id_cafetera());
        push_be(&mut result, self.get_id_cuenta());
        push_be(&mut result, self.get_cantidad_modificar());
        result
    }

    /// Reads a message from a frame; the kind byte is not looked at.
    fn from_bytes(bytes: Vec<u8>) -> (r: Self)
        requires
            bytes@.len() >= LARGO_TRAMA,
        ensures
            r == Self::spec_new(bytes@[1], trama_cuenta(bytes@), trama_cantidad(bytes@)),
    {
        let id_cafetera = bytes[1];
        let id_cuenta = read_be(&bytes, 2);
        let cantidad_modificar = read_be(&bytes, 6);
        Self::new(id_cafetera, id_cuenta, cantidad_modificar)
    }
}

/// A request to add credit to an account.
#[derive(Debug, Clone, Copy)]
pub struct Sumar {
    pub tipo_mensaje: u8,
    /// Machine that placed the request.
    pub id_cafetera: u8,
    /// Account to credit.
    pub id_cuenta: u32,
    /// Points to add.
    pub cantidad_modificar: u32,
}

impl MensajeCafeteraBytes for Sumar {
    open spec fn spec_new(id_cafetera: u8, id_cuenta: u32, cantidad_modificar: u32) -> Self {
        Sumar { tipo_mensaje: 0, id_cafetera, id_cuenta, cantidad_modificar }
    }

    open spec fn spec_tipo_mensaje(&self) -> u8 {
        self.tipo_mensaje
    }

    open spec fn spec_id_cafetera(&self) -> u8 {
        self.id_cafetera
    }

    open spec fn spec_id_cuenta(&self) -> u32 {
        self.id_cuenta
    }

    open spec fn spec_cantidad_modificar(&self) -> u32 {
        self.cantidad_modificar
    }

    fn new(id_cafetera: u8, id_cuenta: u32, cantidad_modificar: u32) -> (r: Sumar) {
        Sumar { tipo_mensaje: 0, id_cafetera, id_cuenta, cantidad_modificar }
    }

    fn get_tipo_mensaje(&self) -> (r: u8) {
        self.tipo_mensaje
    }

    fn get_id_cafetera(&self) -> (r: u8) {
        self.id_cafetera
    }

    fn get_id_cuenta(&self) -> (r: u32) {
        self.id_cuenta
    }

    fn get_cantidad_modificar(&self) -> (r: u32) {
        self.cantidad_modificar
    }
}

/// A request to spend credit of an account.
#[derive(Debug, Clone, Copy)]
pub struct Restar {
    pub tipo_mensaje: u8,
    /// Machine that placed the request.
    pub id_cafetera: u8,
    /// Account to debit.
    pub id_cuenta: u32,
    /// Points to take.
    pub cantidad_modificar: u32,
}

impl MensajeCafeteraBytes for Restar {
    open spec fn spec_new(id_cafetera: u8, id_cuenta: u32, cantidad_modificar: u32) -> Self {
        Restar { tipo_mensaje: 1, id_cafetera, id_cuenta, cantidad_modificar }
    }

    open spec fn spec_tipo_mensaje(&self) -> u8 {
        self.tipo_mensaje
    }

    open spec fn spec_id_cafetera(&self) -> u8 {
        self.id_cafetera
    }

    open spec fn spec_id_cuenta(&self) -> u32 {
        self.id_cuenta
    }

    open spec fn spec_cantidad_modificar(&self) -> u32 {
        self.cantidad_modificar
    }

    fn new(id_cafetera: u8, id_cuenta: u32, cantidad_modificar: u32) -> (r: Restar) {
        Restar { tipo_mensaje: 1, id_cafetera, id_cuenta, cantidad_modificar }
    }

    fn get_tipo_mensaje(&self) -> (r: u8) {
        self.tipo_mensaje
    }

    fn get_id_cafetera(&self) -> (r: u8) {
        self.id_cafetera
    }

    fn get_id_cuenta(&self) -> (r: u32) {
        self.id_cuenta
    }

    fn get_cantidad_modificar(&self) -> (r: u32) {
        self.cantidad_modificar
    }
}

/// Sent by a machine whose wait for an answer timed out.
#[derive(Debug, Clone, Copy)]
pub struct Ping {
    pub tipo_mensaje: u8,
    /// Machine that sends the ping.
    pub id_cafetera: u8,
}

impl MensajeCafeteraBytes for Ping {
    open spec fn spec_new(id_cafetera: u8, id_cuenta: u32, cantidad_modificar: u32) -> Self {
        Ping { tipo_mensaje: 2, id_cafetera }
    }

    open spec fn spec_tipo_mensaje(&self) -> u8 {
        self.tipo_mensaje
    }

    open spec fn spec_id_cafetera(&self) -> u8 {
        self.id_cafetera
    }

    open spec fn spec_id_cuenta(&self) -> u32 {
        0
    }

    open spec fn spec_cantidad_modificar(&self) -> u32 {
        0
    }

    fn new(id_cafetera: u8, _id_cuenta: u32, _cantidad_modificar: u32) -> (r: Ping) {
        Ping { tipo_mensaje: 2, id_cafetera }
    }

    fn get_tipo_mensaje(&self) -> (r: u8) {
        self.tipo_mensaje
    }

    fn get_id_cafetera(&self) -> (r: u8) {
        self.id_cafetera
    }

    fn get_id_cuenta(&self) -> (r: u32) {
        0
    }

    fn get_cantidad_modificar(&self) -> (r: u32) {
        0
    }
}

/// Acknowledgement, in either direction: the machine confirms that the
/// drink is prepared, the node confirms a stage of the request. The account
/// is kept for the holder's use and does not travel: the frame carries zero.
#[derive(Debug, Clone, Copy)]
pub struct OkeyToCafetera {
    pub tipo_mensaje: u8,
    /// Machine that placed the request.
    pub id_cafetera: u8,
    /// Account of the request.
    pub id_cuenta: u32,
}

impl MensajeCafeteraBytes for OkeyToCafetera {
    open spec fn spec_new(id_cafetera: u8, id_cuenta: u32, cantidad_modificar: u32) -> Self {
        OkeyToCafetera { tipo_mensaje: 3, id_cafetera, id_cuenta }
    }

    open spec fn spec_tipo_mensaje(&self) -> u8 {
        self.tipo_mensaje
    }

    open spec fn spec_id_cafetera(&self) -> u8 {
        self.id_cafetera
    }

    open spec fn spec_id_cuenta(&self) -> u32 {
        0
    }

    open spec fn spec_cantidad_modificar(&self) -> u32 {
        0
    }

    fn new(id_cafetera: u8, id_cuenta: u32, _cantidad_modificar: u32) -> (r: OkeyToCafetera) {
        OkeyToCafetera { tipo_mensaje: 3, id_cafetera, id_cuenta }
    }

    fn get_tipo_mensaje(&self) -> (r: u8) {
        self.tipo_mensaje
    }

    fn get_id_cafetera(&self) -> (r: u8) {
        self.id_cafetera
    }

    fn get_id_cuenta(&self) -> (r: u32) {
        0
    }

    fn get_cantidad_modificar(&self) -> (r: u32) {
        0
    }
}

/// Failure, in either direction: the machine could not prepare the drink,
/// or the node rejects the request. As with the acknowledgement, the
/// account does not travel.
#[derive(Debug, Clone, Copy)]
pub struct Error {
    pub tipo_mensaje: u8,
    /// Machine that placed the request.
    pub id_cafetera: u8,
    /// Account of the request.
    pub id_cuenta: u32,
}

impl MensajeCafeteraBytes for Error {
    open spec fn spec_new(id_cafetera: u8, id_cuenta: u32, cantidad_modificar: u32) -> Self {
        Error { tipo_mensaje: 4, id_cafetera, id_cuenta }
    }

    open spec fn spec_tipo_mensaje(&self) -> u8 {
        self.tipo_mensaje
    }

    open spec fn spec_id_cafetera(&self) -> u8 {
        self.id_cafetera
    }

    open spec fn spec_id_cuenta(&self) -> u32 {
        0
    }

    open spec fn spec_cantidad_modificar(&self) -> u32 {
        0
    }

    fn new(id_cafetera: u8, id_cuenta: u32, _cantidad_modificar: u32) -> (r: Error) {
        Error { tipo_mensaje: 4, id_cafetera, id_cuenta }
    }

    fn get_tipo_mensaje(&self) -> (r: u8) {
        self.tipo_mensaje
    }

    fn get_id_cafetera(&self) -> (r: u8) {
        self.id_cafetera
    }

    fn get_id_cuenta(&self) -> (r: u32) {
        0
    }

    fn get_cantidad_modificar(&self) -> (r: u32) {
        0
    }
}

/// Tells a node that it has been cut off from the network.
#[derive(Debug, Clone, Copy)]
pub struct Desconectar {
    pub tipo_mensaje: u8,
    pub id_cafetera: u8,
}

impl MensajeCafeteraBytes for Desconectar {
    open spec fn spec_new(id_cafetera: u8, id_cuenta: u32, cantidad_modificar: u32) -> Self {
        Desconectar { tipo_mensaje: 5, id_cafetera }
    }

    open spec fn spec_tipo_mensaje(&self) -> u8 {
        self.tipo_mensaje
    }

    open spec fn spec_id_cafetera(&self) -> u8 {
        self.id_cafetera
    }

    open spec fn spec_id_cuenta(&self) -> u32 {
        0
    }

    open spec fn spec_cantidad_modificar(&self) -> u32 {
        0
    }

    fn new(id_cafetera: u8, _id_cuenta: u32, _cantidad_modificar: u32) -> (r: Desconectar) {
        Desconectar { tipo_mensaje: 5, id_cafetera }
    }

    fn get_tipo_mensaje(&self) -> (r: u8) {
        self.tipo_mensaje
    }

    fn get_id_cafetera(&self) -> (r: u8) {
        self.id_cafetera
    }

    fn get_id_cuenta(&self) -> (r: u32) {
        0
    }

    fn get_cantidad_modificar(&self) -> (r: u32) {
        0
    }
}

/// Tells a node that it is back on the network.
#[derive(Debug, Clone, Copy)]
pub struct Conectar {
    pub tipo_mensaje: u8,
    pub id_cafetera: u8,
}

impl MensajeCafeteraBytes for Conectar {
    open spec fn spec_new(id_cafetera: u8, id_cuenta: u32, cantidad_modificar: u32) -> Self {
        Conectar { tipo_mensaje: 6, id_cafetera }
    }

    open spec fn spec_tipo_mensaje(&self) -> u8 {
        self.tipo_mensaje
    }

    open spec fn spec_id_cafetera(&self) -> u8 {
        self.id_cafetera
    }

    open spec fn spec_id_cuenta(&self) -> u32 {
        0
    }

    open spec fn spec_cantidad_modificar(&self) -> u32 {
        0
    }

    fn new(id_cafetera: u8, _id_cuenta: u32, _cantidad_modificar: u32) -> (r: Conectar) {
        Conectar { tipo_mensaje: 6, id_cafetera }
    }

    fn get_tipo_mensaje(&self) -> (r: u8) {
        self.tipo_mensaje
    }

    fn get_id_cafetera(&self) -> (r: u8) {
        self.id_cafetera
    }

    fn get_id_cuenta(&self) -> (r: u32) {
        0
    }

    fn get_cantidad_modificar(&self) -> (r: u32) {
        0
    }
}

/// A credit request read back from its own frame is the request itself.
pub proof fn lemma_sumar_roundtrip(id_cafetera: u8, id_cuenta: u32, cantidad: u32)
    ensures
        ({
            let m = Sumar::spec_new(id_cafetera, id_cuenta, cantidad);
            let t = trama(
                m.spec_tipo_mensaje(),
                m.spec_id_cafetera(),
                m.spec_id_cuenta(),
                m.spec_cantidad_modificar(),
            );
            &&& MensajeCafetera::spec_from_bytes(t[0]) == MensajeCafetera::SUMAR
            &&& Sumar::spec_new(t[1], trama_cuenta(t), trama_cantidad(t)) == m
        }),
{
    lemma_trama_fields(0, id_cafetera, id_cuenta, cantidad);
}

/// A debit request read back from its own frame is the request itself.
pub proof fn lemma_restar_roundtrip(id_cafetera: u8, id_cuenta: u32, cantidad: u32)
    ensures
        ({
            let m = Restar::spec_new(id_cafetera, id_cuenta, cantidad);
            let t = trama(
                m.spec_tipo_mensaje(),
                m.spec_id_cafetera(),
                m.spec_id_cuenta(),
                m.spec_cantidad_modificar(),
            );
            &&& MensajeCafetera::spec_from_bytes(t[0]) == MensajeCafetera::RESTAR
            &&& Restar::spec_new(t[1], trama_cuenta(t), trama_cantidad(t)) == m
        }),
{
    lemma_trama_fields(1, id_cafetera, id_cuenta, cantidad);
}

} // verus!
