//! Settings of the ledger and the addresses of its nodes. Every node is
//! reached on the local host, at five ports made of a base followed by the
//! decimal id of the node.

use crate::decimal::{append_decimal, decimal};
use vstd::prelude::*;
use vstd::string::*;

verus! {

/// The node that leads when the ledger is first set up.
pub const ID_CORDINADOR_INICIAL: u8 = 1;

/// Balance of an account when it is first mentioned.
pub const SALDO_INICIAL: u32 = 10000;

/// Largest datagram read from a socket.
pub const MAX_UDP_SIZE: usize = 14;

/// Ids of nodes run from one to this number.
pub const CANT_MAX_NODOS: u8 = 3;

/// Milliseconds that a node waits for an answer to its election call.
pub const TIMEOUT_OK_BULLY_MILLIS: u64 = 10000;

fn direccion(base: &str, id: u8) -> (r: String)
    ensures
        r@ == base@ + decimal(id as nat),
{
    let mut s = base.to_owned();
    append_decimal(&mut s, id as u64);
    s
}

/// Where the node `id` reads the datagrams of its machines.
pub fn id_to_addr_read_data(id: u8) -> (r: String)
    ensures
        r@ == "127.0.0.1:1235"@ + decimal(id as nat),
{
    direccion("127.0.0.1:1235", id)
}

/// From where the node `id` writes to its machines.
pub fn id_to_addr_write_data(id: u8) -> (r: String)
    ensures
        r@ == "127.0.0.1:1236"@ + decimal(id as nat),
{
    direccion("127.0.0.1:1236", id)
}

/// Where the node `id` accepts the streams of its followers.
pub fn id_to_ctrladdr(id: u8) -> (r: String)
    ensures
        r@ == "127.0.0.1:1234"@ + decimal(id as nat),
{
    direccion("127.0.0.1:1234", id)
}

/// Where the node `id` receives election datagrams.
pub fn id_to_addr_write_bully(id: u8) -> (r: String)
    ensures
        r@ == "127.0.0.1:1243"@ + decimal(id as nat),
{
    direccion("127.0.0.1:1243", id)
}

/// From where the node `id` sends election datagrams.
pub fn id_to_addr_read_bully(id: u8) -> (r: String)
    ensures
        r@ == "127.0.0.1:1242"@ + decimal(id as nat),
{
    direccion("127.0.0.1:1242", id)
}

} // verus!
