//! The replicated loyalty-points ledger: one node per replica, one elected
//! leader that drives a two-phase commit.

pub mod bully_listener;
pub mod bully_messages;
pub mod colas;
pub mod coordinador;
pub mod error_server;
pub mod libro;
pub mod mensaje;
pub mod nodo;
pub mod nodo_handler;
pub mod registro;
pub mod tabla;
pub mod utils;
