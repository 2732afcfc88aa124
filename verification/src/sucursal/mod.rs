//! A branch: the coffee machines attached to one node.

pub mod error_sucursal;
pub mod utils;
