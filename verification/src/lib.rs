//! Two verified kernels: a coffee-shop dispenser engine and a replicated
//! loyalty-points ledger.

pub mod cafeteria;
pub mod compartido;
pub mod conteiners;
pub mod conteiners_states;
pub mod decimal;
pub mod dispenser;
pub mod enums;
pub mod error_dispenser;
pub mod file_orders;
pub mod order;
pub mod periodic_alert;
pub mod por_ingrediente;
pub mod server;
pub mod set_conteiners;
pub mod sucursal;
pub mod traits;
pub mod utils;
