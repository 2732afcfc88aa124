//! Errors of a ledger process.

use vstd::prelude::*;

verus! {

/// Kinds of error of a ledger process.
#[derive(Debug, Eq, PartialEq, Clone, Copy, Structural)]
pub enum TipoError {
    ErrorGenerico,
    ErrorConexion,
    ErrorJoinThreads,
    ErrorArgs,
}

/// An error of a ledger process: what happened, and of which kind.
#[derive(Debug)]
pub struct ErrorServer {
    pub mensaje: String,
    pub tipo_error: TipoError,
}

impl ErrorServer {
    pub fn new(mensaje: &str, tipo_error: TipoError) -> (r: Self)
        ensures
            r.mensaje@ == mensaje@,
            r.tipo_error == tipo_error,
    {
        ErrorServer { mensaje: mensaje.to_owned(), tipo_error }
    }
}

} // verus!
