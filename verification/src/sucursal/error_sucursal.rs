//! Errors of a branch process.

use vstd::prelude::*;

verus! {

/// Kinds of error of a branch process.
#[derive(Debug, Eq, PartialEq, Clone, Copy, Structural)]
pub enum TipoError {
    ErrorGenerico,
    ErrorConexion,
    ErrorJoinThreads,
    ErrorArchivo,
    ErrorArgs,
    ErrorDesconexion,
}

/// An error of a branch process: what happened, and of which kind.
#[derive(Debug)]
pub struct ErrorSucursal {
    pub mensaje: String,
    pub tipo_error: TipoError,
}

impl ErrorSucursal {
    pub fn new(mensaje: &str, tipo_error: TipoError) -> (r: Self)
        ensures
            r.mensaje@ == mensaje@,
            r.tipo_error == tipo_error,
    {
        ErrorSucursal { mensaje: mensaje.to_owned(), tipo_error }
    }
}

} // verus!
