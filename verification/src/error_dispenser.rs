//! Errors of the shop.

use crate::enums::ErrorType;
use vstd::prelude::*;

verus! {

/// An error of the shop: what happened, and of which kind.
#[derive(Debug)]
pub struct ErrorCafeteria {
    pub mensaje: String,
    pub type_error: ErrorType,
}

impl ErrorCafeteria {
    /// An error of the generic kind.
    pub fn new(mensaje: &str) -> (r: Self)
        ensures
            r.mensaje@ == mensaje@,
            r.type_error == ErrorType::ErrorGeneric,
    {
        ErrorCafeteria { mensaje: mensaje.to_owned(), type_error: ErrorType::ErrorGeneric }
    }

    /// An error of the kind given.
    pub fn new_of_type(mensaje: &str, type_error: ErrorType) -> (r: Self)
        ensures
            r.mensaje@ == mensaje@,
            r.type_error == type_error,
    {
        ErrorCafeteria { mensaje: mensaje.to_owned(), type_error }
    }
}

} // verus!
