//! The three kinds of container.

pub mod infinity_conteiner;
pub mod no_rechargable_conteiner;
pub mod rechargable_conteiner;
