//! What coffee machines and nodes share.

pub mod mensajes_cafetera;
