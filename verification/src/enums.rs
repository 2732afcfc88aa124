//! Tags shared by the dispenser engine.

use vstd::prelude::*;

verus! {

/// Kinds of ingredient held by the shop. The last two only refill
/// `EspumaLeche` and `CafeMolido` respectively.
#[derive(Debug, Clone, Copy, PartialEq, Eq, Hash, Structural)]
pub enum IngredientType {
    Agua,
    CafeMolido,
    EspumaLeche,
    Cacao,
    LecheFria,
    GranosCafe,
}

/// Availability of a container as published to the dispensers.
#[derive(Debug, Clone, Copy, PartialEq, Eq, Structural)]
pub enum StateOfConteiner {
    /// Nobody holds the container.
    Free,
    /// A dispenser holds the container.
    Taken,
    /// The container can serve nothing more.
    NoEnoughResource,
}

impl StateOfConteiner {
    /// True exactly for `Free`.
    pub fn is_free(&self) -> (r: bool)
        ensures
            r == (*self == StateOfConteiner::Free),
    {
        *self == StateOfConteiner::Free
    }
}

/// Where one ingredient of an order stands.
#[derive(Debug, Clone, Copy, PartialEq, Eq, Structural)]
pub enum IngredientStateOfOrder {
    /// The ingredient was applied, in the amount given.
    Applied(u64),
    /// The ingredient is still to be applied, in the amount given.
    NotApplied(u64),
    /// The ingredient cannot be applied: its container cannot serve it.
    NoEnoughResourceContainer,
}

/// Where an order stands.
#[derive(Debug, PartialEq, Eq, Clone, Copy, Structural)]
pub enum OrderState {
    /// Every ingredient was applied.
    Completed,
    /// Some ingredient is still to be applied.
    InProgress,
    /// Some ingredient cannot be applied.
    NoEnoughResourceContainer,
}

/// Kinds of error of the shop.
#[derive(Debug, Eq, PartialEq, Clone, Copy, Structural)]
pub enum ErrorType {
    ErrorGeneric,
    ContainerWithoutResource,
    NoAvailableOrderFile,
    IncorrectOrderFile,
}

} // verus!
