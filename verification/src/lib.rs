//! A small desktop-shell core: the fixed file-dialog filter groups with a
//! verified extension check, and the contract that turns the outcome of an
//! external processor run into the single result string shown to the caller.

pub mod filters;
pub mod invoke;
