//! Snapshot hints as a C caller supplies them.

pub mod components;
pub mod convert;
pub mod first;
pub mod guarantees;
pub mod values;
pub mod visitor;
