//! Behaviours that a node gets from a component, whatever widget it is part of.

pub mod grab;
pub mod interaction;
pub mod toggle;
