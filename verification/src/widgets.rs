//! Widgets made of several nodes.

pub mod frame;
pub mod slider;
pub mod tooltip;
