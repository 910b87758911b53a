//! Typed and dynamically checked GPIO pins over a modelled register block.

pub mod gpio;
