//! Colour temperature adjustment that follows the sun: the rules that decide
//! which colour setting a display should have, stated and proved over exact
//! fixed-point numbers.
//!
//! Every real quantity is held as a whole number of millionths (`SCALE` units
//! to one), so that each rule has one exact answer on every machine.

pub mod fixed;
pub mod solar;
pub mod transition;
pub mod colorramp;
pub mod gamma_randr;
pub mod control;
pub mod error;
pub mod text;
pub mod gamma;
pub mod clock;
pub mod number;
pub mod location;
pub mod args;
