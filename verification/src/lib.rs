//! Two small, independent calculators for a spacecraft: a fuel calculator
//! (`mass`) and an interpreter for a three-instruction machine (`intcode`).

pub mod intcode;
pub mod mass;
