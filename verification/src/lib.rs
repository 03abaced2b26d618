//! A guided walk through the primitive value types, with every printed line
//! computed by verified code.

pub mod decimal;
pub mod demos;
pub mod line;
pub mod runner;
