//! GPIO pin driver: per-pin register model, typestate configuration, and
//! the value-level model of the configuration discipline.

pub mod alternate;
pub mod machine;
pub mod pin;
