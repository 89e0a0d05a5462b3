//! Reset and clock control: configured-clock tokens and the flash
//! wait-state setting.

pub mod clktree;
pub mod flash;
