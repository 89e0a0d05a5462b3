//! SPI: chip-select control with a scoped selection guard.

pub mod chipctrl;
