//! Driver layer for STM32F4-family on-chip peripherals: GPIO pin
//! configuration, general-purpose timers, UART transfers over DMA, the RCC
//! flash wait-state setting and an SPI chip-select guard.
//!
//! The memory-mapped registers of each peripheral are modeled as explicit
//! register values, and every register effect of a driver operation is stated
//! in its contract. Configuration follows a typestate discipline: each
//! configuration method consumes the current typed value and returns a new
//! type, so an attribute cannot be changed once fixed and invalid
//! configuration orders do not compile. Asynchronous completion is driven by
//! poll functions attached to interrupt lines; the surrounding firmware owns
//! the interrupt dispatch loop and feeds status-register snapshots in.

pub mod dma;
pub mod gpio;
pub mod fib;
pub mod rcc;
pub mod spi;
pub mod tim;
pub mod uart;
