//! UART driver: configuration, peripheral register model, fault
//! classification, and transmit/receive transfer engines over DMA.

pub mod drv;
pub mod periph;
pub mod rx;
pub mod tx;
