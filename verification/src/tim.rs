//! General-purpose timer driver: register model, typestate configuration,
//! prescaler computation, and the overflow pulse poll.

pub mod gen;
pub mod gen_ch;
pub mod machine;
pub mod periph;
