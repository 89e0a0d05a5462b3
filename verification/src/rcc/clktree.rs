//! Clock tokens: witnesses that a clock of the tree has been configured to
//! a known frequency.

use vstd::prelude::*;

verus! {

/// A configured peripheral bus clock, carrying its frequency in hertz.
/// Created once the clock tree has been set up; the peripheral bus clocks
/// of this family run at 90 MHz at most.
#[derive(Clone, Copy, PartialEq, Eq, Structural)]
pub struct ConfiguredClk {
    freq: u32,
}

impl ConfiguredClk {
    /// The bus-clock ceiling of the family.
    #[verifier::type_invariant]
    spec fn freq_in_range(self) -> bool {
        self.freq <= 90_000_000
    }

    /// The clock's frequency in hertz.
    pub closed spec fn spec_freq(&self) -> u32 {
        self.freq
    }

    /// Witness a configured clock of the given frequency.
    pub fn new(freq: u32) -> (r: ConfiguredClk)
        requires
            freq <= 90_000_000,
        ensures
            r.spec_freq() == freq,
    {
        ConfiguredClk { freq }
    }

    /// The clock's frequency in hertz.
    pub fn freq(&self) -> (r: u32)
        ensures
            r == self.spec_freq(),
            r <= 90_000_000,
    {
        proof {
            use_type_invariant(self);
        }
        self.freq
    }
}

/// The AHB clock, whose frequency decides the flash wait states.
#[derive(Clone, Copy, PartialEq, Eq, Structural)]
pub struct HClk {
    freq: u32,
}

impl HClk {
    /// The clock's frequency in hertz.
    pub closed spec fn spec_freq(&self) -> u32 {
        self.freq
    }

    /// Witness a configured AHB clock of the given frequency.
    pub fn new(freq: u32) -> (r: HClk)
        ensures
            r.spec_freq() == freq,
    {
        HClk { freq }
    }

    /// The clock's frequency in hertz.
    pub fn freq(&self) -> (r: u32)
        ensures
            r == self.spec_freq(),
    {
        self.freq
    }
}

} // verus!
