//! Flash access-control: the wait-state (latency) setting, and the lookup
//! that derives the number of wait states from the AHB frequency and the
//! supply voltage range.

use vstd::prelude::*;
use crate::rcc::clktree::HClk;

verus! {

/// The flash access-control register block.
pub struct FlashPeriph {
    latency: u8,
}

impl FlashPeriph {
    /// The current latency field.
    pub closed spec fn spec_latency(&self) -> u8 {
        self.latency
    }

    /// The register block in its reset state: zero wait states.
    pub fn new() -> (r: FlashPeriph)
        ensures
            r.spec_latency() == 0,
    {
        FlashPeriph { latency: 0 }
    }

    /// Write the latency field.
    pub fn write_latency(&mut self, wait_states: u8)
        requires
            wait_states < 16,
        ensures
            final(self).spec_latency() == wait_states,
    {
        self.latency = wait_states;
    }

    /// Read the latency field.
    pub fn latency(&self) -> (r: u8)
        ensures
            r == self.spec_latency(),
    {
        self.latency
    }
}

/// Driver for the flash access control.
pub struct Flash {
    flash: FlashPeriph,
}

impl Flash {
    /// The current latency field.
    pub closed spec fn spec_latency(&self) -> u8 {
        self.flash.spec_latency()
    }

    /// Take the flash register block.
    pub fn new(flash: FlashPeriph) -> (r: Flash)
        ensures
            r.spec_latency() == flash.spec_latency(),
    {
        Flash { flash }
    }

    /// Program the number of flash wait states.
    pub fn set_latency(&mut self, wait_states: u8)
        requires
            wait_states < 16,
        ensures
            final(self).spec_latency() == wait_states,
    {
        self.flash.write_latency(wait_states);
    }

    /// The current latency field.
    pub fn latency(&self) -> (r: u8)
        ensures
            r == self.spec_latency(),
    {
        self.flash.latency()
    }
}

/// The supply voltage range, which decides how fast the flash can be read.
#[derive(Clone, Copy, PartialEq, Eq, Structural)]
pub enum VoltageRange {
    /// 2.7 V to 3.6 V.
    HighVoltage,
    /// 2.4 V to 2.7 V.
    MediumVoltage,
    /// 2.1 V to 2.4 V.
    LowVoltage,
    /// 1.8 V to 2.1 V.
    UltraLowVoltage,
}

/// The per-range table of frequency ceilings in MHz: entry `n` is the
/// highest AHB frequency that `n` wait states can serve.
pub open spec fn spec_upper(voltage: VoltageRange) -> Seq<u32> {
    match voltage {
        VoltageRange::HighVoltage => seq![30u32, 60, 90, 120, 150, 168],
        VoltageRange::MediumVoltage => seq![24u32, 48, 72, 96, 120, 144, 168],
        VoltageRange::LowVoltage => seq![22u32, 44, 66, 88, 110, 132, 154, 168],
        VoltageRange::UltraLowVoltage => seq![20u32, 40, 60, 80, 100, 120, 140, 160],
    }
}

/// The number of wait states for an AHB clock against a table of frequency
/// ceilings: the first entry at or above the frequency, in MHz.
pub fn get_wait_states(hclk: &HClk, upper: &[u32]) -> (r: usize)
    requires
        exists|i: int| 0 <= i < upper@.len() && hclk.spec_freq() / 1_000_000 <= upper@[i],
    ensures
        r < upper@.len(),
        hclk.spec_freq() / 1_000_000 <= upper@[r as int],
        forall|j: int| 0 <= j < r ==> upper@[j] < hclk.spec_freq() / 1_000_000,
{
    let mhz = hclk.freq() / 1_000_000;
    let mut i: usize = 0;
    while i < upper.len()
        invariant
            i <= upper@.len(),
            mhz == hclk.spec_freq() / 1_000_000,
            exists|k: int| 0 <= k < upper@.len() && mhz <= upper@[k],
            forall|j: int| 0 <= j < i ==> upper@[j] < mhz,
        decreases upper@.len() - i,
    {
        if mhz <= upper[i] {
            return i;
        }
        i = i + 1;
    }
    proof {
        assert(false);
    }
    0
}

/// The wait-state lookup for one device family, per voltage range.
pub trait HClkExt {
    /// The number of wait states the flash needs at this AHB frequency in
    /// the given voltage range.
    fn get_wait_states(&self, voltage: VoltageRange) -> (r: usize)
        requires
            exists|i: int|
                0 <= i < spec_upper(voltage).len() && self.spec_hclk_freq() / 1_000_000
                    <= spec_upper(voltage)[i],
        ensures
            r < spec_upper(voltage).len(),
            self.spec_hclk_freq() / 1_000_000 <= spec_upper(voltage)[r as int],
            forall|j: int| 0 <= j < r ==> spec_upper(voltage)[j] < self.spec_hclk_freq() / 1_000_000,
    ;

    /// The AHB frequency the lookup is made for.
    spec fn spec_hclk_freq(&self) -> u32;
}

impl HClkExt for HClk {
    open spec fn spec_hclk_freq(&self) -> u32 {
        self.spec_freq()
    }

    fn get_wait_states(&self, voltage: VoltageRange) -> (r: usize) {
        match voltage {
            VoltageRange::HighVoltage => {
                let upper: [u32; 6] = [30, 60, 90, 120, 150, 168];
                proof {
                    assert(upper@ =~= spec_upper(voltage));
                }
                get_wait_states(self, upper.as_slice())
            },
            VoltageRange::MediumVoltage => {
                let upper: [u32; 7] = [24, 48, 72, 96, 120, 144, 168];
                proof {
                    assert(upper@ =~= spec_upper(voltage));
                }
                get_wait_states(self, upper.as_slice())
            },
            VoltageRange::LowVoltage => {
                let upper: [u32; 8] = [22, 44, 66, 88, 110, 132, 154, 168];
                proof {
                    assert(upper@ =~= spec_upper(voltage));
                }
                get_wait_states(self, upper.as_slice())
            },
            VoltageRange::UltraLowVoltage => {
                let upper: [u32; 8] = [20, 40, 60, 80, 100, 120, 140, 160];
                proof {
                    assert(upper@ =~= spec_upper(voltage));
                }
                get_wait_states(self, upper.as_slice())
            },
        }
    }
}

} // verus!
