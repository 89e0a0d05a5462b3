//! Electrical-type transitions under the short names the alternate-function
//! mode is usually driven with. The register effects are those of the
//! general transitions in [`crate::gpio::pin`]; the pull transitions keep
//! their long names there and apply to alternate-mode pins through the same
//! marker traits.

use vstd::prelude::*;
use crate::gpio::pin::{
    AlternateMode, DontCare, GpioPin, OpenDrainType, PinAf, PinRegsView, PushPullType,
};

verus! {

impl<Af: PinAf> GpioPin<AlternateMode<Af>, DontCare, DontCare> {
    /// Let the pin type be push/pull.
    pub fn into_pp(self) -> (r: GpioPin<AlternateMode<Af>, PushPullType, DontCare>)
        ensures
            r.spec_regs() == (PinRegsView { otyper: false, pupdr: 0, ..self.spec_regs() }),
    {
        self.into_pushpull()
    }

    /// Let the pin type be open-drain.
    pub fn into_od(self) -> (r: GpioPin<AlternateMode<Af>, OpenDrainType, DontCare>)
        ensures
            r.spec_regs() == (PinRegsView { otyper: true, ..self.spec_regs() }),
    {
        self.into_opendrain()
    }
}

} // verus!
