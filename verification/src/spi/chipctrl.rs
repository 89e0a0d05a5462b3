//! Chip-select control: a chip behind an active-low select line, selected
//! for the span of a guard.
//!
//! The guard takes the chip by value: while a selection is held, the chip
//! cannot be selected again — a second acquisition is statically impossible
//! — and releasing the guard deselects exactly once, giving the chip back.

use vstd::prelude::*;
use crate::gpio::pin::{GpioPin, OutputMode, PinRegsView};

verus! {

/// A chip on the SPI bus, owning its chip-select pin. The select line is
/// active low: a deselected chip holds the line high.
pub struct SpiChip<Type, Pull> {
    cs: GpioPin<OutputMode, Type, Pull>,
}

impl<Type, Pull> SpiChip<Type, Pull> {
    /// The chip-select pin's register slice.
    pub closed spec fn spec_cs(&self) -> PinRegsView {
        self.cs.spec_regs()
    }

    /// Whether the chip is selected: the select line driven low.
    pub open spec fn spec_selected(&self) -> bool {
        !self.spec_cs().odr
    }

    /// Initialize a chip as deselected: the select line goes high.
    pub fn init(cs: GpioPin<OutputMode, Type, Pull>) -> (r: SpiChip<Type, Pull>)
        ensures
            r.spec_cs() == (PinRegsView { odr: true, ..cs.spec_regs() }),
            !r.spec_selected(),
    {
        let mut chip = SpiChip { cs };
        chip.deselect();
        chip
    }

    /// Whether the chip is selected.
    pub fn is_selected(&self) -> (r: bool)
        ensures
            r == self.spec_selected(),
    {
        !self.cs.regs().read_odr()
    }

    /// Select the chip: drive the select line low.
    fn select(&mut self)
        ensures
            final(self).spec_cs() == (PinRegsView { odr: false, ..old(self).spec_cs() }),
    {
        self.cs.clear();
    }

    /// Deselect the chip: drive the select line high.
    fn deselect(&mut self)
        ensures
            final(self).spec_cs() == (PinRegsView { odr: true, ..old(self).spec_cs() }),
    {
        self.cs.set();
    }
}

/// Exclusive selection of one chip: holds the chip while its select line is
/// low, and gives it back deselected.
pub struct SelectGuard<Type, Pull> {
    chip: SpiChip<Type, Pull>,
}

impl<Type, Pull> SelectGuard<Type, Pull> {
    /// The held chip's select-pin register slice.
    pub closed spec fn spec_cs(&self) -> PinRegsView {
        self.chip.spec_cs()
    }

    /// Deselect the chip and give it back. Consuming the guard, this
    /// happens exactly once per selection.
    pub fn release(self) -> (r: SpiChip<Type, Pull>)
        ensures
            r.spec_cs() == (PinRegsView { odr: true, ..self.spec_cs() }),
            !r.spec_selected(),
    {
        let SelectGuard { mut chip } = self;
        chip.deselect();
        chip
    }
}

/// Selection of chips by a bus master: select a chip and hold it in a
/// guard for the span of an exchange.
pub trait ChipCtrl {
    /// Select a chip: drive its select line low and take the chip into a
    /// guard. While the guard lives, the chip is held and cannot be
    /// selected again; releasing the guard deselects it.
    fn select<Type, Pull>(&mut self, chip: SpiChip<Type, Pull>) -> (g: SelectGuard<Type, Pull>)
        ensures
            g.spec_cs() == (PinRegsView { odr: false, ..chip.spec_cs() }),
    {
        let mut chip = chip;
        chip.select();
        SelectGuard { chip }
    }
}

} // verus!
