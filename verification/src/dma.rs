//! Register model of one DMA channel (stream), owned by the driver that
//! programs it for a transfer.
//!
//! The channel carries one transfer descriptor at a time: a memory address,
//! a transfer count and a direction. The methods encode the documented
//! programming discipline: the configuration and addresses can only change
//! while the channel is disabled, and the channel must not be enabled while
//! a leftover transfer-complete flag from an earlier transfer is still set.
//! On normal completion the hardware disables the channel by itself; no
//! software re-arm is needed or possible without a fresh enable.

use vstd::prelude::*;

verus! {

/// Direction of a transfer.
#[derive(Clone, Copy, PartialEq, Eq, Structural)]
pub enum DmaDir {
    /// Peripheral data register to memory.
    PeriphToMem,
    /// Memory to peripheral data register.
    MemToPeriph,
}

/// Snapshot of the channel's interrupt status flags.
#[derive(Clone, Copy, PartialEq, Eq, Structural)]
pub struct DmaIsr {
    /// Transfer complete.
    pub tcif: bool,
    /// Half transfer.
    pub htif: bool,
    /// Transfer error.
    pub teif: bool,
    /// Direct-mode error.
    pub dmeif: bool,
    /// FIFO error.
    pub feif: bool,
}

impl DmaIsr {
    /// A snapshot with every flag deasserted.
    pub open spec fn spec_clear() -> DmaIsr {
        DmaIsr { tcif: false, htif: false, teif: false, dmeif: false, feif: false }
    }

    /// A snapshot with every flag deasserted.
    pub fn clear() -> (r: DmaIsr)
        ensures
            r == DmaIsr::spec_clear(),
    {
        DmaIsr { tcif: false, htif: false, teif: false, dmeif: false, feif: false }
    }
}

/// One buffer transfer request: where the buffer starts, how many data
/// units to move, and in which direction. The referenced buffer must stay
/// alive and untouched until the transfer completes or is abandoned.
#[derive(Clone, Copy, PartialEq, Eq, Structural)]
pub struct TransferDescriptor {
    /// Memory-side start address of the buffer.
    pub addr: u32,
    /// Number of data units to transfer.
    pub len: u16,
    /// Transfer direction.
    pub dir: DmaDir,
}

/// The full observable state of a DMA channel.
#[derive(Clone, Copy, PartialEq, Eq, Structural)]
pub struct DmaChView {
    /// Channel enable.
    pub en: bool,
    /// Transfer-complete interrupt enable.
    pub tcie: bool,
    /// Transfer-error interrupt enable.
    pub teie: bool,
    /// Memory-increment mode: step the memory address one unit per datum.
    pub minc: bool,
    /// Transfer direction.
    pub dir: DmaDir,
    /// Channel-select field: which request line feeds this stream.
    pub chsel: u32,
    /// Priority level of the stream.
    pub pl: u32,
    /// Peripheral-side address.
    pub par: u32,
    /// Memory-side address.
    pub m0ar: u32,
    /// Number of data units left to transfer.
    pub ndt: u16,
    /// Interrupt status flags.
    pub isr: DmaIsr,
}

/// The register block of one DMA channel.
pub struct DmaChRegs {
    en: bool,
    tcie: bool,
    teie: bool,
    minc: bool,
    dir: DmaDir,
    chsel: u32,
    pl: u32,
    par: u32,
    m0ar: u32,
    ndt: u16,
    isr: DmaIsr,
}

impl View for DmaChRegs {
    type V = DmaChView;

    closed spec fn view(&self) -> DmaChView {
        DmaChView {
            en: self.en,
            tcie: self.tcie,
            teie: self.teie,
            minc: self.minc,
            dir: self.dir,
            chsel: self.chsel,
            pl: self.pl,
            par: self.par,
            m0ar: self.m0ar,
            ndt: self.ndt,
            isr: self.isr,
        }
    }
}

impl DmaChRegs {
    /// A channel in its reset state: disabled, no interrupts, no flags.
    pub fn new() -> (r: DmaChRegs)
        ensures
            r@ == (DmaChView {
                en: false,
                tcie: false,
                teie: false,
                minc: false,
                dir: DmaDir::PeriphToMem,
                chsel: 0,
                pl: 0,
                par: 0,
                m0ar: 0,
                ndt: 0,
                isr: DmaIsr::spec_clear(),
            }),
    {
        DmaChRegs {
            en: false,
            tcie: false,
            teie: false,
            minc: false,
            dir: DmaDir::PeriphToMem,
            chsel: 0,
            pl: 0,
            par: 0,
            m0ar: 0,
            ndt: 0,
            isr: DmaIsr::clear(),
        }
    }

    /// Program the channel configuration: request line, priority, increment
    /// mode, direction and interrupt enables. Only a disabled channel can be
    /// reconfigured.
    pub fn configure(&mut self, chsel: u32, pl: u32, minc: bool, dir: DmaDir, tcie: bool, teie: bool)
        requires
            !old(self)@.en,
            chsel < 8,
            pl < 4,
        ensures
            final(self)@ == (DmaChView { chsel, pl, minc, dir, tcie, teie, ..old(self)@ }),
    {
        self.chsel = chsel;
        self.pl = pl;
        self.minc = minc;
        self.dir = dir;
        self.tcie = tcie;
        self.teie = teie;
    }

    /// Program the peripheral-side address; only while disabled.
    pub fn set_par(&mut self, addr: u32)
        requires
            !old(self)@.en,
        ensures
            final(self)@ == (DmaChView { par: addr, ..old(self)@ }),
    {
        self.par = addr;
    }

    /// Program the memory-side address; only while disabled.
    pub fn set_m0ar(&mut self, addr: u32)
        requires
            !old(self)@.en,
        ensures
            final(self)@ == (DmaChView { m0ar: addr, ..old(self)@ }),
    {
        self.m0ar = addr;
    }

    /// Program the transfer count; only while disabled.
    pub fn set_ndt(&mut self, count: u16)
        requires
            !old(self)@.en,
        ensures
            final(self)@ == (DmaChView { ndt: count, ..old(self)@ }),
    {
        self.ndt = count;
    }

    /// Clear the transfer-complete flag through the flag-clear register.
    pub fn clear_tcif(&mut self)
        ensures
            final(self)@ == (DmaChView {
                isr: DmaIsr { tcif: false, ..old(self)@.isr },
                ..old(self)@
            }),
    {
        self.isr = DmaIsr { tcif: false, ..self.isr };
    }

    /// Enable the channel and start serving requests.
    ///
    /// The transfer-complete flag must have been cleared first: a flag left
    /// over from an earlier transfer would otherwise be taken for the new
    /// transfer's completion the moment the interrupt fires.
    pub fn enable(&mut self)
        requires
            !old(self)@.en,
            !old(self)@.isr.tcif,
        ensures
            final(self)@ == (DmaChView { en: true, ..old(self)@ }),
    {
        self.en = true;
    }

    /// Read the interrupt status flags.
    pub fn isr(&self) -> (r: DmaIsr)
        ensures
            r == self@.isr,
    {
        self.isr
    }

    /// Whether the channel is enabled.
    pub fn is_enabled(&self) -> (r: bool)
        ensures
            r == self@.en,
    {
        self.en
    }

    /// Read the remaining transfer count.
    pub fn ndt(&self) -> (r: u16)
        ensures
            r == self@.ndt,
    {
        self.ndt
    }

    /// Read back the programmed configuration and addresses.
    pub fn regs(&self) -> (r: DmaChView)
        ensures
            r == self@,
    {
        DmaChView {
            en: self.en,
            tcie: self.tcie,
            teie: self.teie,
            minc: self.minc,
            dir: self.dir,
            chsel: self.chsel,
            pl: self.pl,
            par: self.par,
            m0ar: self.m0ar,
            ndt: self.ndt,
            isr: self.isr,
        }
    }

    /// Hardware event: the transfer ran to completion. The hardware raises
    /// the transfer-complete flag and disables the channel by itself.
    pub fn hw_complete(&mut self)
        requires
            old(self)@.en,
        ensures
            final(self)@ == (DmaChView {
                en: false,
                ndt: 0,
                isr: DmaIsr { tcif: true, ..old(self)@.isr },
                ..old(self)@
            }),
    {
        self.en = false;
        self.ndt = 0;
        self.isr = DmaIsr { tcif: true, ..self.isr };
    }

    /// Hardware event: the transfer faulted. The named error flags rise and
    /// the hardware disables the channel.
    pub fn hw_error(&mut self, teif: bool, dmeif: bool, feif: bool)
        requires
            old(self)@.en,
        ensures
            final(self)@ == (DmaChView {
                en: false,
                isr: DmaIsr {
                    teif: old(self)@.isr.teif || teif,
                    dmeif: old(self)@.isr.dmeif || dmeif,
                    feif: old(self)@.isr.feif || feif,
                    ..old(self)@.isr
                },
                ..old(self)@
            }),
    {
        self.en = false;
        self.isr = DmaIsr {
            teif: self.isr.teif || teif,
            dmeif: self.isr.dmeif || dmeif,
            feif: self.isr.feif || feif,
            ..self.isr
        };
    }
}

} // verus!
