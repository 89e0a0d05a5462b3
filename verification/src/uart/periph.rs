//! Register model of one UART peripheral instance.
//!
//! The driver owns the peripheral's register block as an explicit value and
//! reaches it only through the methods below. Each method states its exact
//! register effect; the methods also encode the two documented hardware
//! sequencing rules around the status register:
//!
//! * the error and idle flags (PE, FE, NF, ORE, IDLE) are deasserted only by
//!   a read of the status register followed by a read of the data register;
//! * the transmission-complete condition must not race a newly started DMA
//!   transfer, so the DMA request line may be enabled only immediately after
//!   a fresh read of the status register.
//!
//! Bits the hardware itself asserts (received data, completion, faults) enter
//! the model through the `hw_*` methods, which the interrupt-level simulation
//! or test harness calls; they only ever assert flags, never deassert them.

use vstd::prelude::*;

verus! {

/// Snapshot of the status register.
#[derive(Clone, Copy, PartialEq, Eq, Structural)]
pub struct UartSr {
    /// Transmit data register empty.
    pub txe: bool,
    /// Transmission complete.
    pub tc: bool,
    /// Read data register not empty.
    pub rxne: bool,
    /// Idle line detected.
    pub idle: bool,
    /// Overrun error.
    pub ore: bool,
    /// Noise detected.
    pub nf: bool,
    /// Framing error.
    pub fe: bool,
    /// Parity error.
    pub pe: bool,
}

impl UartSr {
    /// A snapshot with every flag deasserted.
    pub open spec fn spec_clear() -> UartSr {
        UartSr {
            txe: false,
            tc: false,
            rxne: false,
            idle: false,
            ore: false,
            nf: false,
            fe: false,
            pe: false,
        }
    }

    /// The status register at peripheral reset: transmit buffer empty and
    /// transmission complete, nothing else.
    pub open spec fn spec_reset() -> UartSr {
        UartSr { txe: true, tc: true, ..UartSr::spec_clear() }
    }

    /// A snapshot with every flag deasserted, for building flag sets one
    /// field at a time.
    pub fn clear() -> (r: UartSr)
        ensures
            r == UartSr::spec_clear(),
    {
        UartSr {
            txe: false,
            tc: false,
            rxne: false,
            idle: false,
            ore: false,
            nf: false,
            fe: false,
            pe: false,
        }
    }

    /// Field-wise or: the flags of `self` together with those of `other`.
    pub open spec fn spec_or(self, other: UartSr) -> UartSr {
        UartSr {
            txe: self.txe || other.txe,
            tc: self.tc || other.tc,
            rxne: self.rxne || other.rxne,
            idle: self.idle || other.idle,
            ore: self.ore || other.ore,
            nf: self.nf || other.nf,
            fe: self.fe || other.fe,
            pe: self.pe || other.pe,
        }
    }

    /// The same snapshot with the flags deasserted that the hardware drops
    /// after a status-register read followed by a data-register read: the
    /// error flags, the idle flag, and the data-ready flag consumed by the
    /// data read itself.
    pub open spec fn spec_after_sr_dr_read(self) -> UartSr {
        UartSr { rxne: false, idle: false, ore: false, nf: false, fe: false, pe: false, ..self }
    }
}

/// Value of the first control register.
#[derive(Clone, Copy, PartialEq, Eq, Structural)]
pub struct UartCr1 {
    /// Peripheral enable.
    pub ue: bool,
    /// Word length: 9 data bits when set, 8 otherwise.
    pub m: bool,
    /// Parity control enable.
    pub pce: bool,
    /// Parity selection: odd when set, even otherwise.
    pub ps: bool,
    /// Oversampling by 8 when set, by 16 otherwise.
    pub over8: bool,
    /// Parity-error interrupt enable.
    pub peie: bool,
    /// Receive-not-empty (and overrun) interrupt enable.
    pub rxneie: bool,
    /// Transmission-complete interrupt enable.
    pub tcie: bool,
    /// Transmitter enable.
    pub te: bool,
    /// Receiver enable.
    pub re: bool,
}

impl UartCr1 {
    /// The control register at reset: everything disabled.
    pub open spec fn spec_reset() -> UartCr1 {
        UartCr1 {
            ue: false,
            m: false,
            pce: false,
            ps: false,
            over8: false,
            peie: false,
            rxneie: false,
            tcie: false,
            te: false,
            re: false,
        }
    }

    /// An all-clear control register value, for building values field by
    /// field.
    pub fn reset() -> (r: UartCr1)
        ensures
            r == UartCr1::spec_reset(),
    {
        UartCr1 {
            ue: false,
            m: false,
            pce: false,
            ps: false,
            over8: false,
            peie: false,
            rxneie: false,
            tcie: false,
            te: false,
            re: false,
        }
    }
}

/// The full observable state of the register block.
#[derive(Clone, Copy, PartialEq, Eq, Structural)]
pub struct UartRegsView {
    /// First control register.
    pub cr1: UartCr1,
    /// STOP field of the second control register.
    pub stop: u8,
    /// Mantissa field of the baud-rate register (12 bits).
    pub brr_man: u32,
    /// Fraction field of the baud-rate register (4 bits).
    pub brr_frac: u32,
    /// DMA-transmit request enable (third control register).
    pub dmat: bool,
    /// DMA-receive request enable (third control register).
    pub dmar: bool,
    /// Status register.
    pub sr: UartSr,
    /// Last received byte, as the data register would return it.
    pub dr: u8,
    /// Bus clock of the peripheral enabled in the reset-and-clock control.
    pub clock_on: bool,
    /// Whether the most recent register access was a status-register read;
    /// the flag-clearing sequences above hinge on this.
    pub sr_just_read: bool,
}

/// The register block of one UART instance, owned exclusively by its driver.
pub struct UartRegs {
    cr1: UartCr1,
    stop: u8,
    brr_man: u32,
    brr_frac: u32,
    dmat: bool,
    dmar: bool,
    sr: UartSr,
    dr: u8,
    dr_addr: u32,
    clock_on: bool,
    sr_just_read: bool,
}

impl View for UartRegs {
    type V = UartRegsView;

    closed spec fn view(&self) -> UartRegsView {
        UartRegsView {
            cr1: self.cr1,
            stop: self.stop,
            brr_man: self.brr_man,
            brr_frac: self.brr_frac,
            dmat: self.dmat,
            dmar: self.dmar,
            sr: self.sr,
            dr: self.dr,
            clock_on: self.clock_on,
            sr_just_read: self.sr_just_read,
        }
    }
}

impl UartRegs {
    /// The bus address of the data register, fixed per instance; the DMA
    /// channel's peripheral-side address is programmed with it.
    pub closed spec fn spec_dr_addr(&self) -> u32 {
        self.dr_addr
    }

    /// A register block in its reset state. `dr_addr` is the bus address of
    /// the instance's data register. Stands for acquiring the peripheral
    /// singleton: the caller must construct at most one block per instance.
    pub fn new(dr_addr: u32) -> (r: UartRegs)
        ensures
            r@ == (UartRegsView {
                cr1: UartCr1::spec_reset(),
                stop: 0,
                brr_man: 0,
                brr_frac: 0,
                dmat: false,
                dmar: false,
                sr: UartSr::spec_reset(),
                dr: 0,
                clock_on: false,
                sr_just_read: false,
            }),
            r.spec_dr_addr() == dr_addr,
    {
        UartRegs {
            cr1: UartCr1::reset(),
            stop: 0,
            brr_man: 0,
            brr_frac: 0,
            dmat: false,
            dmar: false,
            sr: UartSr {
                txe: true,
                tc: true,
                rxne: false,
                idle: false,
                ore: false,
                nf: false,
                fe: false,
                pe: false,
            },
            dr: 0,
            dr_addr,
            clock_on: false,
            sr_just_read: false,
        }
    }

    /// A full snapshot of the observable register state.
    pub fn snapshot(&self) -> (r: UartRegsView)
        ensures
            r == self@,
    {
        UartRegsView {
            cr1: self.cr1,
            stop: self.stop,
            brr_man: self.brr_man,
            brr_frac: self.brr_frac,
            dmat: self.dmat,
            dmar: self.dmar,
            sr: self.sr,
            dr: self.dr,
            clock_on: self.clock_on,
            sr_just_read: self.sr_just_read,
        }
    }

    /// The data-register address of this instance.
    pub fn dr_addr(&self) -> (r: u32)
        ensures
            r == self.spec_dr_addr(),
    {
        self.dr_addr
    }

    /// Enable the peripheral's bus clock in the reset-and-clock control.
    pub fn enable_clock(&mut self)
        ensures
            final(self)@ == (UartRegsView { clock_on: true, sr_just_read: false, ..old(self)@ }),
            final(self).spec_dr_addr() == old(self).spec_dr_addr(),
    {
        self.clock_on = true;
        self.sr_just_read = false;
    }

    /// Read the status register. Reading changes no flag by itself, but it
    /// is the first half of both flag-clearing sequences.
    pub fn read_sr(&mut self) -> (sr: UartSr)
        ensures
            sr == old(self)@.sr,
            final(self)@ == (UartRegsView { sr_just_read: true, ..old(self)@ }),
            final(self).spec_dr_addr() == old(self).spec_dr_addr(),
    {
        self.sr_just_read = true;
        self.sr
    }

    /// Read the data register. This consumes the data-ready flag, and — when
    /// it directly follows a status-register read — deasserts the error and
    /// idle flags, completing the documented clearing sequence.
    pub fn read_dr(&mut self) -> (b: u8)
        ensures
            b == old(self)@.dr,
            old(self)@.sr_just_read ==> final(self)@ == (UartRegsView {
                sr: old(self)@.sr.spec_after_sr_dr_read(),
                sr_just_read: false,
                ..old(self)@
            }),
            !old(self)@.sr_just_read ==> final(self)@ == (UartRegsView {
                sr: UartSr { rxne: false, ..old(self)@.sr },
                sr_just_read: false,
                ..old(self)@
            }),
            final(self).spec_dr_addr() == old(self).spec_dr_addr(),
    {
        if self.sr_just_read {
            self.sr = UartSr {
                rxne: false,
                idle: false,
                ore: false,
                nf: false,
                fe: false,
                pe: false,
                ..self.sr
            };
        } else {
            self.sr = UartSr { rxne: false, ..self.sr };
        }
        self.sr_just_read = false;
        self.dr
    }

    /// Store a full value to the first control register.
    pub fn store_cr1(&mut self, v: UartCr1)
        ensures
            final(self)@ == (UartRegsView { cr1: v, sr_just_read: false, ..old(self)@ }),
            final(self).spec_dr_addr() == old(self).spec_dr_addr(),
    {
        self.cr1 = v;
        self.sr_just_read = false;
    }

    /// Read the first control register.
    pub fn cr1(&self) -> (r: UartCr1)
        ensures
            r == self@.cr1,
    {
        self.cr1
    }

    /// Write the STOP field of the second control register.
    pub fn store_stop(&mut self, stop: u8)
        requires
            stop < 4,
        ensures
            final(self)@ == (UartRegsView { stop, sr_just_read: false, ..old(self)@ }),
            final(self).spec_dr_addr() == old(self).spec_dr_addr(),
    {
        self.stop = stop;
        self.sr_just_read = false;
    }

    /// Read the STOP field of the second control register.
    pub fn stop(&self) -> (r: u8)
        ensures
            r == self@.stop,
    {
        self.stop
    }

    /// Write the baud-rate register. The mantissa field is 12 bits wide and
    /// the fraction field 4 bits; the hardware keeps only those bits.
    pub fn store_brr(&mut self, div_man: u32, div_frac: u32)
        ensures
            final(self)@ == (UartRegsView {
                brr_man: (div_man % 4096) as u32,
                brr_frac: (div_frac % 16) as u32,
                sr_just_read: false,
                ..old(self)@
            }),
            final(self).spec_dr_addr() == old(self).spec_dr_addr(),
    {
        self.brr_man = div_man % 4096;
        self.brr_frac = div_frac % 16;
        self.sr_just_read = false;
    }

    /// Read the baud-rate register as (mantissa, fraction).
    pub fn brr(&self) -> (r: (u32, u32))
        ensures
            r.0 == self@.brr_man,
            r.1 == self@.brr_frac,
    {
        (self.brr_man, self.brr_frac)
    }

    /// Enable the DMA-transmit request line.
    ///
    /// The status register must have just been read: enabling the request
    /// with a stale transmission-complete observation can mark a transfer
    /// that is only now starting as already complete, so the documented
    /// sequence is a fresh status read immediately followed by this write.
    pub fn enable_dma_tx_request(&mut self)
        requires
            old(self)@.sr_just_read,
        ensures
            final(self)@ == (UartRegsView { dmat: true, sr_just_read: false, ..old(self)@ }),
            final(self).spec_dr_addr() == old(self).spec_dr_addr(),
    {
        self.dmat = true;
        self.sr_just_read = false;
    }

    /// Disable the DMA-transmit request line.
    pub fn disable_dma_tx_request(&mut self)
        ensures
            final(self)@ == (UartRegsView { dmat: false, sr_just_read: false, ..old(self)@ }),
            final(self).spec_dr_addr() == old(self).spec_dr_addr(),
    {
        self.dmat = false;
        self.sr_just_read = false;
    }

    /// Enable the DMA-receive request line, under the same fresh-status-read
    /// discipline as the transmit side.
    pub fn enable_dma_rx_request(&mut self)
        requires
            old(self)@.sr_just_read,
        ensures
            final(self)@ == (UartRegsView { dmar: true, sr_just_read: false, ..old(self)@ }),
            final(self).spec_dr_addr() == old(self).spec_dr_addr(),
    {
        self.dmar = true;
        self.sr_just_read = false;
    }

    /// Disable the DMA-receive request line.
    pub fn disable_dma_rx_request(&mut self)
        ensures
            final(self)@ == (UartRegsView { dmar: false, sr_just_read: false, ..old(self)@ }),
            final(self).spec_dr_addr() == old(self).spec_dr_addr(),
    {
        self.dmar = false;
        self.sr_just_read = false;
    }

    /// Hardware event: the line asserts status flags. Flags are only ever
    /// asserted here; deassertion happens through the read sequences above.
    pub fn hw_raise(&mut self, flags: UartSr)
        ensures
            final(self)@ == (UartRegsView { sr: old(self)@.sr.spec_or(flags), ..old(self)@ }),
            final(self).spec_dr_addr() == old(self).spec_dr_addr(),
    {
        self.sr = UartSr {
            txe: self.sr.txe || flags.txe,
            tc: self.sr.tc || flags.tc,
            rxne: self.sr.rxne || flags.rxne,
            idle: self.sr.idle || flags.idle,
            ore: self.sr.ore || flags.ore,
            nf: self.sr.nf || flags.nf,
            fe: self.sr.fe || flags.fe,
            pe: self.sr.pe || flags.pe,
        };
    }

    /// Hardware event: a byte enters the transmit path. The transmit
    /// buffer is full and the transmission is no longer complete until the
    /// shifter drains; both flags rise again through `hw_raise` once it
    /// has.
    pub fn hw_tx_busy(&mut self)
        ensures
            final(self)@ == (UartRegsView {
                sr: UartSr { txe: false, tc: false, ..old(self)@.sr },
                ..old(self)@
            }),
            final(self).spec_dr_addr() == old(self).spec_dr_addr(),
    {
        self.sr = UartSr { txe: false, tc: false, ..self.sr };
    }

    /// Hardware event: a byte arrives. It lands in the data register and
    /// asserts the data-ready flag; if the previous byte was never read, the
    /// overrun flag rises instead and the data register keeps the old byte.
    pub fn hw_receive(&mut self, byte: u8)
        ensures
            !old(self)@.sr.rxne ==> final(self)@ == (UartRegsView {
                sr: UartSr { rxne: true, ..old(self)@.sr },
                dr: byte,
                ..old(self)@
            }),
            old(self)@.sr.rxne ==> final(self)@ == (UartRegsView {
                sr: UartSr { ore: true, ..old(self)@.sr },
                ..old(self)@
            }),
            final(self).spec_dr_addr() == old(self).spec_dr_addr(),
    {
        if !self.sr.rxne {
            self.sr = UartSr { rxne: true, ..self.sr };
            self.dr = byte;
        } else {
            self.sr = UartSr { ore: true, ..self.sr };
        }
    }
}

} // verus!
