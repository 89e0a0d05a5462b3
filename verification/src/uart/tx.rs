//! UART transmit driver: one buffer transfer over DMA, the transmitter
//! lease, and the flush wait.
//!
//! Starting a transfer follows the documented register protocol:
//!
//! 1. clear stale error and idle status by the read sequence — status
//!    register, then data register — before arming anything, so a stale
//!    flag cannot be misattributed to the new transfer;
//! 2. program the DMA channel with the buffer address and length, clear the
//!    channel's leftover transfer-complete flag, and enable the channel;
//! 3. register the completion primitive on the channel's interrupt;
//! 4. read the status register once more and, immediately after, enable the
//!    peripheral's transmit DMA request, so the transmission-complete
//!    condition cannot be satisfied by a stale observation.
//!
//! The awaited completion then resolves exactly once, strictly after the
//! channel's transfer-complete flag is observed; the hardware disables the
//! channel by itself on normal completion.

use vstd::prelude::*;
use crate::dma::{DmaChRegs, DmaChView, DmaDir, DmaIsr, TransferDescriptor};
use crate::fib::FiberOutput;
use crate::uart::drv::{classify_dma_fault, spec_dma_fault, DmaFault};
use crate::uart::periph::{UartCr1, UartRegs, UartRegsView};

verus! {

/// Where a transmit driver stands: between transfers, driving one, or
/// waiting out a flush.
#[derive(Clone, Copy, PartialEq, Eq, Structural, Debug)]
pub enum TxSessionState {
    /// No transfer in flight and no wait registered.
    Idle,
    /// A transfer is in flight; its completion primitive is registered on
    /// the DMA channel's interrupt.
    InFlight,
    /// A flush wait is registered on the UART's own interrupt.
    Flushing,
}

/// Exclusive possession of the enabled transmitter. Acquired through
/// [`UartTxDrv::acquire`], given back through [`TxLease::release`]; the
/// release consumes the lease, so it happens exactly once.
pub struct TxLease {
    _held: (),
}

impl TxLease {
    /// Give the transmitter back: disable it.
    ///
    /// Release must not race a still-running transmission, so it waits
    /// until the line is idle — transmit buffer empty and transmission
    /// complete. In this layer the wait is the caller's dispatch loop
    /// polling the status register; the precondition records the condition
    /// it waits for. Calling [`UartTxDrv::flush`] to completion first makes
    /// the wait a no-op, which is the preferred pattern.
    pub fn release(self, uart: &mut UartRegs)
        requires
            old(uart)@.sr.txe,
            old(uart)@.sr.tc,
        ensures
            final(uart)@ == (UartRegsView {
                cr1: UartCr1 { te: false, ..old(uart)@.cr1 },
                sr_just_read: false,
                ..old(uart)@
            }),
            final(uart).spec_dr_addr() == old(uart).spec_dr_addr(),
    {
        let mut cr1 = uart.cr1();
        cr1.te = false;
        uart.store_cr1(cr1);
    }
}

/// UART transmit driver over one DMA channel.
pub struct UartTxDrv {
    dma: DmaChRegs,
    dma_int: u32,
    state: TxSessionState,
}

impl UartTxDrv {
    /// Where this driver stands.
    pub closed spec fn state(&self) -> TxSessionState {
        self.state
    }

    /// Where this driver stands, as run-time code reads it.
    pub fn session_state(&self) -> (r: TxSessionState)
        ensures
            r == self.state(),
    {
        self.state
    }

    /// The state of the driver's DMA channel.
    pub closed spec fn spec_dma(&self) -> DmaChView {
        self.dma@
    }

    /// The channel's interrupt line, on which the completion primitive is
    /// polled.
    pub closed spec fn spec_dma_int(&self) -> u32 {
        self.dma_int
    }

    /// The channel's interrupt line.
    pub fn dma_int(&self) -> (r: u32)
        ensures
            r == self.spec_dma_int(),
    {
        self.dma_int
    }

    /// The driver's DMA channel, for inspection.
    pub fn dma(&self) -> (r: &DmaChRegs)
        ensures
            r@ == self.spec_dma(),
    {
        &self.dma
    }

    /// The driver's DMA channel, for the hardware side: the interrupt-level
    /// harness raises completion and error flags through this.
    pub fn dma_mut(&mut self) -> (r: &mut DmaChRegs)
        ensures
            (*r)@ == old(self).spec_dma(),
            final(self).spec_dma() == (*final(r))@,
            final(self).state() == old(self).state(),
            final(self).spec_dma_int() == old(self).spec_dma_int(),
    {
        &mut self.dma
    }

    /// The channel is programmed as the transmit path needs it: request
    /// line routed, memory increment on, memory-to-peripheral direction,
    /// completion and error interrupts enabled, and the peripheral-side
    /// address pointing at the given data register.
    pub open spec fn wf_for(&self, dr_addr: u32) -> bool {
        &&& self.spec_dma().minc
        &&& self.spec_dma().dir is MemToPeriph
        &&& self.spec_dma().tcie
        &&& self.spec_dma().teie
        &&& self.spec_dma().par == dr_addr
    }

    /// An idle driver around a not-yet-programmed channel.
    pub(crate) fn prepare(dma: DmaChRegs, dma_int: u32) -> (r: UartTxDrv)
        ensures
            r.state() is Idle,
            r.spec_dma() == dma@,
            r.spec_dma_int() == dma_int,
    {
        UartTxDrv { dma, dma_int, state: TxSessionState::Idle }
    }

    /// Program the channel for the transmit path.
    pub(crate) fn init_dma_tx(&mut self, dr_addr: u32, dma_ch: u32, dma_pl: u32)
        requires
            !old(self).spec_dma().en,
            dma_ch < 8,
            dma_pl < 4,
        ensures
            final(self).state() == old(self).state(),
            final(self).spec_dma_int() == old(self).spec_dma_int(),
            final(self).spec_dma() == (DmaChView {
                chsel: dma_ch,
                pl: dma_pl,
                minc: true,
                dir: DmaDir::MemToPeriph,
                tcie: true,
                teie: true,
                par: dr_addr,
                ..old(self).spec_dma()
            }),
            final(self).wf_for(dr_addr),
    {
        self.dma.configure(dma_ch, dma_pl, true, DmaDir::MemToPeriph, true, true);
        self.dma.set_par(dr_addr);
    }

    /// Acquire the transmitter: enable it and take the lease.
    ///
    /// Acquiring while a lease is already held — the transmitter bit
    /// already enabled — is refused and changes nothing.
    pub fn acquire(uart: &mut UartRegs) -> (r: Option<TxLease>)
        ensures
            old(uart)@.cr1.te ==> r is None && final(uart)@ == old(uart)@,
            !old(uart)@.cr1.te ==> r is Some && final(uart)@ == (UartRegsView {
                cr1: UartCr1 { te: true, ..old(uart)@.cr1 },
                sr_just_read: false,
                ..old(uart)@
            }),
            final(uart).spec_dr_addr() == old(uart).spec_dr_addr(),
    {
        let mut cr1 = uart.cr1();
        if cr1.te {
            None
        } else {
            cr1.te = true;
            uart.store_cr1(cr1);
            Some(TxLease { _held: () })
        }
    }

    /// Start one buffer transfer, following the protocol at the top of this
    /// module. Requires the transmitter lease, an idle driver, a disabled
    /// channel, and a channel programmed for this UART's transmit path.
    pub fn start(&mut self, uart: &mut UartRegs, _lease: &TxLease, desc: TransferDescriptor)
        requires
            old(self).state() is Idle,
            !old(self).spec_dma().en,
            old(self).wf_for(old(uart).spec_dr_addr()),
            old(uart)@.cr1.ue,
            old(uart)@.cr1.te,
            desc.dir is MemToPeriph,
        ensures
            final(self).state() is InFlight,
            final(self).spec_dma_int() == old(self).spec_dma_int(),
            final(self).spec_dma() == (DmaChView {
                en: true,
                m0ar: desc.addr,
                ndt: desc.len,
                isr: DmaIsr { tcif: false, ..old(self).spec_dma().isr },
                ..old(self).spec_dma()
            }),
            final(uart)@ == (UartRegsView {
                sr: old(uart)@.sr.spec_after_sr_dr_read(),
                dmat: true,
                sr_just_read: false,
                ..old(uart)@
            }),
            final(uart).spec_dr_addr() == old(uart).spec_dr_addr(),
    {
        // 1. Clear stale error and idle status: status register, then data
        //    register.
        uart.read_sr();
        uart.read_dr();

        // 2. Program the channel for this buffer, drop any leftover
        //    completion flag, and enable the channel.
        self.dma.set_m0ar(desc.addr);
        self.dma.set_ndt(desc.len);
        self.dma.clear_tcif();
        self.dma.enable();

        // 3. The completion primitive is registered on the channel's
        //    interrupt; it is polled there until it completes.
        self.state = TxSessionState::InFlight;

        // 4. Fresh status read, then enable the transmit DMA request.
        uart.read_sr();
        uart.enable_dma_tx_request();
    }

    /// Poll the transfer's completion primitive; the channel's interrupt
    /// calls this on every firing. Completes — once, consuming the
    /// transfer-complete flag — when the flag is observed set; yields with
    /// no effect at all otherwise.
    pub fn poll(&mut self) -> (r: FiberOutput<()>)
        requires
            old(self).state() is InFlight,
        ensures
            final(self).spec_dma_int() == old(self).spec_dma_int(),
            old(self).spec_dma().isr.tcif ==> {
                &&& r is Complete
                &&& final(self).state() is Idle
                &&& final(self).spec_dma() == (DmaChView {
                    isr: DmaIsr { tcif: false, ..old(self).spec_dma().isr },
                    ..old(self).spec_dma()
                })
            },
            !old(self).spec_dma().isr.tcif ==> {
                &&& r is Yielded
                &&& final(self).state() is InFlight
                &&& final(self).spec_dma() == old(self).spec_dma()
            },
    {
        let isr = self.dma.isr();
        if isr.tcif {
            self.dma.clear_tcif();
            self.state = TxSessionState::Idle;
            FiberOutput::Complete(())
        } else {
            FiberOutput::Yielded
        }
    }

    /// Poll run on the channel's error interrupt: classify any DMA fault
    /// flag. The caller escalates a `Some` to a fatal stop.
    pub fn poll_err(&self) -> (r: Option<DmaFault>)
        ensures
            r == spec_dma_fault(self.spec_dma().isr),
    {
        classify_dma_fault(self.dma.isr())
    }

    /// Wait until both "transmit buffer empty" and "transmission complete"
    /// are set. If both already are, this completes at once, registering no
    /// wait and leaving every control register as it was; otherwise it
    /// enables the transmission-complete interrupt for the duration of the
    /// wait and registers the wait on the UART's own interrupt.
    pub fn flush(&mut self, uart: &mut UartRegs) -> (r: FiberOutput<()>)
        requires
            old(self).state() is Idle,
        ensures
            final(self).spec_dma() == old(self).spec_dma(),
            final(self).spec_dma_int() == old(self).spec_dma_int(),
            final(uart).spec_dr_addr() == old(uart).spec_dr_addr(),
            old(uart)@.sr.txe && old(uart)@.sr.tc ==> {
                &&& r is Complete
                &&& final(self).state() is Idle
                &&& final(uart)@ == (UartRegsView { sr_just_read: true, ..old(uart)@ })
            },
            !(old(uart)@.sr.txe && old(uart)@.sr.tc) ==> {
                &&& r is Yielded
                &&& final(self).state() is Flushing
                &&& final(uart)@ == (UartRegsView {
                    cr1: UartCr1 { tcie: true, ..old(uart)@.cr1 },
                    sr_just_read: false,
                    ..old(uart)@
                })
            },
    {
        let sr = uart.read_sr();
        if sr.txe && sr.tc {
            FiberOutput::Complete(())
        } else {
            let mut cr1 = uart.cr1();
            cr1.tcie = true;
            uart.store_cr1(cr1);
            self.state = TxSessionState::Flushing;
            FiberOutput::Yielded
        }
    }

    /// Poll the flush wait; the UART's interrupt calls this on every firing.
    /// Completes when both flags are observed set, disabling the
    /// transmission-complete interrupt again; yields otherwise.
    pub fn flush_poll(&mut self, uart: &mut UartRegs) -> (r: FiberOutput<()>)
        requires
            old(self).state() is Flushing,
        ensures
            final(self).spec_dma() == old(self).spec_dma(),
            final(self).spec_dma_int() == old(self).spec_dma_int(),
            final(uart).spec_dr_addr() == old(uart).spec_dr_addr(),
            old(uart)@.sr.txe && old(uart)@.sr.tc ==> {
                &&& r is Complete
                &&& final(self).state() is Idle
                &&& final(uart)@ == (UartRegsView {
                    cr1: UartCr1 { tcie: false, ..old(uart)@.cr1 },
                    sr_just_read: false,
                    ..old(uart)@
                })
            },
            !(old(uart)@.sr.txe && old(uart)@.sr.tc) ==> {
                &&& r is Yielded
                &&& final(self).state() is Flushing
                &&& final(uart)@ == (UartRegsView { sr_just_read: true, ..old(uart)@ })
            },
    {
        let sr = uart.read_sr();
        if sr.txe && sr.tc {
            let mut cr1 = uart.cr1();
            cr1.tcie = false;
            uart.store_cr1(cr1);
            self.state = TxSessionState::Idle;
            FiberOutput::Complete(())
        } else {
            FiberOutput::Yielded
        }
    }
}

} // verus!
