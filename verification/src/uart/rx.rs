//! UART receive driver: the structural mirror of the transmit driver, with
//! the peripheral-to-memory direction, completion on the receive channel's
//! transfer-complete flag, and the same stale-flag clearing discipline.

use vstd::prelude::*;
use crate::dma::{DmaChRegs, DmaChView, DmaDir, DmaIsr, TransferDescriptor};
use crate::fib::FiberOutput;
use crate::uart::drv::{classify_dma_fault, spec_dma_fault, DmaFault};
use crate::uart::periph::{UartCr1, UartRegs, UartRegsView};

verus! {

/// Where a receive driver stands: between transfers or driving one.
#[derive(Clone, Copy, PartialEq, Eq, Structural, Debug)]
pub enum RxSessionState {
    /// No transfer in flight.
    Idle,
    /// A transfer is in flight; its completion primitive is registered on
    /// the DMA channel's interrupt.
    InFlight,
}

/// Exclusive possession of the enabled receiver. Unlike the transmitter,
/// releasing the receiver has nothing to wait for: disabling it takes
/// effect at once.
pub struct RxLease {
    _held: (),
}

impl RxLease {
    /// Give the receiver back: disable it.
    pub fn release(self, uart: &mut UartRegs)
        ensures
            final(uart)@ == (UartRegsView {
                cr1: UartCr1 { re: false, ..old(uart)@.cr1 },
                sr_just_read: false,
                ..old(uart)@
            }),
            final(uart).spec_dr_addr() == old(uart).spec_dr_addr(),
    {
        let mut cr1 = uart.cr1();
        cr1.re = false;
        uart.store_cr1(cr1);
    }
}

/// UART receive driver over one DMA channel.
pub struct UartRxDrv {
    dma: DmaChRegs,
    dma_int: u32,
    state: RxSessionState,
}

impl UartRxDrv {
    /// Where this driver stands.
    pub closed spec fn state(&self) -> RxSessionState {
        self.state
    }

    /// Where this driver stands, as run-time code reads it.
    pub fn session_state(&self) -> (r: RxSessionState)
        ensures
            r == self.state(),
    {
        self.state
    }

    /// The state of the driver's DMA channel.
    pub closed spec fn spec_dma(&self) -> DmaChView {
        self.dma@
    }

    /// The channel's interrupt line, on which the completion primitive is
    /// polled.
    pub closed spec fn spec_dma_int(&self) -> u32 {
        self.dma_int
    }

    /// The channel's interrupt line.
    pub fn dma_int(&self) -> (r: u32)
        ensures
            r == self.spec_dma_int(),
    {
        self.dma_int
    }

    /// The driver's DMA channel, for inspection.
    pub fn dma(&self) -> (r: &DmaChRegs)
        ensures
            r@ == self.spec_dma(),
    {
        &self.dma
    }

    /// The driver's DMA channel, for the hardware side: the interrupt-level
    /// harness raises completion and error flags through this.
    pub fn dma_mut(&mut self) -> (r: &mut DmaChRegs)
        ensures
            (*r)@ == old(self).spec_dma(),
            final(self).spec_dma() == (*final(r))@,
            final(self).state() == old(self).state(),
            final(self).spec_dma_int() == old(self).spec_dma_int(),
    {
        &mut self.dma
    }

    /// The channel is programmed as the receive path needs it.
    pub open spec fn wf_for(&self, dr_addr: u32) -> bool {
        &&& self.spec_dma().minc
        &&& self.spec_dma().dir is PeriphToMem
        &&& self.spec_dma().tcie
        &&& self.spec_dma().teie
        &&& self.spec_dma().par == dr_addr
    }

    /// An idle driver around a not-yet-programmed channel.
    pub(crate) fn prepare(dma: DmaChRegs, dma_int: u32) -> (r: UartRxDrv)
        ensures
            r.state() is Idle,
            r.spec_dma() == dma@,
            r.spec_dma_int() == dma_int,
    {
        UartRxDrv { dma, dma_int, state: RxSessionState::Idle }
    }

    /// Program the channel for the receive path.
    pub(crate) fn init_dma_rx(&mut self, dr_addr: u32, dma_ch: u32, dma_pl: u32)
        requires
            !old(self).spec_dma().en,
            dma_ch < 8,
            dma_pl < 4,
        ensures
            final(self).state() == old(self).state(),
            final(self).spec_dma_int() == old(self).spec_dma_int(),
            final(self).spec_dma() == (DmaChView {
                chsel: dma_ch,
                pl: dma_pl,
                minc: true,
                dir: DmaDir::PeriphToMem,
                tcie: true,
                teie: true,
                par: dr_addr,
                ..old(self).spec_dma()
            }),
            final(self).wf_for(dr_addr),
    {
        self.dma.configure(dma_ch, dma_pl, true, DmaDir::PeriphToMem, true, true);
        self.dma.set_par(dr_addr);
    }

    /// Acquire the receiver: enable it and take the lease. Acquiring while
    /// a lease is already held is refused and changes nothing.
    pub fn acquire(uart: &mut UartRegs) -> (r: Option<RxLease>)
        ensures
            old(uart)@.cr1.re ==> r is None && final(uart)@ == old(uart)@,
            !old(uart)@.cr1.re ==> r is Some && final(uart)@ == (UartRegsView {
                cr1: UartCr1 { re: true, ..old(uart)@.cr1 },
                sr_just_read: false,
                ..old(uart)@
            }),
            final(uart).spec_dr_addr() == old(uart).spec_dr_addr(),
    {
        let mut cr1 = uart.cr1();
        if cr1.re {
            None
        } else {
            cr1.re = true;
            uart.store_cr1(cr1);
            Some(RxLease { _held: () })
        }
    }

    /// Start one buffer reception, under the same protocol as the transmit
    /// path: clear stale status by the status-then-data read sequence,
    /// program and enable the channel with its leftover completion flag
    /// cleared, register the completion primitive, and enable the receive
    /// DMA request immediately after a fresh status read.
    pub fn start(&mut self, uart: &mut UartRegs, _lease: &RxLease, desc: TransferDescriptor)
        requires
            old(self).state() is Idle,
            !old(self).spec_dma().en,
            old(self).wf_for(old(uart).spec_dr_addr()),
            old(uart)@.cr1.ue,
            old(uart)@.cr1.re,
            desc.dir is PeriphToMem,
        ensures
            final(self).state() is InFlight,
            final(self).spec_dma_int() == old(self).spec_dma_int(),
            final(self).spec_dma() == (DmaChView {
                en: true,
                m0ar: desc.addr,
                ndt: desc.len,
                isr: DmaIsr { tcif: false, ..old(self).spec_dma().isr },
                ..old(self).spec_dma()
            }),
            final(uart)@ == (UartRegsView {
                sr: old(uart)@.sr.spec_after_sr_dr_read(),
                dmar: true,
                sr_just_read: false,
                ..old(uart)@
            }),
            final(uart).spec_dr_addr() == old(uart).spec_dr_addr(),
    {
        uart.read_sr();
        uart.read_dr();
        self.dma.set_m0ar(desc.addr);
        self.dma.set_ndt(desc.len);
        self.dma.clear_tcif();
        self.dma.enable();
        self.state = RxSessionState::InFlight;
        uart.read_sr();
        uart.enable_dma_rx_request();
    }

    /// Poll the reception's completion primitive. Completes — once,
    /// consuming the transfer-complete flag — when the flag is observed
    /// set; yields with no effect otherwise.
    pub fn poll(&mut self) -> (r: FiberOutput<()>)
        requires
            old(self).state() is InFlight,
        ensures
            final(self).spec_dma_int() == old(self).spec_dma_int(),
            old(self).spec_dma().isr.tcif ==> {
                &&& r is Complete
                &&& final(self).state() is Idle
                &&& final(self).spec_dma() == (DmaChView {
                    isr: DmaIsr { tcif: false, ..old(self).spec_dma().isr },
                    ..old(self).spec_dma()
                })
            },
            !old(self).spec_dma().isr.tcif ==> {
                &&& r is Yielded
                &&& final(self).state() is InFlight
                &&& final(self).spec_dma() == old(self).spec_dma()
            },
    {
        let isr = self.dma.isr();
        if isr.tcif {
            self.dma.clear_tcif();
            self.state = RxSessionState::Idle;
            FiberOutput::Complete(())
        } else {
            FiberOutput::Yielded
        }
    }

    /// Poll run on the channel's error interrupt: classify any DMA fault
    /// flag. The caller escalates a `Some` to a fatal stop.
    pub fn poll_err(&self) -> (r: Option<DmaFault>)
        ensures
            r == spec_dma_fault(self.spec_dma().isr),
    {
        classify_dma_fault(self.dma.isr())
    }
}

} // verus!
