//! UART driver setup and initialization: configuration values, the
//! baud-rate divisor computation, the register initialization sequence, and
//! the classification of UART and DMA fault flags.

use vstd::prelude::*;
use vstd::arithmetic::div_mod::{
    lemma_div_is_ordered, lemma_div_pos_is_pos, lemma_fundamental_div_mod, lemma_mod_bound,
};
use crate::dma::{DmaChRegs, DmaChView, DmaDir, DmaIsr};
use crate::uart::periph::{UartCr1, UartRegs, UartRegsView, UartSr};
use crate::uart::rx::UartRxDrv;
use crate::uart::tx::UartTxDrv;

verus! {

/// UART data bits per frame.
#[derive(Clone, Copy, PartialEq, Eq, Structural)]
pub enum DataBits {
    /// 8 data bits.
    Eight,
    /// 9 data bits.
    Nine,
}

/// UART parity. `Disabled` turns parity generation and checking off.
#[derive(Clone, Copy, PartialEq, Eq, Structural)]
pub enum Parity {
    Disabled,
    Even,
    Odd,
}

/// UART stop bits.
#[derive(Clone, Copy, PartialEq, Eq, Structural)]
pub enum StopBits {
    /// Half a stop bit.
    Half,
    /// 1 stop bit.
    One,
    /// 1 and a half stop bits.
    OneHalf,
    /// 2 stop bits.
    Two,
}

/// UART receiver oversampling mode.
#[derive(Clone, Copy, PartialEq, Eq, Structural)]
pub enum Oversampling {
    By8,
    By16,
}

/// Encoding of the stop-bit selection in the STOP field of the second
/// control register.
pub open spec fn spec_stop_bits_field(stop_bits: StopBits) -> u8 {
    match stop_bits {
        StopBits::One => 0u8,
        StopBits::Half => 1u8,
        StopBits::Two => 2u8,
        StopBits::OneHalf => 3u8,
    }
}

/// The oversampling flag as it enters the divisor formula: 1 when sampling
/// by 8, 0 when sampling by 16.
pub open spec fn spec_over8(oversampling: Oversampling) -> int {
    if oversampling is By8 {
        1
    } else {
        0
    }
}

/// One hundred times the baud-rate divisor, computed in integers only:
/// `100 * div = (25 * f_pclk) / (2 * (2 - over8) * baud)`.
pub open spec fn spec_div100(f_pclk: int, baud: int, o8: int) -> int {
    (25 * f_pclk) / (2 * (2 - o8) * baud)
}

/// The mantissa part of the divisor.
pub open spec fn spec_div_man(f_pclk: int, baud: int, o8: int) -> int {
    spec_div100(f_pclk, baud, o8) / 100
}

/// The remainder of the divisor after the mantissa is taken out; the two
/// decimal digits below the integer part.
pub open spec fn spec_rem100(f_pclk: int, baud: int, o8: int) -> int {
    spec_div100(f_pclk, baud, o8) % 100
}

/// The fraction part of the divisor, rounded to the width of the fraction
/// field: a sixteenth when oversampling by 8, a thirty-second otherwise.
pub open spec fn spec_div_frac(f_pclk: int, baud: int, o8: int) -> int {
    if o8 == 1 {
        (spec_rem100(f_pclk, baud, o8) * 16 + 50) / 100
    } else {
        (spec_rem100(f_pclk, baud, o8) * 32 + 50) / 100
    }
}

/// Baud-rate selection: either a nominal rate together with the peripheral
/// clock frequency, from which the divisor is computed, or a raw divisor
/// given directly.
#[derive(Clone, Copy, PartialEq, Eq, Structural)]
pub enum BaudRate {
    Nominal { baud_rate: u32, f_pclk: u32 },
    Custom { div_man: u32, div_frac: u32 },
}

impl BaudRate {
    /// Whether the selection can be turned into a divisor: a nominal rate
    /// must be non-zero and the peripheral clock must not exceed the highest
    /// clock the peripheral bus can run at, so that `25 * f_pclk` fits.
    pub open spec fn wf(self) -> bool {
        match self {
            BaudRate::Nominal { baud_rate, f_pclk } => {
                &&& 1 <= baud_rate
                &&& baud_rate <= f_pclk
                &&& f_pclk <= 90_000_000
            },
            BaudRate::Custom { .. } => true,
        }
    }

    /// The mantissa/fraction pair this selection denotes.
    pub open spec fn spec_brr(self, oversampling: Oversampling) -> (int, int) {
        match self {
            BaudRate::Nominal { baud_rate, f_pclk } => (
                spec_div_man(f_pclk as int, baud_rate as int, spec_over8(oversampling)),
                spec_div_frac(f_pclk as int, baud_rate as int, spec_over8(oversampling)),
            ),
            BaudRate::Custom { div_man, div_frac } => (div_man as int, div_frac as int),
        }
    }

    /// A nominal baud rate at a given peripheral clock frequency.
    pub fn nominal(baud_rate: u32, f_pclk: u32) -> (r: BaudRate)
        ensures
            r == (BaudRate::Nominal { baud_rate, f_pclk }),
    {
        BaudRate::Nominal { baud_rate, f_pclk }
    }

    /// Compute the mantissa and fraction for the baud-rate register.
    ///
    /// The divisor is scaled by one hundred so that the computation stays in
    /// integers: `100 * div = (25 * f_pclk) / (2 * (2 - over8) * baud)`; the
    /// mantissa is the part above one hundred and the fraction is the
    /// remainder rounded to the width of the fraction field.
    pub fn brr(&self, oversampling: Oversampling) -> (r: (u32, u32))
        requires
            self.wf(),
        ensures
            r.0 == self.spec_brr(oversampling).0,
            r.1 == self.spec_brr(oversampling).1,
    {
        match self {
            BaudRate::Nominal { baud_rate, f_pclk } => {
                let over8: u32 = if oversampling == Oversampling::By8 {
                    1
                } else {
                    0
                };
                let denom = if over8 == 1 {
                    2 * *baud_rate
                } else {
                    4 * *baud_rate
                };
                proof {
                    assert(denom == 2 * (2 - spec_over8(oversampling)) * (*baud_rate as int));
                }
                let div100 = (25 * *f_pclk) / denom;
                let div_man = div100 / 100;
                proof {
                    lemma_fundamental_div_mod(div100 as int, 100);
                    lemma_mod_bound(div100 as int, 100);
                }
                let rem100 = div100 - div_man * 100;
                let div_frac = if over8 == 1 {
                    (rem100 * 16 + 50) / 100
                } else {
                    (rem100 * 32 + 50) / 100
                };
                (div_man, div_frac)
            },
            BaudRate::Custom { div_man, div_frac } => (*div_man, *div_frac),
        }
    }
}

/// The fraction field of a computed divisor stays within its field: it never
/// exceeds 16 when oversampling by 8, nor 32 otherwise, and it stays strictly
/// below that bound whenever the remainder is low enough not to round up past
/// the top of the field.
pub proof fn lemma_div_frac_in_field(f_pclk: int, baud: int, o8: int)
    requires
        0 <= f_pclk,
        1 <= baud,
        0 <= o8 <= 1,
    ensures
        0 <= spec_div_frac(f_pclk, baud, o8) <= if o8 == 1 {
            16int
        } else {
            32int
        },
        spec_rem100(f_pclk, baud, o8) <= if o8 == 1 {
            96int
        } else {
            98int
        } ==> spec_div_frac(f_pclk, baud, o8) < if o8 == 1 {
            16int
        } else {
            32int
        },
{
    assert(2 * (2 - o8) * baud >= 2) by (nonlinear_arith)
        requires
            1 <= baud,
            0 <= o8 <= 1,
    ;
    lemma_div_pos_is_pos(25 * f_pclk, 2 * (2 - o8) * baud);
    let div100 = spec_div100(f_pclk, baud, o8);
    let rem = spec_rem100(f_pclk, baud, o8);
    lemma_mod_bound(div100, 100);
    if o8 == 1 {
        lemma_div_pos_is_pos(rem * 16 + 50, 100);
        lemma_div_is_ordered(rem * 16 + 50, 1634, 100);
        assert(1634int / 100 == 16);
        if rem <= 96 {
            lemma_div_is_ordered(rem * 16 + 50, 1586, 100);
            assert(1586int / 100 == 15);
        }
    } else {
        lemma_div_pos_is_pos(rem * 32 + 50, 100);
        lemma_div_is_ordered(rem * 32 + 50, 3218, 100);
        assert(3218int / 100 == 32);
        if rem <= 98 {
            lemma_div_is_ordered(rem * 32 + 50, 3186, 100);
            assert(3186int / 100 == 31);
        }
    }
}

/// A fault condition raised by the UART itself, one per status flag that the
/// error interrupt inspects. Every one of them is fatal to the running
/// transfer: the driver reports the cause and does not retry.
#[derive(Clone, Copy, PartialEq, Eq, Structural, Debug)]
pub enum UartFault {
    /// The read data register held a byte nobody consumed.
    RxNotEmpty,
    /// Overrun: a byte arrived while the previous one was still unread.
    Overrun,
    /// Noise detected on the line.
    Noise,
    /// Framing error: a stop bit was missed.
    Framing,
    /// Parity error.
    Parity,
}

/// The fault a status snapshot denotes, inspecting the flags in the same
/// order as the error interrupt does: data-ready first, then overrun,
/// noise, framing and parity; no flag set means no fault.
pub open spec fn spec_uart_fault(sr: UartSr) -> Option<UartFault> {
    if sr.rxne {
        Some(UartFault::RxNotEmpty)
    } else if sr.ore {
        Some(UartFault::Overrun)
    } else if sr.nf {
        Some(UartFault::Noise)
    } else if sr.fe {
        Some(UartFault::Framing)
    } else if sr.pe {
        Some(UartFault::Parity)
    } else {
        None
    }
}

/// Classify a status snapshot taken on the UART's error interrupt. The
/// caller escalates any `Some` to a fatal stop.
pub fn classify_uart_fault(sr: UartSr) -> (r: Option<UartFault>)
    ensures
        r == spec_uart_fault(sr),
{
    if sr.rxne {
        Some(UartFault::RxNotEmpty)
    } else if sr.ore {
        Some(UartFault::Overrun)
    } else if sr.nf {
        Some(UartFault::Noise)
    } else if sr.fe {
        Some(UartFault::Framing)
    } else if sr.pe {
        Some(UartFault::Parity)
    } else {
        None
    }
}

/// A fault condition raised by the DMA channel.
#[derive(Clone, Copy, PartialEq, Eq, Structural, Debug)]
pub enum DmaFault {
    /// Transfer error.
    Transfer,
    /// Direct-mode error.
    DirectMode,
    /// FIFO error.
    Fifo,
}

/// The fault a DMA status snapshot denotes: transfer error first, then
/// direct-mode error, then FIFO error.
pub open spec fn spec_dma_fault(isr: DmaIsr) -> Option<DmaFault> {
    if isr.teif {
        Some(DmaFault::Transfer)
    } else if isr.dmeif {
        Some(DmaFault::DirectMode)
    } else if isr.feif {
        Some(DmaFault::Fifo)
    } else {
        None
    }
}

/// Classify a DMA status snapshot taken on the channel's error interrupt.
pub fn classify_dma_fault(isr: DmaIsr) -> (r: Option<DmaFault>)
    ensures
        r == spec_dma_fault(isr),
{
    if isr.teif {
        Some(DmaFault::Transfer)
    } else if isr.dmeif {
        Some(DmaFault::DirectMode)
    } else if isr.feif {
        Some(DmaFault::Fifo)
    } else {
        None
    }
}

/// UART driver setup values.
pub struct UartSetup {
    /// The UART register block, owned exclusively from here on.
    pub uart: UartRegs,
    /// The UART's global interrupt line.
    pub uart_int: u32,
    /// Baud rate.
    pub baud_rate: BaudRate,
    /// Data bits.
    pub data_bits: DataBits,
    /// Parity.
    pub parity: Parity,
    /// Stop bits.
    pub stop_bits: StopBits,
    /// Oversampling mode.
    pub oversampling: Oversampling,
}

impl UartSetup {
    /// A new setup with the given baud rate and the documented defaults:
    /// 8 data bits, no parity, 1 stop bit, oversampling by 16.
    pub fn new(uart: UartRegs, uart_int: u32, baud_rate: BaudRate) -> (r: UartSetup)
        ensures
            r.uart == uart,
            r.uart_int == uart_int,
            r.baud_rate == baud_rate,
            r.data_bits == DataBits::Eight,
            r.parity == Parity::Disabled,
            r.stop_bits == StopBits::One,
            r.oversampling == Oversampling::By16,
    {
        UartSetup {
            uart,
            uart_int,
            baud_rate,
            data_bits: DataBits::Eight,
            parity: Parity::Disabled,
            stop_bits: StopBits::One,
            oversampling: Oversampling::By16,
        }
    }
}

/// Setup values for one UART-side DMA channel.
pub struct UartDmaSetup {
    /// The DMA channel register block, owned exclusively from here on.
    pub dma: DmaChRegs,
    /// The DMA channel's interrupt line.
    pub dma_int: u32,
    /// The channel-select value routing the UART request to this stream.
    pub dma_ch: u32,
    /// The priority level of the stream.
    pub dma_pl: u32,
}

/// The first control register as the initialization sequence programs it:
/// word length, parity and oversampling from the setup; the parity and
/// receive interrupts enabled; the peripheral enabled; transmitter and
/// receiver still off until a session acquires them.
pub open spec fn spec_cr1_after_init(
    data_bits: DataBits,
    parity: Parity,
    oversampling: Oversampling,
) -> UartCr1 {
    UartCr1 {
        ue: true,
        m: data_bits is Nine,
        pce: !(parity is Disabled),
        ps: parity is Odd,
        over8: oversampling is By8,
        peie: true,
        rxneie: true,
        tcie: false,
        te: false,
        re: false,
    }
}

/// UART driver, holding the configured peripheral.
pub struct UartDrv {
    /// The configured register block.
    pub uart: UartRegs,
    /// The UART's global interrupt line; the fault poll below runs on it.
    pub uart_int: u32,
}

impl UartDrv {
    /// Set up a driver from `setup` values.
    ///
    /// The sequence enables the peripheral's bus clock, programs word
    /// length, parity and oversampling, then the stop bits, then the
    /// baud-rate divisor, and only once all of that is settled enables the
    /// peripheral together with its parity and receive interrupts.
    #[must_use]
    pub fn init(setup: UartSetup) -> (drv: UartDrv)
        requires
            setup.baud_rate.wf(),
            !setup.uart@.cr1.ue,
        ensures
            drv.uart_int == setup.uart_int,
            drv.uart@ == (UartRegsView {
                cr1: spec_cr1_after_init(setup.data_bits, setup.parity, setup.oversampling),
                stop: spec_stop_bits_field(setup.stop_bits),
                brr_man: (setup.baud_rate.spec_brr(setup.oversampling).0 % 4096) as u32,
                brr_frac: (setup.baud_rate.spec_brr(setup.oversampling).1 % 16) as u32,
                clock_on: true,
                sr_just_read: false,
                ..setup.uart@
            }),
            drv.uart.spec_dr_addr() == setup.uart.spec_dr_addr(),
    {
        let UartSetup { mut uart, uart_int, baud_rate, data_bits, stop_bits, parity, oversampling } =
            setup;

        // Enable the peripheral's bus clock.
        uart.enable_clock();

        // Frame format and oversampling; the peripheral stays disabled
        // until it is fully configured.
        let mut cr1 = UartCr1::reset();
        if data_bits == DataBits::Nine {
            cr1.m = true;
        }
        if parity != Parity::Disabled {
            cr1.pce = true;
            if parity == Parity::Odd {
                cr1.ps = true;
            }
        }
        if oversampling == Oversampling::By8 {
            cr1.over8 = true;
        }
        uart.store_cr1(cr1);

        // Stop bits.
        let stop: u8 = match stop_bits {
            StopBits::One => 0,
            StopBits::Half => 1,
            StopBits::Two => 2,
            StopBits::OneHalf => 3,
        };
        uart.store_stop(stop);

        // Baud rate.
        let (div_man, div_frac) = baud_rate.brr(oversampling);
        uart.store_brr(div_man, div_frac);

        // Enable the parity-error and receive interrupts, and the
        // peripheral itself, now that it is fully configured.
        let mut cr1_on = uart.cr1();
        cr1_on.peie = true;
        cr1_on.rxneie = true;
        cr1_on.ue = true;
        uart.store_cr1(cr1_on);

        UartDrv { uart, uart_int }
    }

    /// Poll run on every firing of the UART's global interrupt: read the
    /// status register and classify any fault flag. The caller escalates a
    /// `Some` to a fatal stop; this poll never completes an operation, so
    /// it always leaves the interrupt armed.
    pub fn poll_err(&mut self) -> (r: Option<UartFault>)
        ensures
            r == spec_uart_fault(old(self).uart@.sr),
            final(self).uart@ == (UartRegsView { sr_just_read: true, ..old(self).uart@ }),
            final(self).uart.spec_dr_addr() == old(self).uart.spec_dr_addr(),
            final(self).uart_int == old(self).uart_int,
    {
        let sr = self.uart.read_sr();
        classify_uart_fault(sr)
    }

    /// Obtain a configured transmit driver from DMA `setup` values: the
    /// channel is programmed with its request line and priority, memory
    /// increment, the memory-to-peripheral direction, the completion and
    /// error interrupts, and the UART data register as peripheral address.
    pub fn tx(&self, setup: UartDmaSetup) -> (tx: UartTxDrv)
        requires
            !setup.dma@.en,
            setup.dma_ch < 8,
            setup.dma_pl < 4,
        ensures
            tx.state() is Idle,
            tx.spec_dma_int() == setup.dma_int,
            tx.spec_dma() == (DmaChView {
                chsel: setup.dma_ch,
                pl: setup.dma_pl,
                minc: true,
                dir: DmaDir::MemToPeriph,
                tcie: true,
                teie: true,
                par: self.uart.spec_dr_addr(),
                ..setup.dma@
            }),
    {
        let UartDmaSetup { dma, dma_int, dma_ch, dma_pl } = setup;
        let mut tx = UartTxDrv::prepare(dma, dma_int);
        tx.init_dma_tx(self.uart.dr_addr(), dma_ch, dma_pl);
        tx
    }

    /// Obtain a configured receive driver from DMA `setup` values: the
    /// structural mirror of `tx`, with the peripheral-to-memory direction.
    pub fn rx(&self, setup: UartDmaSetup) -> (rx: UartRxDrv)
        requires
            !setup.dma@.en,
            setup.dma_ch < 8,
            setup.dma_pl < 4,
        ensures
            rx.state() is Idle,
            rx.spec_dma_int() == setup.dma_int,
            rx.spec_dma() == (DmaChView {
                chsel: setup.dma_ch,
                pl: setup.dma_pl,
                minc: true,
                dir: DmaDir::PeriphToMem,
                tcie: true,
                teie: true,
                par: self.uart.spec_dr_addr(),
                ..setup.dma@
            }),
    {
        let UartDmaSetup { dma, dma_int, dma_ch, dma_pl } = setup;
        let mut rx = UartRxDrv::prepare(dma, dma_int);
        rx.init_dma_rx(self.uart.dr_addr(), dma_ch, dma_pl);
        rx
    }
}

} // verus!
