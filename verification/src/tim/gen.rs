//! General-purpose timer configuration with compile-time typestate.
//!
//! The configuration carries the count direction and the link role as type
//! parameters, alongside the four capture/compare channel modes: a
//! direction can be chosen only while it is still open, a timer can become
//! a master only from the default link role, and neither choice can be
//! repeated or undone — the same discipline the pin configuration follows.

use vstd::prelude::*;
use vstd::arithmetic::div_mod::{lemma_div_by_self, lemma_div_is_ordered};
use core::marker::PhantomData;
use crate::rcc::clktree::ConfiguredClk;
use crate::tim::gen_ch::{ChModeToken, TimCh1, TimCh2, TimCh3, TimCh4, TimChCfg};
use crate::tim::periph::{TimRegs, TimRegsView};

verus! {

/// Generic dont-care token for an attribute not yet determined.
pub struct DontCare;

impl ChModeToken for DontCare {

}

/// Count-up direction token.
pub struct DirCountUp;

/// Count-down direction token.
pub struct DirCountDown;

/// A determined count direction.
pub trait DirToken {

}

impl DirToken for DirCountUp {

}

impl DirToken for DirCountDown {

}

/// The link role of a timer that is neither master nor slave.
pub struct DefaultLink;

/// The link role of a timer that drives another timer.
pub struct MasterLink;

/// A determined link role.
pub trait LinkToken {

}

impl LinkToken for DefaultLink {

}

impl LinkToken for MasterLink {

}

/// The timer frequency selection: a nominal target frequency in hertz, to
/// be turned into a prescaler, or an explicit raw prescaler.
#[derive(Clone, Copy, PartialEq, Eq, Structural)]
pub enum TimFreq {
    Nominal(u32),
    Prescaler(u16),
}

/// Timer setup values.
pub struct GeneralTimSetup {
    /// The timer register block, owned exclusively from here on.
    pub tim: TimRegs,
    /// The timer's interrupt line.
    pub tim_int: u32,
    /// The configured bus clock feeding the timer.
    pub clk: ConfiguredClk,
    /// The timer frequency.
    pub freq: TimFreq,
    /// The auto-reload value: the top value of the timer.
    pub arr: u32,
    /// Whether the counter stops while the core is halted for debugging.
    pub debug_stop: bool,
}

/// Creation of a timer setup with the documented defaults.
pub trait NewGeneralTimSetup {
    /// A new setup with the full counter width as top value and no debug
    /// stop.
    fn new(tim: TimRegs, tim_int: u32, clk: ConfiguredClk, freq: TimFreq) -> (r: GeneralTimSetup)
        ensures
            r.tim == tim,
            r.tim_int == tim_int,
            r.clk == clk,
            r.freq == freq,
            r.arr == 0xFFFF,
            r.debug_stop == false,
    ;
}

impl NewGeneralTimSetup for GeneralTimSetup {
    fn new(tim: TimRegs, tim_int: u32, clk: ConfiguredClk, freq: TimFreq) -> GeneralTimSetup {
        GeneralTimSetup { tim, tim_int, clk, freq, arr: 0xFFFF, debug_stop: false }
    }
}

/// The prescaler a frequency selection denotes. The bus clock is doubled on
/// its way into the timer, so a nominal target divides twice the clock,
/// rounded to the nearest; the raw form is the prescaler plus one, as the
/// hardware counts.
pub open spec fn spec_tim_psc(clk: ConfiguredClk, freq: TimFreq) -> int {
    match freq {
        TimFreq::Nominal(f) => (2 * clk.spec_freq() + f / 2) / (f as int) - 1,
        TimFreq::Prescaler(p) => p - 1,
    }
}

/// A frequency selection the prescaler field can hold: a nominal target
/// must be non-zero, no faster than the doubled bus clock, and its
/// prescaler must fit the 16-bit field; a raw prescaler must be non-zero.
pub open spec fn spec_freq_wf(clk: ConfiguredClk, freq: TimFreq) -> bool {
    match freq {
        TimFreq::Nominal(f) => {
            &&& 1 <= f
            &&& f <= 2 * clk.spec_freq()
            &&& spec_tim_psc(clk, freq) <= 0xFFFF
        },
        TimFreq::Prescaler(p) => 1 <= p,
    }
}

/// Timer configuration: the timer's register block under the direction and
/// link typestate, with the four channel configurations alongside.
pub struct GeneralTimCfg<Dir, Link, Ch1Mode, Ch2Mode, Ch3Mode, Ch4Mode> {
    tim: TimRegs,
    tim_int: u32,
    clk: ConfiguredClk,
    dir: PhantomData<Dir>,
    link: PhantomData<Link>,
    /// Capture/compare channel 1.
    pub ch1: TimChCfg<TimCh1, Ch1Mode>,
    /// Capture/compare channel 2.
    pub ch2: TimChCfg<TimCh2, Ch2Mode>,
    /// Capture/compare channel 3.
    pub ch3: TimChCfg<TimCh3, Ch3Mode>,
    /// Capture/compare channel 4.
    pub ch4: TimChCfg<TimCh4, Ch4Mode>,
}

impl<Dir, Link, Ch1Mode, Ch2Mode, Ch3Mode, Ch4Mode> GeneralTimCfg<
    Dir,
    Link,
    Ch1Mode,
    Ch2Mode,
    Ch3Mode,
    Ch4Mode,
> {
    /// The timer's register state.
    pub closed spec fn spec_tim(&self) -> TimRegsView {
        self.tim@
    }

    /// The timer's interrupt line.
    pub closed spec fn spec_tim_int(&self) -> u32 {
        self.tim_int
    }

    /// The configured clock feeding the timer.
    pub closed spec fn spec_clk(&self) -> ConfiguredClk {
        self.clk
    }

    /// The timer's register block, for inspection.
    pub fn tim(&self) -> (r: &TimRegs)
        ensures
            r@ == self.spec_tim(),
    {
        &self.tim
    }

    /// The timer's register block, for the hardware side: the harness
    /// raises the overflow flag through this.
    pub fn tim_mut(&mut self) -> (r: &mut TimRegs)
        ensures
            (*r)@ == old(self).spec_tim(),
            final(self).spec_tim() == (*final(r))@,
            final(self).spec_tim_int() == old(self).spec_tim_int(),
            final(self).spec_clk() == old(self).spec_clk(),
    {
        &mut self.tim
    }

    /// The timer's interrupt line.
    pub fn tim_int(&self) -> (r: u32)
        ensures
            r == self.spec_tim_int(),
    {
        self.tim_int
    }

    /// Retag the direction and link attributes, keeping everything else.
    /// Private on purpose: only the transitions below change the tags.
    fn retag<ToDir, ToLink>(self) -> (r: GeneralTimCfg<
        ToDir,
        ToLink,
        Ch1Mode,
        Ch2Mode,
        Ch3Mode,
        Ch4Mode,
    >)
        ensures
            r.spec_tim() == self.spec_tim(),
            r.spec_tim_int() == self.spec_tim_int(),
            r.spec_clk() == self.spec_clk(),
    {
        let GeneralTimCfg { tim, tim_int, clk, dir: _, link: _, ch1, ch2, ch3, ch4 } = self;
        GeneralTimCfg {
            tim,
            tim_int,
            clk,
            dir: PhantomData,
            link: PhantomData,
            ch1,
            ch2,
            ch3,
            ch4,
        }
    }

    /// Reset the counter to zero.
    pub fn reset_counter(&mut self)
        ensures
            final(self).spec_tim() == (TimRegsView { cnt: 0, ..old(self).spec_tim() }),
            final(self).spec_tim_int() == old(self).spec_tim_int(),
            final(self).spec_clk() == old(self).spec_clk(),
    {
        self.tim.write_cnt(0);
    }
}

impl GeneralTimCfg<DontCare, DefaultLink, DontCare, DontCare, DontCare, DontCare> {
    /// Initialize a timer from `setup` values, with its clock enabled and
    /// the correct prescaler.
    ///
    /// The sequence enables the timer's bus clock, applies the debug-stop
    /// choice, programs the prescaler, stores the base control value —
    /// update events on, update interrupts from overflow only, free
    /// running, buffered auto-reload — writes the top value, and generates
    /// an update event so the counter starts from a known state.
    #[must_use]
    pub fn with_enabled_clock(setup: GeneralTimSetup) -> (r: GeneralTimCfg<
        DontCare,
        DefaultLink,
        DontCare,
        DontCare,
        DontCare,
        DontCare,
    >)
        requires
            spec_freq_wf(setup.clk, setup.freq),
        ensures
            r.spec_tim() == (TimRegsView {
                clock_on: true,
                dbg_stop: setup.debug_stop || setup.tim@.dbg_stop,
                psc: spec_tim_psc(setup.clk, setup.freq) as u16,
                cen: false,
                udis: false,
                urs: true,
                opm: false,
                arpe: true,
                dir_down: false,
                cms: 0,
                arr: setup.arr,
                cnt: 0,
                ..setup.tim@
            }),
            r.spec_tim_int() == setup.tim_int,
            r.spec_clk() == setup.clk,
    {
        let GeneralTimSetup { mut tim, tim_int, clk, freq, arr, debug_stop } = setup;

        // Enable the timer's bus clock.
        tim.enable_clock();

        if debug_stop {
            tim.set_dbg_stop();
        }

        // Set the prescaler.
        let psc = Self::tim_psc(&clk, freq);
        tim.write_psc(psc);

        // Base control value; count direction stays open for the typestate
        // transitions below.
        tim.store_cr1_init();

        // The top value defines the width of the timer.
        tim.write_arr(arr);

        // Re-initialize the counter and take over the buffered registers.
        tim.generate_update();

        GeneralTimCfg {
            tim,
            tim_int,
            clk,
            dir: PhantomData,
            link: PhantomData,
            ch1: TimChCfg::new(),
            ch2: TimChCfg::new(),
            ch3: TimChCfg::new(),
            ch4: TimChCfg::new(),
        }
    }

    /// Compute the prescaler for a frequency selection.
    fn tim_psc(clk: &ConfiguredClk, freq: TimFreq) -> (r: u16)
        requires
            spec_freq_wf(*clk, freq),
        ensures
            r == spec_tim_psc(*clk, freq),
    {
        // The bus clock is doubled before it enters the timer.
        let f_pclk_timer = clk.freq() * 2;
        match freq {
            TimFreq::Nominal(f) => {
                let q = (f_pclk_timer + f / 2) / f;
                proof {
                    lemma_div_is_ordered(f as int, (f_pclk_timer + f / 2) as int, f as int);
                    lemma_div_by_self(f as int);
                }
                (q - 1) as u16
            },
            TimFreq::Prescaler(p) => p - 1,
        }
    }
}

impl<Link: LinkToken, Ch1Mode, Ch2Mode, Ch3Mode, Ch4Mode> GeneralTimCfg<
    DontCare,
    Link,
    Ch1Mode,
    Ch2Mode,
    Ch3Mode,
    Ch4Mode,
> {
    /// Let the counter count up.
    pub fn into_count_up(self) -> (r: GeneralTimCfg<
        DirCountUp,
        Link,
        Ch1Mode,
        Ch2Mode,
        Ch3Mode,
        Ch4Mode,
    >)
        ensures
            r.spec_tim() == (TimRegsView { dir_down: false, cms: 0, ..self.spec_tim() }),
            r.spec_tim_int() == self.spec_tim_int(),
            r.spec_clk() == self.spec_clk(),
    {
        let mut this = self;
        this.tim.set_direction(false);
        this.retag()
    }

    /// Let the counter count down.
    pub fn into_count_down(self) -> (r: GeneralTimCfg<
        DirCountDown,
        Link,
        Ch1Mode,
        Ch2Mode,
        Ch3Mode,
        Ch4Mode,
    >)
        ensures
            r.spec_tim() == (TimRegsView { dir_down: true, cms: 0, ..self.spec_tim() }),
            r.spec_tim_int() == self.spec_tim_int(),
            r.spec_clk() == self.spec_clk(),
    {
        let mut this = self;
        this.tim.set_direction(true);
        this.retag()
    }
}

impl<Dir: DirToken, Ch1Mode, Ch2Mode, Ch3Mode, Ch4Mode> GeneralTimCfg<
    Dir,
    DefaultLink,
    Ch1Mode,
    Ch2Mode,
    Ch3Mode,
    Ch4Mode,
> {
    /// Let the timer drive another timer: select the master mode and the
    /// master/slave bit.
    pub fn into_master(self) -> (r: GeneralTimCfg<
        Dir,
        MasterLink,
        Ch1Mode,
        Ch2Mode,
        Ch3Mode,
        Ch4Mode,
    >)
        ensures
            r.spec_tim() == (TimRegsView { mms: 1, msm: true, ..self.spec_tim() }),
            r.spec_tim_int() == self.spec_tim_int(),
            r.spec_clk() == self.spec_clk(),
    {
        let mut this = self;
        this.tim.write_mms(1);
        this.tim.set_msm();
        this.retag()
    }
}

/// Program a timer as the slave of another: slave-mode and trigger
/// selection, in one store of the slave-mode control register.
pub fn slave_of(tim: &mut TimRegs, sms: u8, ts: u8)
    requires
        sms < 8,
        ts < 8,
    ensures
        final(tim)@ == (TimRegsView { sms, ts, msm: false, ..old(tim)@ }),
{
    tim.store_smcr(sms, ts);
}

impl<Dir: DirToken, Link: LinkToken, Ch1Mode, Ch2Mode, Ch3Mode, Ch4Mode> GeneralTimCfg<
    Dir,
    Link,
    Ch1Mode,
    Ch2Mode,
    Ch3Mode,
    Ch4Mode,
> {
    /// Disable the timer's bus clock.
    ///
    /// Turning a peripheral clock off has system-wide effect: the caller
    /// must be certain that no other component still depends on the timer
    /// being clocked.
    pub fn disable_clock(&mut self)
        ensures
            final(self).spec_tim() == (TimRegsView { clock_on: false, ..old(self).spec_tim() }),
            final(self).spec_tim_int() == old(self).spec_tim_int(),
            final(self).spec_clk() == old(self).spec_clk(),
    {
        self.tim.disable_clock();
    }

    /// Start the counter.
    pub fn start(&mut self)
        ensures
            final(self).spec_tim() == (TimRegsView { cen: true, ..old(self).spec_tim() }),
            final(self).spec_tim_int() == old(self).spec_tim_int(),
            final(self).spec_clk() == old(self).spec_clk(),
    {
        self.tim.set_cen();
    }

    /// Stop the counter.
    pub fn stop(&mut self)
        ensures
            final(self).spec_tim() == (TimRegsView { cen: false, ..old(self).spec_tim() }),
            final(self).spec_tim_int() == old(self).spec_tim_int(),
            final(self).spec_clk() == old(self).spec_clk(),
    {
        self.tim.clear_cen();
    }

    /// The current counter value.
    pub fn counter(&self) -> (r: u32)
        ensures
            r == self.spec_tim().cnt,
    {
        self.tim.read_cnt()
    }

    /// Poll run on every firing of the timer's interrupt to drive the
    /// overflow pulse stream: one pulse per observed overflow, consuming
    /// the pending flag; nothing when no overflow is pending. Accumulating
    /// pulses that the consumer has not yet taken — saturating at the
    /// counter width — is the stream adapter's business.
    pub fn overflow_pulse(&mut self) -> (r: Option<usize>)
        ensures
            final(self).spec_tim_int() == old(self).spec_tim_int(),
            final(self).spec_clk() == old(self).spec_clk(),
            old(self).spec_tim().uif ==> r == Some(1usize) && final(self).spec_tim()
                == (TimRegsView { uif: false, ..old(self).spec_tim() }),
            !old(self).spec_tim().uif ==> r is None && final(self).spec_tim() == old(
                self,
            ).spec_tim(),
    {
        if self.is_pending_overflow() {
            self.clear_pending_overflow();
            Some(1)
        } else {
            None
        }
    }

    /// Whether an overflow is pending.
    pub fn is_pending_overflow(&self) -> (r: bool)
        ensures
            r == self.spec_tim().uif,
    {
        self.tim.read_uif()
    }

    /// Clear the pending overflow flag; every other flag keeps its value,
    /// because a flag of this register is cleared by writing zero and left
    /// alone by writing one.
    pub fn clear_pending_overflow(&mut self)
        ensures
            final(self).spec_tim() == (TimRegsView { uif: false, ..old(self).spec_tim() }),
            final(self).spec_tim_int() == old(self).spec_tim_int(),
            final(self).spec_clk() == old(self).spec_clk(),
    {
        self.tim.clear_uif();
    }

    /// Release the timer peripheral, giving the register block back.
    pub fn release(self) -> (r: TimRegs)
        ensures
            r@ == self.spec_tim(),
    {
        let GeneralTimCfg { tim, .. } = self;
        tim
    }
}

/// Configuration of capture/compare channel 1, available while the
/// channel's mode is still open.
pub trait ConfigureTimCh1<Dir, Link, Ch2Mode, Ch3Mode, Ch4Mode>: Sized {
    /// The timer state carried through the channel configuration.
    spec fn spec_tim_state(&self) -> TimRegsView;

    /// Configure the channel through `configure`, keeping the timer state.
    fn ch1<Ch1Mode: ChModeToken, F: FnOnce(TimChCfg<TimCh1, DontCare>) -> TimChCfg<
        TimCh1,
        Ch1Mode,
    >>(self, configure: F) -> (r: GeneralTimCfg<Dir, Link, Ch1Mode, Ch2Mode, Ch3Mode, Ch4Mode>)
        requires
            forall|c: TimChCfg<TimCh1, DontCare>| #[trigger] call_requires(configure, (c,)),
        ensures
            r.spec_tim() == self.spec_tim_state(),
    ;
}

impl<Dir: DirToken, Link: LinkToken, Ch2Mode, Ch3Mode, Ch4Mode> ConfigureTimCh1<
    Dir,
    Link,
    Ch2Mode,
    Ch3Mode,
    Ch4Mode,
> for GeneralTimCfg<Dir, Link, DontCare, Ch2Mode, Ch3Mode, Ch4Mode> {
    open spec fn spec_tim_state(&self) -> TimRegsView {
        self.spec_tim()
    }

    fn ch1<Ch1Mode: ChModeToken, F: FnOnce(TimChCfg<TimCh1, DontCare>) -> TimChCfg<
        TimCh1,
        Ch1Mode,
    >>(self, configure: F) -> (r: GeneralTimCfg<Dir, Link, Ch1Mode, Ch2Mode, Ch3Mode, Ch4Mode>) {
        let GeneralTimCfg { tim, tim_int, clk, dir: _, link: _, ch1, ch2, ch3, ch4 } = self;
        let ch1 = configure(ch1);
        GeneralTimCfg {
            tim,
            tim_int,
            clk,
            dir: PhantomData,
            link: PhantomData,
            ch1,
            ch2,
            ch3,
            ch4,
        }
    }
}

/// Configuration of capture/compare channel 2, available while the
/// channel's mode is still open.
pub trait ConfigureTimCh2<Dir, Link, Ch1Mode, Ch3Mode, Ch4Mode>: Sized {
    /// The timer state carried through the channel configuration.
    spec fn spec_tim_state(&self) -> TimRegsView;

    /// Configure the channel through `configure`, keeping the timer state.
    fn ch2<Ch2Mode: ChModeToken, F: FnOnce(TimChCfg<TimCh2, DontCare>) -> TimChCfg<
        TimCh2,
        Ch2Mode,
    >>(self, configure: F) -> (r: GeneralTimCfg<Dir, Link, Ch1Mode, Ch2Mode, Ch3Mode, Ch4Mode>)
        requires
            forall|c: TimChCfg<TimCh2, DontCare>| #[trigger] call_requires(configure, (c,)),
        ensures
            r.spec_tim() == self.spec_tim_state(),
    ;
}

impl<Dir: DirToken, Link: LinkToken, Ch1Mode, Ch3Mode, Ch4Mode> ConfigureTimCh2<
    Dir,
    Link,
    Ch1Mode,
    Ch3Mode,
    Ch4Mode,
> for GeneralTimCfg<Dir, Link, Ch1Mode, DontCare, Ch3Mode, Ch4Mode> {
    open spec fn spec_tim_state(&self) -> TimRegsView {
        self.spec_tim()
    }

    fn ch2<Ch2Mode: ChModeToken, F: FnOnce(TimChCfg<TimCh2, DontCare>) -> TimChCfg<
        TimCh2,
        Ch2Mode,
    >>(self, configure: F) -> (r: GeneralTimCfg<Dir, Link, Ch1Mode, Ch2Mode, Ch3Mode, Ch4Mode>) {
        let GeneralTimCfg { tim, tim_int, clk, dir: _, link: _, ch1, ch2, ch3, ch4 } = self;
        let ch2 = configure(ch2);
        GeneralTimCfg {
            tim,
            tim_int,
            clk,
            dir: PhantomData,
            link: PhantomData,
            ch1,
            ch2,
            ch3,
            ch4,
        }
    }
}

/// Configuration of capture/compare channel 3, available while the
/// channel's mode is still open.
pub trait ConfigureTimCh3<Dir, Link, Ch1Mode, Ch2Mode, Ch4Mode>: Sized {
    /// The timer state carried through the channel configuration.
    spec fn spec_tim_state(&self) -> TimRegsView;

    /// Configure the channel through `configure`, keeping the timer state.
    fn ch3<Ch3Mode: ChModeToken, F: FnOnce(TimChCfg<TimCh3, DontCare>) -> TimChCfg<
        TimCh3,
        Ch3Mode,
    >>(self, configure: F) -> (r: GeneralTimCfg<Dir, Link, Ch1Mode, Ch2Mode, Ch3Mode, Ch4Mode>)
        requires
            forall|c: TimChCfg<TimCh3, DontCare>| #[trigger] call_requires(configure, (c,)),
        ensures
            r.spec_tim() == self.spec_tim_state(),
    ;
}

impl<Dir: DirToken, Link: LinkToken, Ch1Mode, Ch2Mode, Ch4Mode> ConfigureTimCh3<
    Dir,
    Link,
    Ch1Mode,
    Ch2Mode,
    Ch4Mode,
> for GeneralTimCfg<Dir, Link, Ch1Mode, Ch2Mode, DontCare, Ch4Mode> {
    open spec fn spec_tim_state(&self) -> TimRegsView {
        self.spec_tim()
    }

    fn ch3<Ch3Mode: ChModeToken, F: FnOnce(TimChCfg<TimCh3, DontCare>) -> TimChCfg<
        TimCh3,
        Ch3Mode,
    >>(self, configure: F) -> (r: GeneralTimCfg<Dir, Link, Ch1Mode, Ch2Mode, Ch3Mode, Ch4Mode>) {
        let GeneralTimCfg { tim, tim_int, clk, dir: _, link: _, ch1, ch2, ch3, ch4 } = self;
        let ch3 = configure(ch3);
        GeneralTimCfg {
            tim,
            tim_int,
            clk,
            dir: PhantomData,
            link: PhantomData,
            ch1,
            ch2,
            ch3,
            ch4,
        }
    }
}

/// Configuration of capture/compare channel 4, available while the
/// channel's mode is still open.
pub trait ConfigureTimCh4<Dir, Link, Ch1Mode, Ch2Mode, Ch3Mode>: Sized {
    /// The timer state carried through the channel configuration.
    spec fn spec_tim_state(&self) -> TimRegsView;

    /// Configure the channel through `configure`, keeping the timer state.
    fn ch4<Ch4Mode: ChModeToken, F: FnOnce(TimChCfg<TimCh4, DontCare>) -> TimChCfg<
        TimCh4,
        Ch4Mode,
    >>(self, configure: F) -> (r: GeneralTimCfg<Dir, Link, Ch1Mode, Ch2Mode, Ch3Mode, Ch4Mode>)
        requires
            forall|c: TimChCfg<TimCh4, DontCare>| #[trigger] call_requires(configure, (c,)),
        ensures
            r.spec_tim() == self.spec_tim_state(),
    ;
}

impl<Dir: DirToken, Link: LinkToken, Ch1Mode, Ch2Mode, Ch3Mode> ConfigureTimCh4<
    Dir,
    Link,
    Ch1Mode,
    Ch2Mode,
    Ch3Mode,
> for GeneralTimCfg<Dir, Link, Ch1Mode, Ch2Mode, Ch3Mode, DontCare> {
    open spec fn spec_tim_state(&self) -> TimRegsView {
        self.spec_tim()
    }

    fn ch4<Ch4Mode: ChModeToken, F: FnOnce(TimChCfg<TimCh4, DontCare>) -> TimChCfg<
        TimCh4,
        Ch4Mode,
    >>(self, configure: F) -> (r: GeneralTimCfg<Dir, Link, Ch1Mode, Ch2Mode, Ch3Mode, Ch4Mode>) {
        let GeneralTimCfg { tim, tim_int, clk, dir: _, link: _, ch1, ch2, ch3, ch4 } = self;
        let ch4 = configure(ch4);
        GeneralTimCfg {
            tim,
            tim_int,
            clk,
            dir: PhantomData,
            link: PhantomData,
            ch1,
            ch2,
            ch3,
            ch4,
        }
    }
}

} // verus!
