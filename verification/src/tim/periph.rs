//! Register model of one general-purpose timer instance.

use vstd::prelude::*;

verus! {

/// The observable state of the timer's register block.
#[derive(Clone, Copy, PartialEq, Eq, Structural)]
pub struct TimRegsView {
    /// Counter enable.
    pub cen: bool,
    /// Update disable: update event generation off when set.
    pub udis: bool,
    /// Update request source: only counter overflow generates an update
    /// interrupt when set.
    pub urs: bool,
    /// One-pulse mode: counter stops at the update event when set.
    pub opm: bool,
    /// Auto-reload preload: buffered auto-reload value when set.
    pub arpe: bool,
    /// Count direction: down when set, up otherwise.
    pub dir_down: bool,
    /// Center-aligned mode field; 0 means edge-aligned counting in the
    /// direction of the direction bit.
    pub cms: u8,
    /// Master-mode selection field of the second control register.
    pub mms: u8,
    /// Slave-mode selection field.
    pub sms: u8,
    /// Trigger selection field.
    pub ts: u8,
    /// Master/slave mode bit.
    pub msm: bool,
    /// Prescaler.
    pub psc: u16,
    /// Auto-reload (top) value.
    pub arr: u32,
    /// Counter.
    pub cnt: u32,
    /// Update-interrupt (overflow) pending flag.
    pub uif: bool,
    /// Bus clock of the timer enabled in the reset-and-clock control.
    pub clock_on: bool,
    /// Whether the counter stops while the core is halted for debugging.
    pub dbg_stop: bool,
}

/// The register block of one general-purpose timer.
pub struct TimRegs {
    cen: bool,
    udis: bool,
    urs: bool,
    opm: bool,
    arpe: bool,
    dir_down: bool,
    cms: u8,
    mms: u8,
    sms: u8,
    ts: u8,
    msm: bool,
    psc: u16,
    arr: u32,
    cnt: u32,
    uif: bool,
    clock_on: bool,
    dbg_stop: bool,
}

impl View for TimRegs {
    type V = TimRegsView;

    closed spec fn view(&self) -> TimRegsView {
        TimRegsView {
            cen: self.cen,
            udis: self.udis,
            urs: self.urs,
            opm: self.opm,
            arpe: self.arpe,
            dir_down: self.dir_down,
            cms: self.cms,
            mms: self.mms,
            sms: self.sms,
            ts: self.ts,
            msm: self.msm,
            psc: self.psc,
            arr: self.arr,
            cnt: self.cnt,
            uif: self.uif,
            clock_on: self.clock_on,
            dbg_stop: self.dbg_stop,
        }
    }
}

impl TimRegs {
    /// A timer register block in its reset state.
    pub fn new() -> (r: TimRegs)
        ensures
            r@ == (TimRegsView {
                cen: false,
                udis: false,
                urs: false,
                opm: false,
                arpe: false,
                dir_down: false,
                cms: 0,
                mms: 0,
                sms: 0,
                ts: 0,
                msm: false,
                psc: 0,
                arr: 0xFFFF,
                cnt: 0,
                uif: false,
                clock_on: false,
                dbg_stop: false,
            }),
    {
        TimRegs {
            cen: false,
            udis: false,
            urs: false,
            opm: false,
            arpe: false,
            dir_down: false,
            cms: 0,
            mms: 0,
            sms: 0,
            ts: 0,
            msm: false,
            psc: 0,
            arr: 0xFFFF,
            cnt: 0,
            uif: false,
            clock_on: false,
            dbg_stop: false,
        }
    }

    /// A full snapshot of the observable register state.
    pub fn snapshot(&self) -> (r: TimRegsView)
        ensures
            r == self@,
    {
        TimRegsView {
            cen: self.cen,
            udis: self.udis,
            urs: self.urs,
            opm: self.opm,
            arpe: self.arpe,
            dir_down: self.dir_down,
            cms: self.cms,
            mms: self.mms,
            sms: self.sms,
            ts: self.ts,
            msm: self.msm,
            psc: self.psc,
            arr: self.arr,
            cnt: self.cnt,
            uif: self.uif,
            clock_on: self.clock_on,
            dbg_stop: self.dbg_stop,
        }
    }

    /// Enable the timer's bus clock in the reset-and-clock control.
    pub fn enable_clock(&mut self)
        ensures
            final(self)@ == (TimRegsView { clock_on: true, ..old(self)@ }),
    {
        self.clock_on = true;
    }

    /// Disable the timer's bus clock.
    pub fn disable_clock(&mut self)
        ensures
            final(self)@ == (TimRegsView { clock_on: false, ..old(self)@ }),
    {
        self.clock_on = false;
    }

    /// Stop the counter while the core is halted for debugging.
    pub fn set_dbg_stop(&mut self)
        ensures
            final(self)@ == (TimRegsView { dbg_stop: true, ..old(self)@ }),
    {
        self.dbg_stop = true;
    }

    /// Write the prescaler.
    pub fn write_psc(&mut self, v: u16)
        ensures
            final(self)@ == (TimRegsView { psc: v, ..old(self)@ }),
    {
        self.psc = v;
    }

    /// Store the first control register with the initialization values:
    /// update events on, update interrupts from overflow only, free-running,
    /// buffered auto-reload. A full store: the enable, direction and
    /// center-aligned fields take their reset values.
    pub fn store_cr1_init(&mut self)
        ensures
            final(self)@ == (TimRegsView {
                cen: false,
                udis: false,
                urs: true,
                opm: false,
                arpe: true,
                dir_down: false,
                cms: 0,
                ..old(self)@
            }),
    {
        self.cen = false;
        self.udis = false;
        self.urs = true;
        self.opm = false;
        self.arpe = true;
        self.dir_down = false;
        self.cms = 0;
    }

    /// Set the count direction and edge-aligned counting.
    pub fn set_direction(&mut self, down: bool)
        ensures
            final(self)@ == (TimRegsView { dir_down: down, cms: 0, ..old(self)@ }),
    {
        self.dir_down = down;
        self.cms = 0;
    }

    /// Write the master-mode selection field.
    pub fn write_mms(&mut self, v: u8)
        requires
            v < 8,
        ensures
            final(self)@ == (TimRegsView { mms: v, ..old(self)@ }),
    {
        self.mms = v;
    }

    /// Set the master/slave mode bit.
    pub fn set_msm(&mut self)
        ensures
            final(self)@ == (TimRegsView { msm: true, ..old(self)@ }),
    {
        self.msm = true;
    }

    /// Store the slave-mode control register: slave-mode and trigger
    /// selection. A full store: the master/slave bit takes its reset value.
    pub fn store_smcr(&mut self, sms: u8, ts: u8)
        requires
            sms < 8,
            ts < 8,
        ensures
            final(self)@ == (TimRegsView { sms, ts, msm: false, ..old(self)@ }),
    {
        self.sms = sms;
        self.ts = ts;
        self.msm = false;
    }

    /// Write the auto-reload value.
    pub fn write_arr(&mut self, v: u32)
        ensures
            final(self)@ == (TimRegsView { arr: v, ..old(self)@ }),
    {
        self.arr = v;
    }

    /// Write the counter.
    pub fn write_cnt(&mut self, v: u32)
        ensures
            final(self)@ == (TimRegsView { cnt: v, ..old(self)@ }),
    {
        self.cnt = v;
    }

    /// Read the counter.
    pub fn read_cnt(&self) -> (r: u32)
        ensures
            r == self@.cnt,
    {
        self.cnt
    }

    /// Generate an update event through the event-generation register:
    /// re-initialize the counter and take over the buffered register
    /// values.
    pub fn generate_update(&mut self)
        ensures
            final(self)@ == (TimRegsView { cnt: 0, ..old(self)@ }),
    {
        self.cnt = 0;
    }

    /// Set the counter-enable bit.
    pub fn set_cen(&mut self)
        ensures
            final(self)@ == (TimRegsView { cen: true, ..old(self)@ }),
    {
        self.cen = true;
    }

    /// Clear the counter-enable bit.
    pub fn clear_cen(&mut self)
        ensures
            final(self)@ == (TimRegsView { cen: false, ..old(self)@ }),
    {
        self.cen = false;
    }

    /// Read the overflow pending flag.
    pub fn read_uif(&self) -> (r: bool)
        ensures
            r == self@.uif,
    {
        self.uif
    }

    /// Clear the overflow pending flag by storing an all-ones value with
    /// the flag bit low; the flag is cleared by writing zero, writing one
    /// has no effect, so every other flag keeps its value.
    pub fn clear_uif(&mut self)
        ensures
            final(self)@ == (TimRegsView { uif: false, ..old(self)@ }),
    {
        self.uif = false;
    }

    /// Hardware event: the counter wrapped and the overflow flag rises.
    pub fn hw_overflow(&mut self)
        ensures
            final(self)@ == (TimRegsView { uif: true, ..old(self)@ }),
    {
        self.uif = true;
    }
}

} // verus!
