//! Pin configuration with compile-time typestate.
//!
//! A pin carries three configuration attributes as type parameters: mode,
//! electrical type, and pull. Each configuration method consumes the pin and
//! returns it under a new type, so only the attributes whose prerequisites
//! are already fixed are reachable as methods, an attribute cannot be
//! changed once fixed, and invalid configuration orders do not compile.
//! The hardware dependency order is mode, then electrical type, then pull.
//!
//! Each transition also performs its register write on the pin's register
//! slice, and its contract states that write exactly.

use vstd::prelude::*;
use core::marker::PhantomData;

verus! {

/// The observable per-pin slice of the port's registers.
#[derive(Clone, Copy, PartialEq, Eq, Structural)]
pub struct PinRegsView {
    /// Mode field: input 0, output 1, alternate 2, analog 3.
    pub moder: u8,
    /// Output type: open-drain when set, push/pull otherwise.
    pub otyper: bool,
    /// Output speed field.
    pub ospeedr: u8,
    /// Pull field: none 0, pull-up 1, pull-down 2.
    pub pupdr: u8,
    /// Alternate-function selection.
    pub afr: u8,
    /// Input data bit, driven by the line.
    pub idr: bool,
    /// Output data bit, driven through the bit set/reset register.
    pub odr: bool,
}

/// The per-pin slice of a port's register block, owned by one pin value.
pub struct PinRegs {
    moder: u8,
    otyper: bool,
    ospeedr: u8,
    pupdr: u8,
    afr: u8,
    idr: bool,
    odr: bool,
}

impl View for PinRegs {
    type V = PinRegsView;

    closed spec fn view(&self) -> PinRegsView {
        PinRegsView {
            moder: self.moder,
            otyper: self.otyper,
            ospeedr: self.ospeedr,
            pupdr: self.pupdr,
            afr: self.afr,
            idr: self.idr,
            odr: self.odr,
        }
    }
}

impl PinRegs {
    /// A pin slice in its reset state.
    pub fn new() -> (r: PinRegs)
        ensures
            r@ == (PinRegsView {
                moder: 0,
                otyper: false,
                ospeedr: 0,
                pupdr: 0,
                afr: 0,
                idr: false,
                odr: false,
            }),
    {
        PinRegs { moder: 0, otyper: false, ospeedr: 0, pupdr: 0, afr: 0, idr: false, odr: false }
    }

    /// A full snapshot of the observable register state.
    pub fn snapshot(&self) -> (r: PinRegsView)
        ensures
            r == self@,
    {
        PinRegsView {
            moder: self.moder,
            otyper: self.otyper,
            ospeedr: self.ospeedr,
            pupdr: self.pupdr,
            afr: self.afr,
            idr: self.idr,
            odr: self.odr,
        }
    }

    /// Write the pin's mode field.
    pub fn write_moder(&mut self, v: u8)
        requires
            v < 4,
        ensures
            final(self)@ == (PinRegsView { moder: v, ..old(self)@ }),
    {
        self.moder = v;
    }

    /// Write the pin's output-type bit.
    pub fn write_otyper(&mut self, v: bool)
        ensures
            final(self)@ == (PinRegsView { otyper: v, ..old(self)@ }),
    {
        self.otyper = v;
    }

    /// Write the pin's output-speed field.
    pub fn write_ospeedr(&mut self, v: u8)
        requires
            v < 4,
        ensures
            final(self)@ == (PinRegsView { ospeedr: v, ..old(self)@ }),
    {
        self.ospeedr = v;
    }

    /// Write the pin's pull field.
    pub fn write_pupdr(&mut self, v: u8)
        requires
            v < 4,
        ensures
            final(self)@ == (PinRegsView { pupdr: v, ..old(self)@ }),
    {
        self.pupdr = v;
    }

    /// Write the pin's alternate-function selection.
    pub fn write_afr(&mut self, v: u8)
        requires
            v < 16,
        ensures
            final(self)@ == (PinRegsView { afr: v, ..old(self)@ }),
    {
        self.afr = v;
    }

    /// Read the input data bit.
    pub fn read_idr(&self) -> (r: bool)
        ensures
            r == self@.idr,
    {
        self.idr
    }

    /// Read the output data bit.
    pub fn read_odr(&self) -> (r: bool)
        ensures
            r == self@.odr,
    {
        self.odr
    }

    /// Write the BS (bit set) side of the bit set/reset register: the
    /// output goes high atomically.
    pub fn bsrr_set(&mut self)
        ensures
            final(self)@ == (PinRegsView { odr: true, ..old(self)@ }),
    {
        self.odr = true;
    }

    /// Write the BR (bit reset) side of the bit set/reset register: the
    /// output goes low atomically.
    pub fn bsrr_clear(&mut self)
        ensures
            final(self)@ == (PinRegsView { odr: false, ..old(self)@ }),
    {
        self.odr = false;
    }

    /// Hardware event: the line drives the input data bit.
    pub fn hw_drive(&mut self, level: bool)
        ensures
            final(self)@ == (PinRegsView { idr: level, ..old(self)@ }),
    {
        self.idr = level;
    }
}

/// Generic dont-care token for an attribute not yet determined.
pub struct DontCare;

/// General-purpose input mode (mode field 0).
pub struct InputMode;

/// General-purpose output mode (mode field 1).
pub struct OutputMode;

/// Alternate-function mode (mode field 2), carrying the selected function.
pub struct AlternateMode<Af: PinAf> {
    af: PhantomData<Af>,
}

/// Push/pull output type (type bit clear). Only meaningful for the output
/// and alternate modes.
pub struct PushPullType;

/// Open-drain output type (type bit set). Only meaningful for the output
/// and alternate modes.
pub struct OpenDrainType;

/// Neither pull-up nor pull-down; a floating input.
pub struct NoPull;

/// Pull-up.
pub struct PullUp;

/// Pull-down.
pub struct PullDown;

pub struct PinAf0;

pub struct PinAf1;

pub struct PinAf2;

pub struct PinAf3;

pub struct PinAf4;

pub struct PinAf5;

pub struct PinAf6;

pub struct PinAf7;

pub struct PinAf8;

pub struct PinAf9;

pub struct PinAf10;

pub struct PinAf11;

pub struct PinAf12;

pub struct PinAf13;

pub struct PinAf14;

pub struct PinAf15;

/// An alternate-function selection token.
pub trait PinAf {
    /// The function number the token selects.
    spec fn spec_num() -> u8;

    /// The function number fits the 4-bit selection field.
    proof fn num_in_range()
        ensures
            Self::spec_num() < 16,
    ;

    /// The function number the token selects.
    fn num() -> (n: u8)
        ensures
            n == Self::spec_num(),
    ;
}

impl PinAf for PinAf0 {
    open spec fn spec_num() -> u8 {
        0
    }

    proof fn num_in_range() {
    }

    fn num() -> u8 {
        0
    }
}

impl PinAf for PinAf1 {
    open spec fn spec_num() -> u8 {
        1
    }

    proof fn num_in_range() {
    }

    fn num() -> u8 {
        1
    }
}

impl PinAf for PinAf2 {
    open spec fn spec_num() -> u8 {
        2
    }

    proof fn num_in_range() {
    }

    fn num() -> u8 {
        2
    }
}

impl PinAf for PinAf3 {
    open spec fn spec_num() -> u8 {
        3
    }

    proof fn num_in_range() {
    }

    fn num() -> u8 {
        3
    }
}

impl PinAf for PinAf4 {
    open spec fn spec_num() -> u8 {
        4
    }

    proof fn num_in_range() {
    }

    fn num() -> u8 {
        4
    }
}

impl PinAf for PinAf5 {
    open spec fn spec_num() -> u8 {
        5
    }

    proof fn num_in_range() {
    }

    fn num() -> u8 {
        5
    }
}

impl PinAf for PinAf6 {
    open spec fn spec_num() -> u8 {
        6
    }

    proof fn num_in_range() {
    }

    fn num() -> u8 {
        6
    }
}

impl PinAf for PinAf7 {
    open spec fn spec_num() -> u8 {
        7
    }

    proof fn num_in_range() {
    }

    fn num() -> u8 {
        7
    }
}

impl PinAf for PinAf8 {
    open spec fn spec_num() -> u8 {
        8
    }

    proof fn num_in_range() {
    }

    fn num() -> u8 {
        8
    }
}

impl PinAf for PinAf9 {
    open spec fn spec_num() -> u8 {
        9
    }

    proof fn num_in_range() {
    }

    fn num() -> u8 {
        9
    }
}

impl PinAf for PinAf10 {
    open spec fn spec_num() -> u8 {
        10
    }

    proof fn num_in_range() {
    }

    fn num() -> u8 {
        10
    }
}

impl PinAf for PinAf11 {
    open spec fn spec_num() -> u8 {
        11
    }

    proof fn num_in_range() {
    }

    fn num() -> u8 {
        11
    }
}

impl PinAf for PinAf12 {
    open spec fn spec_num() -> u8 {
        12
    }

    proof fn num_in_range() {
    }

    fn num() -> u8 {
        12
    }
}

impl PinAf for PinAf13 {
    open spec fn spec_num() -> u8 {
        13
    }

    proof fn num_in_range() {
    }

    fn num() -> u8 {
        13
    }
}

impl PinAf for PinAf14 {
    open spec fn spec_num() -> u8 {
        14
    }

    proof fn num_in_range() {
    }

    fn num() -> u8 {
        14
    }
}

impl PinAf for PinAf15 {
    open spec fn spec_num() -> u8 {
        15
    }

    proof fn num_in_range() {
    }

    fn num() -> u8 {
        15
    }
}

impl PinAf for DontCare {
    open spec fn spec_num() -> u8 {
        0
    }

    proof fn num_in_range() {
    }

    fn num() -> u8 {
        0
    }
}

/// Pin drive speed.
#[derive(Clone, Copy, PartialEq, Eq, Structural)]
pub enum GpioPinSpeed {
    LowSpeed,
    MediumSpeed,
    HighSpeed,
    VeryHighSpeed,
}

/// The value of the output-speed field for a speed selection.
pub open spec fn spec_speed_field(speed: GpioPinSpeed) -> u8 {
    match speed {
        GpioPinSpeed::LowSpeed => 0u8,
        GpioPinSpeed::MediumSpeed => 1u8,
        GpioPinSpeed::HighSpeed => 2u8,
        GpioPinSpeed::VeryHighSpeed => 3u8,
    }
}

/// Pin configuration: the pin's register slice under the three typestate
/// attributes.
pub struct GpioPin<Mode, Type, Pull> {
    regs: PinRegs,
    mode: PhantomData<Mode>,
    type_: PhantomData<Type>,
    pull: PhantomData<Pull>,
}

impl<Mode, Type, Pull> GpioPin<Mode, Type, Pull> {
    /// The pin's register slice.
    pub closed spec fn spec_regs(&self) -> PinRegsView {
        self.regs@
    }

    /// The pin's register slice, for inspection.
    pub fn regs(&self) -> (r: &PinRegs)
        ensures
            r@ == self.spec_regs(),
    {
        &self.regs
    }

    /// The pin's register slice, for the hardware side: the harness drives
    /// the input data bit through this.
    pub fn regs_mut(&mut self) -> (r: &mut PinRegs)
        ensures
            (*r)@ == old(self).spec_regs(),
            final(self).spec_regs() == (*final(r))@,
    {
        &mut self.regs
    }

    /// Retag the pin, keeping the register slice. Private on purpose: only
    /// the transitions below change the tags.
    fn retag<ToMode, ToType, ToPull>(self) -> (r: GpioPin<ToMode, ToType, ToPull>)
        ensures
            r.spec_regs() == self.spec_regs(),
    {
        GpioPin { regs: self.regs, mode: PhantomData, type_: PhantomData, pull: PhantomData }
    }
}

impl GpioPin<DontCare, DontCare, DontCare> {
    /// Take a pin's register slice into the undetermined configuration
    /// state, from which every configuration starts.
    pub fn from_regs(regs: PinRegs) -> (r: GpioPin<DontCare, DontCare, DontCare>)
        ensures
            r.spec_regs() == regs@,
    {
        GpioPin { regs, mode: PhantomData, type_: PhantomData, pull: PhantomData }
    }

    /// Set the pin into general-purpose input mode.
    pub fn into_input(self) -> (r: GpioPin<InputMode, DontCare, DontCare>)
        ensures
            r.spec_regs() == (PinRegsView { moder: 0, ..self.spec_regs() }),
    {
        let mut this = self;
        this.regs.write_moder(0);
        this.retag()
    }

    /// Set the pin into general-purpose output mode.
    pub fn into_output(self) -> (r: GpioPin<OutputMode, DontCare, DontCare>)
        ensures
            r.spec_regs() == (PinRegsView { moder: 1, ..self.spec_regs() }),
    {
        let mut this = self;
        this.regs.write_moder(1);
        this.retag()
    }

    /// Set the pin into alternate-function mode. The function-select and
    /// mode fields are both written, function first, as one transition, so
    /// no observable intermediate state selects the wrong function.
    pub fn into_alternate<Af: PinAf>(self) -> (r: GpioPin<AlternateMode<Af>, DontCare, DontCare>)
        ensures
            r.spec_regs() == (PinRegsView {
                afr: Af::spec_num(),
                moder: 2,
                ..self.spec_regs()
            }),
    {
        proof {
            Af::num_in_range();
        }
        let mut this = self;
        this.regs.write_afr(Af::num());
        this.regs.write_moder(2);
        this.retag()
    }
}

/// The modes whose electrical type can be fixed.
pub trait TypeModes {

}

impl TypeModes for InputMode {

}

impl TypeModes for OutputMode {

}

impl<Af: PinAf> TypeModes for AlternateMode<Af> {

}

impl<Mode: TypeModes> GpioPin<Mode, DontCare, DontCare> {
    /// Let the pin type be push/pull; the pull field starts out at none.
    pub fn into_pushpull(self) -> (r: GpioPin<Mode, PushPullType, DontCare>)
        ensures
            r.spec_regs() == (PinRegsView {
                otyper: false,
                pupdr: 0,
                ..self.spec_regs()
            }),
    {
        let mut this = self;
        this.regs.write_otyper(false);
        this.regs.write_pupdr(0);
        this.retag()
    }

    /// Let the pin type be open-drain.
    pub fn into_opendrain(self) -> (r: GpioPin<Mode, OpenDrainType, DontCare>)
        ensures
            r.spec_regs() == (PinRegsView { otyper: true, ..self.spec_regs() }),
    {
        let mut this = self;
        this.regs.write_otyper(true);
        this.retag()
    }
}

/// The modes whose pull can be fixed.
pub trait PullModes {

}

impl PullModes for InputMode {

}

impl PullModes for OutputMode {

}

impl<Af: PinAf> PullModes for AlternateMode<Af> {

}

impl<Mode: PullModes> GpioPin<Mode, PushPullType, DontCare> {
    /// Neither pull-up nor pull-down.
    pub fn into_nopull(self) -> (r: GpioPin<Mode, PushPullType, NoPull>)
        ensures
            r.spec_regs() == (PinRegsView { pupdr: 0, ..self.spec_regs() }),
    {
        let mut this = self;
        this.regs.write_pupdr(0);
        this.retag()
    }

    /// Let the pin be pulled up.
    pub fn into_pullup(self) -> (r: GpioPin<Mode, PushPullType, PullUp>)
        ensures
            r.spec_regs() == (PinRegsView { pupdr: 1, ..self.spec_regs() }),
    {
        let mut this = self;
        this.regs.write_pupdr(1);
        this.retag()
    }

    /// Let the pin be pulled down.
    pub fn into_pulldown(self) -> (r: GpioPin<Mode, PushPullType, PullDown>)
        ensures
            r.spec_regs() == (PinRegsView { pupdr: 2, ..self.spec_regs() }),
    {
        let mut this = self;
        this.regs.write_pupdr(2);
        this.retag()
    }
}

/// The modes that have a drive speed.
pub trait WithSpeedModes {

}

impl WithSpeedModes for OutputMode {

}

impl<Af: PinAf> WithSpeedModes for AlternateMode<Af> {

}

impl<Mode: WithSpeedModes, Type, Pull> GpioPin<Mode, Type, Pull> {
    /// Set the pin's drive speed. The speed is no typestate attribute: it
    /// can be set at any point after the mode, and set again.
    pub fn with_speed(self, speed: GpioPinSpeed) -> (r: GpioPin<Mode, Type, Pull>)
        ensures
            r.spec_regs() == (PinRegsView {
                ospeedr: spec_speed_field(speed),
                ..self.spec_regs()
            }),
    {
        let field: u8 = match speed {
            GpioPinSpeed::LowSpeed => 0,
            GpioPinSpeed::MediumSpeed => 1,
            GpioPinSpeed::HighSpeed => 2,
            GpioPinSpeed::VeryHighSpeed => 3,
        };
        let mut this = self;
        this.regs.write_ospeedr(field);
        this
    }
}

/// The modes whose line level can be read.
pub trait GetModes {

}

impl GetModes for InputMode {

}

impl GetModes for OutputMode {

}

impl<Af: PinAf> GetModes for AlternateMode<Af> {

}

impl<Mode: GetModes, Type, Pull> GpioPin<Mode, Type, Pull> {
    /// The current level of the line.
    pub fn get(&self) -> (r: bool)
        ensures
            r == self.spec_regs().idr,
    {
        self.regs.read_idr()
    }
}

impl<Type, Pull> GpioPin<OutputMode, Type, Pull> {
    /// Drive the output high, through the bit set/reset register.
    pub fn set(&mut self)
        ensures
            final(self).spec_regs() == (PinRegsView { odr: true, ..old(self).spec_regs() }),
    {
        self.regs.bsrr_set();
    }

    /// Drive the output low, through the bit set/reset register.
    pub fn clear(&mut self)
        ensures
            final(self).spec_regs() == (PinRegsView { odr: false, ..old(self).spec_regs() }),
    {
        self.regs.bsrr_clear();
    }
}

/// Port-level handle: the head of one GPIO port, owning its clock enable.
pub struct GpioHead {
    clock_on: bool,
}

impl GpioHead {
    /// Whether the port's bus clock is enabled.
    pub closed spec fn spec_clock_on(&self) -> bool {
        self.clock_on
    }

    /// Take the port head with its clock enabled.
    pub fn with_enabled_clock() -> (r: GpioHead)
        ensures
            r.spec_clock_on(),
    {
        GpioHead { clock_on: true }
    }
}

/// Creation of a pin configuration from a pin's register slice, offered by
/// the head of the port the pin belongs to.
pub trait NewPin {
    /// Create a new pin configuration, in the undetermined state.
    fn pin(&self, regs: PinRegs) -> (r: GpioPin<DontCare, DontCare, DontCare>)
        ensures
            r.spec_regs() == regs@,
    ;
}

impl NewPin for GpioHead {
    fn pin(&self, regs: PinRegs) -> (r: GpioPin<DontCare, DontCare, DontCare>) {
        GpioPin::from_regs(regs)
    }
}

} // verus!
