use stm32f4_drv::gpio::pin::{
    GpioHead, GpioPin, GpioPinSpeed, NewPin, PinAf7, PinRegs,
};

#[test]
fn alternate_chain_programs_registers() {
    // Mode, then electrical type, then pull: the order the typestate
    // enforces; every stage's method set is exactly what compiles here.
    let pin = GpioPin::from_regs(PinRegs::new())
        .into_alternate::<PinAf7>()
        .into_pp()
        .into_pullup()
        .with_speed(GpioPinSpeed::VeryHighSpeed);
    let regs = pin.regs().snapshot();
    assert_eq!(regs.moder, 2);
    assert_eq!(regs.afr, 7);
    assert!(!regs.otyper);
    assert_eq!(regs.pupdr, 1);
    assert_eq!(regs.ospeedr, 3);
}

#[test]
fn output_chain_set_clear_get() {
    let mut pin = GpioPin::from_regs(PinRegs::new())
        .into_output()
        .into_pushpull()
        .into_nopull()
        .with_speed(GpioPinSpeed::LowSpeed);
    assert_eq!(pin.regs().snapshot().moder, 1);
    assert_eq!(pin.regs().snapshot().ospeedr, 0);

    pin.set();
    assert!(pin.regs().read_odr());
    pin.clear();
    assert!(!pin.regs().read_odr());

    // The line level is what the hardware drives, not the output latch.
    assert!(!pin.get());
    pin.regs_mut().hw_drive(true);
    assert!(pin.get());
}

#[test]
fn input_chain_with_pulldown() {
    let pin = GpioPin::from_regs(PinRegs::new()).into_input().into_pushpull().into_pulldown();
    let regs = pin.regs().snapshot();
    assert_eq!(regs.moder, 0);
    assert_eq!(regs.pupdr, 2);
}

#[test]
fn opendrain_output() {
    let pin = GpioPin::from_regs(PinRegs::new()).into_output().into_opendrain();
    assert!(pin.regs().snapshot().otyper);
}

#[test]
fn alternate_opendrain_short_name() {
    let pin = GpioPin::from_regs(PinRegs::new()).into_alternate::<PinAf7>().into_od();
    let regs = pin.regs().snapshot();
    assert_eq!(regs.moder, 2);
    assert!(regs.otyper);
}

#[test]
fn head_creates_undetermined_pin() {
    let head = GpioHead::with_enabled_clock();
    let pin = head.pin(PinRegs::new());
    let pin = pin.into_input();
    assert_eq!(pin.regs().snapshot().moder, 0);
}
