use stm32f4_drv::gpio::pin::{GpioPin, NoPull, PinRegs, PushPullType};
use stm32f4_drv::spi::chipctrl::{ChipCtrl, SpiChip};

struct Master;

impl ChipCtrl for Master {}

fn cs_chip() -> SpiChip<PushPullType, NoPull> {
    let cs = GpioPin::from_regs(PinRegs::new()).into_output().into_pushpull().into_nopull();
    SpiChip::init(cs)
}

#[test]
fn chip_starts_deselected() {
    let chip = cs_chip();
    assert!(!chip.is_selected());
}

#[test]
fn select_guard_holds_and_releases_exactly_once() {
    let mut master = Master;
    let chip = cs_chip();

    // Selecting moves the chip into the guard: while the guard lives, a
    // second selection of the same chip does not compile.
    let guard = master.select(chip);

    // Releasing consumes the guard, deselects, and gives the chip back.
    let chip = guard.release();
    assert!(!chip.is_selected());

    // The chip can be selected again after the release.
    let guard = master.select(chip);
    let chip = guard.release();
    assert!(!chip.is_selected());
}
