use stm32f4_drv::rcc::clktree::HClk;
use stm32f4_drv::rcc::flash::{Flash, FlashPeriph, HClkExt, VoltageRange};

#[test]
fn wait_states_high_voltage() {
    assert_eq!(HClk::new(30_000_000).get_wait_states(VoltageRange::HighVoltage), 0);
    assert_eq!(HClk::new(31_000_000).get_wait_states(VoltageRange::HighVoltage), 1);
    assert_eq!(HClk::new(90_000_000).get_wait_states(VoltageRange::HighVoltage), 2);
    assert_eq!(HClk::new(168_000_000).get_wait_states(VoltageRange::HighVoltage), 5);
}

#[test]
fn wait_states_medium_voltage() {
    assert_eq!(HClk::new(24_000_000).get_wait_states(VoltageRange::MediumVoltage), 0);
    assert_eq!(HClk::new(168_000_000).get_wait_states(VoltageRange::MediumVoltage), 6);
}

#[test]
fn wait_states_low_voltage() {
    assert_eq!(HClk::new(100_000_000).get_wait_states(VoltageRange::LowVoltage), 4);
}

#[test]
fn wait_states_ultra_low_voltage() {
    assert_eq!(HClk::new(160_000_000).get_wait_states(VoltageRange::UltraLowVoltage), 7);
    assert_eq!(HClk::new(21_000_000).get_wait_states(VoltageRange::UltraLowVoltage), 1);
}

#[test]
fn set_latency() {
    let mut flash = Flash::new(FlashPeriph::new());
    assert_eq!(flash.latency(), 0);
    flash.set_latency(5);
    assert_eq!(flash.latency(), 5);
}
