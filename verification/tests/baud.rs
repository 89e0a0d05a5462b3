use stm32f4_drv::uart::drv::{BaudRate, DataBits, Oversampling, Parity, StopBits, UartSetup};
use stm32f4_drv::uart::periph::UartRegs;

#[test]
fn brr_16mhz_115200_by16() {
    let baud = BaudRate::nominal(115200, 16_000_000);
    let (man, frac) = baud.brr(Oversampling::By16);
    assert_eq!(man, 8);
    assert_eq!(frac, 22);
}

#[test]
fn brr_90mhz_115200_by8() {
    let baud = BaudRate::nominal(115200, 90_000_000);
    let (man, frac) = baud.brr(Oversampling::By8);
    assert_eq!(man, 97);
    assert_eq!(frac, 10);
}

#[test]
fn brr_16mhz_115200_by8() {
    let baud = BaudRate::nominal(115200, 16_000_000);
    let (man, frac) = baud.brr(Oversampling::By8);
    assert_eq!(man, 17);
    assert_eq!(frac, 6);
}

#[test]
fn brr_16mhz_9600_by16() {
    let baud = BaudRate::nominal(9600, 16_000_000);
    let (man, frac) = baud.brr(Oversampling::By16);
    assert_eq!(man, 104);
    assert_eq!(frac, 5);
}

#[test]
fn brr_custom_passthrough() {
    let baud = BaudRate::Custom { div_man: 123, div_frac: 9 };
    let (man, frac) = baud.brr(Oversampling::By16);
    assert_eq!(man, 123);
    assert_eq!(frac, 9);
}

// The remainder 99 makes the rounded fraction land exactly on the top of
// the field; the strict field bound holds for every remainder below 99.
#[test]
fn brr_fraction_reaches_field_top() {
    let baud = BaudRate::nominal(1000, 15_999_840);
    let (man, frac) = baud.brr(Oversampling::By16);
    assert_eq!(man, 999);
    assert_eq!(frac, 32);
}

#[test]
fn uart_setup_defaults() {
    let uart = UartRegs::new(0x4001_1004);
    let setup = UartSetup::new(uart, 37, BaudRate::nominal(115200, 16_000_000));
    assert!(setup.data_bits == DataBits::Eight);
    assert!(setup.parity == Parity::Disabled);
    assert!(setup.stop_bits == StopBits::One);
    assert!(setup.oversampling == Oversampling::By16);
    assert_eq!(setup.uart_int, 37);
}
