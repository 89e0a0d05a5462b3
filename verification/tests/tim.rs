use stm32f4_drv::rcc::clktree::ConfiguredClk;
use stm32f4_drv::tim::gen::{
    slave_of, ConfigureTimCh1, GeneralTimCfg, GeneralTimSetup, NewGeneralTimSetup, TimFreq,
};
use stm32f4_drv::tim::periph::TimRegs;

fn cfg_1khz() -> GeneralTimCfg<
    stm32f4_drv::tim::gen::DontCare,
    stm32f4_drv::tim::gen::DefaultLink,
    stm32f4_drv::tim::gen::DontCare,
    stm32f4_drv::tim::gen::DontCare,
    stm32f4_drv::tim::gen::DontCare,
    stm32f4_drv::tim::gen::DontCare,
> {
    let clk = ConfiguredClk::new(30_000_000);
    let setup = GeneralTimSetup::new(TimRegs::new(), 28, clk, TimFreq::Nominal(1000));
    GeneralTimCfg::with_enabled_clock(setup)
}

#[test]
fn setup_defaults() {
    let clk = ConfiguredClk::new(30_000_000);
    let setup = GeneralTimSetup::new(TimRegs::new(), 28, clk, TimFreq::Nominal(1000));
    assert_eq!(setup.arr, 0xFFFF);
    assert!(!setup.debug_stop);
    assert_eq!(setup.tim_int, 28);
}

#[test]
fn with_enabled_clock_programs_registers() {
    let cfg = cfg_1khz();
    let regs = cfg.tim().snapshot();
    assert!(regs.clock_on);
    // The bus clock is doubled into the timer: 60 MHz rounded to 1 kHz.
    assert_eq!(regs.psc, 59_999);
    assert!(!regs.cen);
    assert!(!regs.udis);
    assert!(regs.urs);
    assert!(!regs.opm);
    assert!(regs.arpe);
    assert_eq!(regs.arr, 0xFFFF);
    assert_eq!(regs.cnt, 0);
    assert!(!regs.dbg_stop);
}

#[test]
fn raw_prescaler_is_off_by_one() {
    let clk = ConfiguredClk::new(30_000_000);
    let setup = GeneralTimSetup::new(TimRegs::new(), 28, clk, TimFreq::Prescaler(8));
    let cfg = GeneralTimCfg::with_enabled_clock(setup);
    assert_eq!(cfg.tim().snapshot().psc, 7);
}

#[test]
fn count_directions() {
    let up = cfg_1khz().into_count_up();
    assert!(!up.tim().snapshot().dir_down);
    assert_eq!(up.tim().snapshot().cms, 0);

    let down = cfg_1khz().into_count_down();
    assert!(down.tim().snapshot().dir_down);
}

#[test]
fn master_link() {
    let cfg = cfg_1khz().into_count_up().into_master();
    let regs = cfg.tim().snapshot();
    assert_eq!(regs.mms, 1);
    assert!(regs.msm);
}

#[test]
fn slave_mode_selection() {
    let mut tim = TimRegs::new();
    slave_of(&mut tim, 4, 2);
    let regs = tim.snapshot();
    assert_eq!(regs.sms, 4);
    assert_eq!(regs.ts, 2);
    assert!(!regs.msm);
}

#[test]
fn start_stop_counter() {
    let mut cfg = cfg_1khz().into_count_up();
    cfg.start();
    assert!(cfg.tim().snapshot().cen);
    cfg.tim_mut().write_cnt(42);
    assert_eq!(cfg.counter(), 42);
    cfg.stop();
    assert!(!cfg.tim().snapshot().cen);
    cfg.reset_counter();
    assert_eq!(cfg.counter(), 0);
}

#[test]
fn overflow_pulse_consumes_flag() {
    let mut cfg = cfg_1khz().into_count_up();
    assert!(cfg.overflow_pulse().is_none());
    cfg.tim_mut().hw_overflow();
    assert!(cfg.is_pending_overflow());
    assert_eq!(cfg.overflow_pulse(), Some(1));
    assert!(!cfg.is_pending_overflow());
    assert!(cfg.overflow_pulse().is_none());
}

#[test]
fn channel_configuration_keeps_timer_state() {
    let cfg = cfg_1khz().into_count_up();
    let before = cfg.tim().snapshot();
    let cfg = cfg.ch1(|c| c);
    assert!(cfg.tim().snapshot() == before);
}

#[test]
fn release_returns_register_block() {
    let mut cfg = cfg_1khz().into_count_up();
    cfg.start();
    let tim = cfg.release();
    assert!(tim.snapshot().cen);
}

#[test]
fn debug_stop_choice() {
    let clk = ConfiguredClk::new(30_000_000);
    let mut setup = GeneralTimSetup::new(TimRegs::new(), 28, clk, TimFreq::Nominal(1000));
    setup.debug_stop = true;
    let cfg = GeneralTimCfg::with_enabled_clock(setup);
    assert!(cfg.tim().snapshot().dbg_stop);
}

#[test]
fn clock_disable() {
    let mut cfg = cfg_1khz().into_count_up();
    cfg.disable_clock();
    assert!(!cfg.tim().snapshot().clock_on);
}
