use stm32f4_drv::dma::{DmaChRegs, DmaDir, DmaIsr, TransferDescriptor};
use stm32f4_drv::uart::drv::{
    classify_dma_fault, classify_uart_fault, BaudRate, DataBits, DmaFault, Oversampling, Parity,
    StopBits, UartDmaSetup, UartDrv, UartFault, UartSetup,
};
use stm32f4_drv::uart::periph::{UartRegs, UartSr};
use stm32f4_drv::uart::rx::UartRxDrv;
use stm32f4_drv::uart::tx::{TxSessionState, UartTxDrv};

fn drv_115200() -> UartDrv {
    let uart = UartRegs::new(0x4001_1004);
    let setup = UartSetup::new(uart, 37, BaudRate::nominal(115200, 16_000_000));
    UartDrv::init(setup)
}

#[test]
fn init_programs_registers() {
    let drv = drv_115200();
    let regs = drv.uart.snapshot();
    assert!(regs.cr1.ue);
    assert!(regs.cr1.peie);
    assert!(regs.cr1.rxneie);
    assert!(!regs.cr1.m);
    assert!(!regs.cr1.pce);
    assert!(!regs.cr1.ps);
    assert!(!regs.cr1.over8);
    assert!(!regs.cr1.te);
    assert!(!regs.cr1.re);
    assert_eq!(regs.stop, 0);
    assert_eq!(regs.brr_man, 8);
    // The 4-bit fraction field keeps the low bits of the computed
    // fraction 22.
    assert_eq!(regs.brr_frac, 6);
    assert!(regs.clock_on);
}

#[test]
fn init_nine_bits_odd_parity_by8_two_stop() {
    let uart = UartRegs::new(0x4001_1004);
    let mut setup = UartSetup::new(uart, 37, BaudRate::nominal(115200, 16_000_000));
    setup.data_bits = DataBits::Nine;
    setup.parity = Parity::Odd;
    setup.stop_bits = StopBits::Two;
    setup.oversampling = Oversampling::By8;
    let drv = UartDrv::init(setup);
    let regs = drv.uart.snapshot();
    assert!(regs.cr1.m);
    assert!(regs.cr1.pce);
    assert!(regs.cr1.ps);
    assert!(regs.cr1.over8);
    assert_eq!(regs.stop, 2);
    assert_eq!(regs.brr_man, 17);
    assert_eq!(regs.brr_frac, 6);
}

#[test]
fn init_even_parity_selects_pce_only() {
    let uart = UartRegs::new(0x4001_1004);
    let mut setup = UartSetup::new(uart, 37, BaudRate::nominal(115200, 16_000_000));
    setup.parity = Parity::Even;
    let drv = UartDrv::init(setup);
    let regs = drv.uart.snapshot();
    assert!(regs.cr1.pce);
    assert!(!regs.cr1.ps);
}

#[test]
fn tx_transfer_completes_exactly_once() {
    let mut drv = drv_115200();
    let dma_setup =
        UartDmaSetup { dma: DmaChRegs::new(), dma_int: 58, dma_ch: 4, dma_pl: 2 };
    let mut tx = drv.tx(dma_setup);
    assert!(tx.session_state() == TxSessionState::Idle);

    // Leave a stale error flag; starting the transfer must clear it.
    drv.uart.hw_raise(UartSr { ore: true, idle: true, ..UartSr::clear() });

    let lease = UartTxDrv::acquire(&mut drv.uart).expect("transmitter is free");
    let desc = TransferDescriptor { addr: 0x2000_0100, len: 16, dir: DmaDir::MemToPeriph };
    tx.start(&mut drv.uart, &lease, desc);

    let uart_regs = drv.uart.snapshot();
    assert!(!uart_regs.sr.ore, "stale overrun flag must be cleared before arming");
    assert!(!uart_regs.sr.idle);
    assert!(uart_regs.dmat, "transmit DMA request must be enabled");

    let ch = tx.dma().regs();
    assert!(ch.en);
    assert_eq!(ch.m0ar, 0x2000_0100);
    assert_eq!(ch.ndt, 16);
    assert!(ch.minc);
    assert!(ch.tcie);
    assert!(ch.teie);
    assert_eq!(ch.chsel, 4);
    assert_eq!(ch.pl, 2);
    assert_eq!(ch.par, 0x4001_1004);
    assert!(ch.dir == DmaDir::MemToPeriph);

    // Polling before the transfer-complete flag rises yields, any number of
    // times, without side effects.
    assert!(!tx.poll().is_complete());
    assert!(!tx.poll().is_complete());
    assert!(tx.session_state() == TxSessionState::InFlight);

    // The hardware finishes the transfer and disables the channel.
    tx.dma_mut().hw_complete();
    let out = tx.poll();
    assert!(out.is_complete());
    assert!(tx.session_state() == TxSessionState::Idle);
    assert!(!tx.dma().regs().en);
    assert!(!tx.dma().regs().isr.tcif, "completion consumes the flag");
}

#[test]
fn flush_short_circuits_when_line_idle() {
    let mut drv = drv_115200();
    let dma_setup =
        UartDmaSetup { dma: DmaChRegs::new(), dma_int: 58, dma_ch: 4, dma_pl: 2 };
    let mut tx = drv.tx(dma_setup);

    // At reset the transmit buffer is empty and the transmission complete:
    // flush returns at once, registers no wait, and leaves the
    // transmission-complete interrupt off.
    let before = drv.uart.snapshot();
    assert!(before.sr.txe && before.sr.tc);
    let out = tx.flush(&mut drv.uart);
    assert!(out.is_complete());
    assert!(tx.session_state() == TxSessionState::Idle);
    let after = drv.uart.snapshot();
    assert!(!after.cr1.tcie);
    assert!(after.cr1 == before.cr1);
    assert!(after.sr == before.sr);
}

#[test]
fn flush_waits_for_busy_line() {
    let mut drv = drv_115200();
    let dma_setup =
        UartDmaSetup { dma: DmaChRegs::new(), dma_int: 58, dma_ch: 4, dma_pl: 2 };
    let mut tx = drv.tx(dma_setup);

    // A byte is still on its way out: flush must register a wait and enable
    // the transmission-complete interrupt for its duration.
    drv.uart.hw_tx_busy();
    let out = tx.flush(&mut drv.uart);
    assert!(!out.is_complete());
    assert!(tx.session_state() == TxSessionState::Flushing);
    assert!(drv.uart.snapshot().cr1.tcie);

    assert!(!tx.flush_poll(&mut drv.uart).is_complete());

    // The shifter drains; the next poll completes and disables the
    // interrupt again.
    drv.uart.hw_raise(UartSr { txe: true, tc: true, ..UartSr::clear() });
    assert!(tx.flush_poll(&mut drv.uart).is_complete());
    assert!(tx.session_state() == TxSessionState::Idle);
    assert!(!drv.uart.snapshot().cr1.tcie);
}

#[test]
fn tx_lease_is_exclusive() {
    let mut drv = drv_115200();
    let first = UartTxDrv::acquire(&mut drv.uart);
    assert!(first.is_some());
    assert!(drv.uart.snapshot().cr1.te);

    // Acquiring while the lease is held is refused and changes nothing.
    let second = UartTxDrv::acquire(&mut drv.uart);
    assert!(second.is_none());
    assert!(drv.uart.snapshot().cr1.te);

    // Releasing waits for an idle line (both flags hold at reset) and
    // disables the transmitter; after that the lease is free again.
    first.unwrap().release(&mut drv.uart);
    assert!(!drv.uart.snapshot().cr1.te);
    assert!(UartTxDrv::acquire(&mut drv.uart).is_some());
}

#[test]
fn rx_transfer_mirrors_tx() {
    let mut drv = drv_115200();
    let dma_setup =
        UartDmaSetup { dma: DmaChRegs::new(), dma_int: 59, dma_ch: 4, dma_pl: 1 };
    let mut rx = drv.rx(dma_setup);
    let lease = UartRxDrv::acquire(&mut drv.uart).expect("receiver is free");
    assert!(UartRxDrv::acquire(&mut drv.uart).is_none());

    let desc = TransferDescriptor { addr: 0x2000_0200, len: 32, dir: DmaDir::PeriphToMem };
    rx.start(&mut drv.uart, &lease, desc);
    let regs = drv.uart.snapshot();
    assert!(regs.dmar, "receive DMA request must be enabled");
    let ch = rx.dma().regs();
    assert!(ch.en);
    assert!(ch.dir == DmaDir::PeriphToMem);
    assert_eq!(ch.ndt, 32);

    assert!(!rx.poll().is_complete());
    rx.dma_mut().hw_complete();
    assert!(rx.poll().is_complete());

    lease.release(&mut drv.uart);
    assert!(!drv.uart.snapshot().cr1.re);
}

#[test]
fn dma_request_lines_toggle() {
    let mut drv = drv_115200();
    // A request line may only be enabled right after a fresh status read.
    drv.uart.read_sr();
    drv.uart.enable_dma_tx_request();
    assert!(drv.uart.snapshot().dmat);
    drv.uart.disable_dma_tx_request();
    assert!(!drv.uart.snapshot().dmat);

    drv.uart.read_sr();
    drv.uart.enable_dma_rx_request();
    assert!(drv.uart.snapshot().dmar);
    drv.uart.disable_dma_rx_request();
    assert!(!drv.uart.snapshot().dmar);
}

#[test]
fn unexpected_receive_raises_fault() {
    let mut drv = drv_115200();
    // A byte nobody consumes asserts the data-ready flag; the error poll
    // reports it. A second byte on top of it is an overrun.
    drv.uart.hw_receive(0x55);
    assert!(drv.poll_err() == Some(UartFault::RxNotEmpty));
    drv.uart.hw_receive(0x56);
    let regs = drv.uart.snapshot();
    assert!(regs.sr.ore);
    assert_eq!(regs.dr, 0x55, "an overrun keeps the first unread byte");

    // Reading the data register after a status read clears the condition.
    drv.uart.read_sr();
    let byte = drv.uart.read_dr();
    assert_eq!(byte, 0x55);
    assert!(drv.poll_err().is_none());
}

#[test]
fn uart_fault_classification_per_flag() {
    let cases: [(UartSr, UartFault); 5] = [
        (UartSr { rxne: true, ..UartSr::clear() }, UartFault::RxNotEmpty),
        (UartSr { ore: true, ..UartSr::clear() }, UartFault::Overrun),
        (UartSr { nf: true, ..UartSr::clear() }, UartFault::Noise),
        (UartSr { fe: true, ..UartSr::clear() }, UartFault::Framing),
        (UartSr { pe: true, ..UartSr::clear() }, UartFault::Parity),
    ];
    for (sr, expected) in cases {
        let got = classify_uart_fault(sr).expect("one flag raised, one fault reported");
        assert!(got == expected);
    }
    assert!(classify_uart_fault(UartSr::clear()).is_none());
}

#[test]
fn uart_fault_poll_on_error_interrupt() {
    let mut drv = drv_115200();
    assert!(drv.poll_err().is_none());
    drv.uart.hw_raise(UartSr { fe: true, ..UartSr::clear() });
    assert!(drv.poll_err() == Some(UartFault::Framing));
}

#[test]
fn dma_fault_classification_per_flag() {
    let cases: [(DmaIsr, DmaFault); 3] = [
        (DmaIsr { teif: true, ..DmaIsr::clear() }, DmaFault::Transfer),
        (DmaIsr { dmeif: true, ..DmaIsr::clear() }, DmaFault::DirectMode),
        (DmaIsr { feif: true, ..DmaIsr::clear() }, DmaFault::Fifo),
    ];
    for (isr, expected) in cases {
        let got = classify_dma_fault(isr).expect("one flag raised, one fault reported");
        assert!(got == expected);
    }
    assert!(classify_dma_fault(DmaIsr::clear()).is_none());
}

#[test]
fn dma_fault_poll_after_hardware_error() {
    let mut drv = drv_115200();
    let dma_setup =
        UartDmaSetup { dma: DmaChRegs::new(), dma_int: 58, dma_ch: 4, dma_pl: 2 };
    let mut tx = drv.tx(dma_setup);
    let lease = UartTxDrv::acquire(&mut drv.uart).unwrap();
    let desc = TransferDescriptor { addr: 0x2000_0100, len: 8, dir: DmaDir::MemToPeriph };
    tx.start(&mut drv.uart, &lease, desc);
    assert!(tx.poll_err().is_none());
    tx.dma_mut().hw_error(true, false, false);
    assert!(tx.poll_err() == Some(DmaFault::Transfer));
    assert!(!tx.dma().regs().en, "the hardware disables a faulted channel");
}
