use embassy_ti_cc2650::chip::UART0;
use embassy_ti_cc2650::hw::{modified, Call, Op, Task};
use embassy_ti_cc2650::uart::{
    Config, FIFOFillLevel, InterruptHandler, RxError, RxStep, TxError, UartFull,
    UartFullRxReceiver, UartFullRxReceiverImpl, UartFullRxRunner, UartFullTx, UartPinConfig,
};
use embassy_ti_cc2650::PinConfig;
use std::marker::PhantomData;

const BASE: u32 = 0x4000_1000;
const UDMA: u32 = 0x4002_0000;
const RX_IRQS: u32 = 0x50;

fn uart() -> UartFull<UART0> {
    UartFull::<UART0>::new(Config::default(), 48_000_000, 0x2000_0400).0
}

fn tx() -> UartFullTx<UART0> {
    UartFullTx { _p: PhantomData }
}

/// What a register that keeps what is stored in it holds after the operations.
fn store(ops: &[Op], register: u32, value: u32) -> u32 {
    let mut held = value;
    for op in ops {
        match op {
            Op::Write { addr, value } if *addr == register => held = *value,
            Op::Modify { addr, clear, set } if *addr == register => {
                held = modified(held, *clear, *set)
            }
            _ => (),
        }
    }
    held
}

/// Reads a line from the slots; gives the result and how many slots were taken.
fn read(slots: &[u16], buf: &mut [u8]) -> (Option<Result<usize, RxError>>, usize) {
    let mut receiver = UartFullRxReceiverImpl::new();
    let mut result = receiver.read(buf.len());
    let mut taken = 0;
    while result.is_none() && taken < slots.len() {
        result = receiver.receive(buf, slots[taken]);
        taken += 1;
    }
    (result, taken)
}

fn slots(text: &str) -> Vec<u16> {
    text.bytes().map(|b| b as u16).collect()
}

#[test]
fn default_config() {
    let config = Config::default();
    assert!(config.hw_flow_control);
    assert_eq!(config.baudrate, 115_200);
    assert_eq!(config.fifo_fill_level, FIFOFillLevel::Level48);
    assert_eq!(config.tx_pin, 3);
    assert_eq!(config.rx_pin, 2);
    assert_eq!(config.rts_pin, 8);
    assert_eq!(config.cts_pin, 4);
    assert_eq!(config.rts(), 8);
    assert_eq!(config.cts(), 4);
}

#[test]
fn without_flow_control_its_pins_are_unused() {
    let mut config = Config::default();
    config.hw_flow_control = false;
    assert_eq!(config.rts(), 0xFFFF_FFFF);
    assert_eq!(config.cts(), 0xFFFF_FFFF);
}

#[test]
fn set_up_with_flow_control() {
    let mut config = Config::default();
    config.baudrate = 9600;
    let (uart, ops) = UartFull::<UART0>::new(config, 48_000_000, 0x2000_0400);
    assert!(!uart.rx_runner.draining);
    assert_eq!(
        ops,
        vec![
            Op::Write { addr: 0x4002_0008, value: 0x2000_0400 },
            Op::Write { addr: 0x4002_0004, value: 1 },
            Op::Call(Call::IocPinTypeUart { base: BASE, rx: 2, tx: 3, cts: 4, rts: 8 }),
            Op::Call(Call::UartConfigSetExpClk {
                base: BASE,
                clock: 48_000_000,
                baudrate: 9600,
                config: 0x60,
            }),
            Op::Call(Call::UartFifoEnable { base: BASE }),
            Op::Call(Call::UartIntDisable { base: BASE, flags: 0x20 }),
            Op::Modify { addr: 0x4000_1034, clear: 0x38, set: 0x10 },
            Op::Call(Call::UartIntEnable { base: BASE, flags: RX_IRQS }),
            Op::Call(Call::UartIntDisable { base: BASE, flags: 0x02 }),
            Op::Call(Call::UartIntDisable { base: BASE, flags: 0x780 }),
            Op::Call(Call::UartHwFlowControlEnable { base: BASE }),
            Op::Call(Call::UdmaChannelControlSet { base: UDMA, index: 1, control: 0x0C01_4000 }),
            Op::Call(Call::UdmaChannelControlSet { base: UDMA, index: 2, control: 0xC001_4000 }),
            Op::Call(Call::UdmaChannelDisable { base: UDMA, channel: 2 }),
            Op::Call(Call::UartEnable { base: BASE }),
            Op::Unpend(embassy_ti_cc2650::chip::Interrupt::UART0),
            Op::Enable(embassy_ti_cc2650::chip::Interrupt::UART0),
        ]
    );
}

#[test]
fn set_up_without_flow_control_and_receive_interrupts() {
    let mut config = Config::default();
    config.hw_flow_control = false;
    config.fifo_fill_level = FIFOFillLevel::Disabled;
    let (_, ops) = UartFull::<UART0>::new(config, 1, 0);
    assert_eq!(ops.len(), 15);
    assert_eq!(
        ops[2],
        Op::Call(Call::IocPinTypeUart {
            base: BASE,
            rx: 2,
            tx: 3,
            cts: 0xFFFF_FFFF,
            rts: 0xFFFF_FFFF,
        })
    );
    assert!(ops.contains(&Op::Call(Call::UartHwFlowControlDisable { base: BASE })));
    assert!(!ops.contains(&Op::Call(Call::UartIntEnable { base: BASE, flags: RX_IRQS })));
}

#[test]
fn receive_levels_are_selected() {
    let levels = [
        (FIFOFillLevel::Level18, 0x00),
        (FIFOFillLevel::Level28, 0x08),
        (FIFOFillLevel::Level48, 0x10),
        (FIFOFillLevel::Level68, 0x18),
        (FIFOFillLevel::Level78, 0x20),
    ];
    for (level, set) in levels {
        let ops = uart().configure_rx_interrupts(level);
        assert_eq!(
            ops,
            vec![
                Op::Call(Call::UartDisable { base: BASE }),
                Op::Modify { addr: 0x4000_1034, clear: 0x38, set },
                Op::Call(Call::UartIntEnable { base: BASE, flags: RX_IRQS }),
                Op::Call(Call::UartEnable { base: BASE }),
            ]
        );
        assert_eq!(store(&ops, 0x4000_1034, 0x3A), 0x02 | set);
    }
}

#[test]
fn receive_interrupts_are_disabled() {
    let ops = uart().configure_rx_interrupts(FIFOFillLevel::Disabled);
    assert_eq!(
        ops,
        vec![
            Op::Call(Call::UartDisable { base: BASE }),
            Op::Call(Call::UartIntDisable { base: BASE, flags: RX_IRQS }),
            Op::Modify { addr: 0x4000_1030, clear: 1, set: 1 },
        ]
    );
    assert_eq!(store(&ops, 0x4000_1034, 0x12), 0x12);
}

#[test]
fn interrupt_is_acknowledged() {
    assert_eq!(
        InterruptHandler::<UART0>::acknowledge(),
        Op::Write { addr: 0x4000_1044, value: 0x50 }
    );
}

#[test]
fn interrupt_of_a_finished_write() {
    assert_eq!(
        InterruptHandler::<UART0>::on_interrupt(0, 0b100),
        vec![
            Op::Call(Call::UdmaChannelDisable { base: UDMA, channel: 2 }),
            Op::Modify { addr: 0x4002_0520, clear: 0, set: 4 },
            Op::Modify { addr: 0x4000_1048, clear: 2, set: 0 },
            Op::Wake(Task::UartTx),
        ]
    );
}

#[test]
fn interrupt_of_received_characters() {
    let expected = vec![
        Op::Call(Call::UartIntDisable { base: BASE, flags: RX_IRQS }),
        Op::Wake(Task::UartRx),
    ];
    assert_eq!(InterruptHandler::<UART0>::on_interrupt(0x10, 0b011), expected);
    assert_eq!(InterruptHandler::<UART0>::on_interrupt(0x40, 0), expected);
    assert_eq!(InterruptHandler::<UART0>::on_interrupt(0x50, 0), expected);
}

#[test]
fn interrupt_of_both_and_of_neither() {
    assert_eq!(InterruptHandler::<UART0>::on_interrupt(0x10, 0b100).len(), 6);
    assert_eq!(InterruptHandler::<UART0>::on_interrupt(!0x50, !0b100), vec![]);
}

#[test]
fn errors_are_reported_in_order() {
    let check = UartFullRxReceiverImpl::check_errors;
    assert_eq!(check(0b0000, 5), Ok(5));
    assert_eq!(check(0b0001, 5), Err(RxError::Framing(5)));
    assert_eq!(check(0b0010, 5), Err(RxError::Parity(5)));
    assert_eq!(check(0b0100, 5), Err(RxError::Break(5)));
    assert_eq!(check(0b1000, 5), Err(RxError::Overrun(5)));
    assert_eq!(check(0b1111, 5), Err(RxError::Framing(5)));
    assert_eq!(check(0b1110, 5), Err(RxError::Parity(5)));
    assert_eq!(check(0b1100, 5), Err(RxError::Break(5)));
    assert_eq!(check(0b1111_0000, 5), Ok(5));
}

#[test]
fn a_line_is_read() {
    let mut buf = [0xAA; 8];
    assert_eq!(read(&slots("hello\nworld"), &mut buf), (Some(Ok(5)), 6));
    assert_eq!(&buf[..5], b"hello");
    assert_eq!(buf[5..], [b'\n', 0xAA, 0xAA]);
    assert_eq!(read(&slots("ab\r\n"), &mut buf), (Some(Ok(2)), 3));
}

#[test]
fn an_empty_line_is_read() {
    let mut buf = [0; 4];
    assert_eq!(read(&slots("\nab"), &mut buf), (Some(Ok(0)), 1));
}

#[test]
fn a_full_buffer_ends_a_read() {
    let mut buf = [0; 4];
    assert_eq!(read(&slots("hello\n"), &mut buf), (Some(Ok(4)), 4));
    assert_eq!(&buf, b"hell");
}

#[test]
fn an_empty_buffer_is_full_at_once() {
    assert_eq!(read(&slots("hello\n"), &mut []), (Some(Ok(0)), 0));
}

#[test]
fn a_read_waits_for_the_rest_of_the_line() {
    let mut buf = [0; 8];
    assert_eq!(read(&slots("hel"), &mut buf), (None, 3));
    assert_eq!(&buf[..3], b"hel");
}

#[test]
fn a_bad_character_ends_a_read() {
    let mut buf = [0; 8];
    let mut line = slots("hello\n");
    line[2] |= 0x0800;
    assert_eq!(read(&line, &mut buf), (Some(Err(RxError::Overrun(3))), 3));
    assert_eq!(&buf[..3], b"hel");
}

#[test]
fn a_bad_character_in_the_last_place_is_an_error() {
    let mut buf = [0; 2];
    let line = [b'a' as u16, b'b' as u16 | 0x0200];
    assert_eq!(read(&line, &mut buf), (Some(Err(RxError::Parity(2))), 2));
}

#[test]
fn errors_of_a_line_end_are_dropped() {
    let mut buf = [0; 8];
    assert_eq!(read(&[b'a' as u16, 0x0F0A], &mut buf), (Some(Ok(1)), 2));
}

#[test]
fn reads_start_over() {
    let mut buf = [0; 4];
    let mut receiver = UartFullRxReceiverImpl::new();
    assert_eq!(receiver.read(4), None);
    assert_eq!(receiver.receive(&mut buf, b'x' as u16), None);
    assert_eq!(receiver.read(4), None);
    assert_eq!(receiver.receive(&mut buf, b'y' as u16), None);
    assert_eq!(receiver.receive(&mut buf, b'\n' as u16), Some(Ok(1)));
    assert_eq!(buf[0], b'y');
}

#[test]
fn runner_drains_the_fifo_and_lets_interrupts_come_again() {
    let mut runner = UartFullRxRunner { draining: false };
    let resume = Op::Call(Call::UartIntEnable { base: BASE, flags: RX_IRQS });
    assert_eq!(runner.run(false), RxStep::Suspend);
    assert_eq!(runner.run(false), RxStep::Suspend);
    assert_eq!(runner.run(true), RxStep::Transfer);
    assert_eq!(runner.run(true), RxStep::Transfer);
    assert_eq!(runner.run(false), RxStep::Resume(resume));
    assert_eq!(runner.run(true), RxStep::Transfer);
    assert_eq!(runner.run(false), RxStep::Resume(resume));
    assert_eq!(runner.run(false), RxStep::Suspend);
}

#[test]
fn characters_are_transferred_with_their_errors() {
    let runner = UartFullRxRunner { draining: true };
    let clear = Op::Call(Call::UartRxErrorClear { base: BASE });
    assert_eq!(runner.transfer(0x0000_0A41), (0x0A41, clear));
    assert_eq!(runner.transfer(0xFFFF_0141), (0x0141, clear));
}

#[test]
fn fifo_flags() {
    let uart = uart();
    assert!(uart.tx_fifo_empty(0x80) && !uart.tx_fifo_empty(!0x80));
    assert!(uart.tx_fifo_full(0x20) && !uart.tx_fifo_full(!0x20));
    assert!(uart.rx_fifo_empty(0x10) && !uart.rx_fifo_empty(!0x10));
    assert!(uart.rx_fifo_full(0x40) && !uart.rx_fifo_full(!0x40));
    let (tx, _) = uart.split();
    assert!(tx.tx_fifo_empty(0x80));
    assert!(tx.tx_fifo_full(0x20));
}

#[test]
fn buffers_that_cannot_be_sent() {
    let mut tx = tx();
    assert_eq!(tx.sanitize_tx_input_buffer(0x2000_0000, 1), Ok(()));
    assert_eq!(tx.sanitize_tx_input_buffer(0x2000_0000, 1024), Ok(()));
    assert_eq!(tx.write(0x2000_0000, 1025), Err(TxError::BufferTooLong));
    assert_eq!(tx.write(0x2000_0000, 0), Err(TxError::BufferEmpty));
    assert_eq!(tx.write(0x1FFF_FFFF, 1), Err(TxError::SramMemory));
    assert_eq!(tx.write_blocking(0, 1025), Err(TxError::BufferTooLong));
    assert_eq!(tx.write_blocking(0, 0), Err(TxError::BufferEmpty));
    assert_eq!(tx.write_blocking(0, 12), Err(TxError::SramMemory));
    let mut uart = uart();
    assert_eq!(uart.write(0x2000_0000, 0), Err(TxError::BufferEmpty));
    assert_eq!(uart.write_blocking(0, 5), Err(TxError::SramMemory));
}

#[test]
fn a_write_is_started_and_ended() {
    let mut tx = tx();
    let start = tx.write(0x2000_0100, 12).unwrap();
    assert_eq!(
        start,
        vec![
            Op::Call(Call::UdmaChannelTransferSet {
                base: UDMA,
                index: 2,
                mode: 1,
                src: 0x2000_0100,
                dest: 0x4000_1000,
                len: 12,
            }),
            Op::Call(Call::UdmaChannelEnable { base: UDMA, channel: 2 }),
            Op::Fence,
            Op::Modify { addr: 0x4000_1048, clear: 2, set: 2 },
        ]
    );
    assert_eq!(uart().write(0x2000_0100, 12), Ok(start));
    assert!(tx.write_is_done(0b100));
    assert!(!tx.write_is_done(0b011));
    assert_eq!(
        tx.write_end(),
        vec![
            Op::Fence,
            Op::Write { addr: 0x4002_0504, value: 4 },
            Op::Modify { addr: 0x4002_0520, clear: 4, set: 0 },
        ]
    );
    assert_eq!(
        tx.write_abort(),
        vec![
            Op::Call(Call::UdmaChannelDisable { base: UDMA, channel: 2 }),
            Op::Modify { addr: 0x4000_1048, clear: 2, set: 0 },
            Op::Write { addr: 0x4002_0504, value: 4 },
            Op::Modify { addr: 0x4002_0520, clear: 4, set: 0 },
        ]
    );
}

#[test]
fn a_write_leaves_the_channel_idle() {
    let mut tx = tx();
    let mut sent = tx.write(0x2000_0100, 12).unwrap();
    let mut dropped = sent.clone();
    sent.extend(InterruptHandler::<UART0>::on_interrupt(0, 0b100));
    assert_eq!(store(&sent, 0x4002_0520, 0), 4);
    sent.extend(tx.write_end());
    dropped.extend(tx.write_abort());
    for ops in [sent, dropped] {
        assert_eq!(store(&ops, 0x4000_1048, 0x7), 0x5);
        assert_eq!(store(&ops, 0x4002_0520, 0xFF), 0xFB);
    }
}

#[test]
fn a_blocking_write_waits_for_the_end() {
    let mut tx = tx();
    let ops = tx.write_blocking(0x2000_0100, 12).unwrap();
    assert_eq!(ops.len(), 8);
    assert_eq!(ops[..4], tx.write(0x2000_0100, 12).unwrap()[..]);
    assert_eq!(ops[4], Op::WaitSet { addr: 0x4002_0504, mask: 4 });
    assert_eq!(ops[5..], tx.write_end()[..]);
    assert_eq!(uart().write_blocking(0x2000_0100, 12), Ok(ops));
}

#[derive(Clone, Copy)]
struct Board;

impl UartPinConfig for Board {
    fn tx() -> u32 {
        3
    }

    fn rx() -> u32 {
        2
    }

    fn rts(hw: bool) -> u32 {
        if hw {
            8
        } else {
            0xFFFF_FFFF
        }
    }

    fn cts(hw: bool) -> u32 {
        if hw {
            4
        } else {
            0xFFFF_FFFF
        }
    }
}

fn pins<P: PinConfig>(_: P, hw: bool) -> [u32; 4] {
    [P::tx(), P::rx(), P::rts(hw), P::cts(hw)]
}

#[test]
fn a_copyable_uart_pin_config_is_a_pin_config() {
    assert_eq!(pins(Board, true), [3, 2, 8, 4]);
    assert_eq!(pins(Board, false), [3, 2, 0xFFFF_FFFF, 0xFFFF_FFFF]);
}
