//! Laws of the UART.
use crate::hw::{bit, Call, Op, Task};
use crate::laws::bits::{flags_are_joined, low_bits_of_a_byte, powers_of_two};
use crate::regs::{
    UART0_CTL, UART0_DMACTL, UART0_ICR, UART0_IFLS, UDMA_CFG, UDMA_CTRL, UDMA_DONEMASK,
    UDMA_REQDONE,
};
use crate::uart::{
    bad_character_ends_the_read, data_of, errors_of, full_buffer_is_read, is_plain, line_is_read,
    read_run, read_step, rx_error, unfinished_line_waits, Config, FIFOFillLevel, Instance,
    InterruptHandler, RxError, RxStep, TxError, UartFull, UartFullRxReceiver,
    UartFullRxReceiverImpl, UartFullRxRunner, UartFullTx,
};
use vstd::prelude::*;

verus! {

/// Without flow control its pins are not in use.
pub proof fn flow_control_pins_are_in_use_with_it(config: Config, rts: u32, cts: u32)
    requires
        call_ensures(Config::rts, (&config,), rts),
        call_ensures(Config::cts, (&config,), cts),
    ensures
        rts == if config.hw_flow_control {
            config.rts_pin
        } else {
            0xFFFF_FFFF
        },
        cts == if config.hw_flow_control {
            config.cts_pin
        } else {
            0xFFFF_FFFF
        },
{
}

/// How many eighths of the FIFO a level stands for.
pub open spec fn eighths(level: FIFOFillLevel) -> int {
    match level {
        FIFOFillLevel::Disabled => 0,
        FIFOFillLevel::Level18 => 1,
        FIFOFillLevel::Level28 => 2,
        FIFOFillLevel::Level48 => 4,
        FIFOFillLevel::Level68 => 6,
        FIFOFillLevel::Level78 => 7,
    }
}

/// Whether an operation sets the receive level, bits 3 to 5 of the level register, and leaves
/// the other bits alone. The levels are numbered by size.
pub open spec fn sets_level(op: Op, level: FIFOFillLevel) -> bool {
    op matches Op::Modify { addr, clear, set } && addr == UART0_IFLS && clear == 0x38 && set % 8
        == 0 && set / 8 == if eighths(level) <= 2 {
        eighths(level) - 1
    } else if eighths(level) <= 6 {
        eighths(level) / 2
    } else {
        4
    }
}

/// Whether the operations set up the UART. The DMA controller gets the map that was given, the
/// pins and the baud rate are those of the configuration, the clock is the one that was given,
/// and there are eight data bits, one stop bit and no parity. Just the receive interrupts are
/// on, at the configured level, unless there are to be none.
pub open spec fn is_set_up(ops: Seq<Op>, config: Config, clock: u32, map: u32) -> bool {
    let interrupts = eighths(config.fifo_fill_level) > 0;
    let n = if interrupts {
        8int
    } else {
        6
    };
    &&& ops.len() >= n + 7
    &&& ops[0] == (Op::Write { addr: UDMA_CTRL, value: map })
    &&& ops[1] == (Op::Write { addr: UDMA_CFG, value: 1 })
    &&& ops[2] matches Op::Call(Call::IocPinTypeUart { base, rx, tx, cts, rts }) && base
        == 0x4000_1000 && rx == config.rx_pin && tx == config.tx_pin && (if config.hw_flow_control {
        cts == config.cts_pin && rts == config.rts_pin
    } else {
        cts == 0xFFFF_FFFF && rts == 0xFFFF_FFFF
    })
    &&& ops[3] == Op::Call(
        Call::UartConfigSetExpClk {
            base: 0x4000_1000,
            clock,
            baudrate: config.baudrate,
            config: 0x60,
        },
    )
    &&& forall|i: int|
        0 <= i < ops.len() && i != 3 ==> !((#[trigger] ops[i]) matches Op::Call(
            Call::UartConfigSetExpClk { base, clock: c, baudrate, config: g },
        ))
    &&& ops[4] == Op::Call(Call::UartFifoEnable { base: 0x4000_1000 })
    &&& ops[5] == Op::Call(Call::UartIntDisable { base: 0x4000_1000, flags: 0x20 })
    &&& interrupts ==> sets_level(ops[6], config.fifo_fill_level) && ops[7] == Op::Call(
        Call::UartIntEnable { base: 0x4000_1000, flags: 0x50 },
    )
    &&& ops[n] == Op::Call(Call::UartIntDisable { base: 0x4000_1000, flags: 0x02 })
    &&& ops[n + 1] == Op::Call(Call::UartIntDisable { base: 0x4000_1000, flags: 0x780 })
    &&& ops[n + 2] == if config.hw_flow_control {
        Op::Call(Call::UartHwFlowControlEnable { base: 0x4000_1000 })
    } else {
        Op::Call(Call::UartHwFlowControlDisable { base: 0x4000_1000 })
    }
    &&& ops[n + 3] == Op::Call(
        Call::UdmaChannelControlSet { base: 0x4002_0000, index: 1, control: 0x0C01_4000 },
    )
    &&& ops[n + 4] == Op::Call(
        Call::UdmaChannelControlSet { base: 0x4002_0000, index: 2, control: 0xC001_4000 },
    )
    &&& ops[n + 5] == Op::Call(Call::UdmaChannelDisable { base: 0x4002_0000, channel: 2 })
    &&& ops[n + 6] == Op::Call(Call::UartEnable { base: 0x4000_1000 })
}

/// The UART is set up as it was configured, and its interrupt is let through last.
pub proof fn uart_is_set_up_as_configured<T: Instance>(
    config: Config,
    clock: u32,
    map: u32,
    r: (UartFull<T>, Vec<Op>),
)
    requires
        call_ensures(UartFull::<T>::new, (config, clock, map), r),
    ensures
        !r.0.rx_runner.draining,
        is_set_up(r.1@, config, clock, map),
        r.1@.len() == if eighths(config.fifo_fill_level) > 0 {
            17int
        } else {
            15
        },
        r.1@[r.1@.len() - 2] == Op::Unpend(T::irq()),
        r.1@.last() == Op::Enable(T::irq()),
{
    flags_are_joined();
}

/// Changing the receive level stops the UART, sets the level, and starts it again; without a
/// level the receive interrupts are off.
pub proof fn receive_level_is_changed<T: Instance>(
    uart: UartFull<T>,
    level: FIFOFillLevel,
    ops: Vec<Op>,
)
    requires
        call_ensures(UartFull::<T>::configure_rx_interrupts, (&uart, level), ops),
    ensures
        ops@[0] == Op::Call(Call::UartDisable { base: 0x4000_1000 }),
        eighths(level) > 0 ==> {
            &&& ops@.len() == 4
            &&& sets_level(ops@[1], level)
            &&& ops@[2] == Op::Call(Call::UartIntEnable { base: 0x4000_1000, flags: 0x50 })
            &&& ops@[3] == Op::Call(Call::UartEnable { base: 0x4000_1000 })
        },
        eighths(level) == 0 ==> {
            &&& ops@.len() == 3
            &&& ops@[1] == Op::Call(Call::UartIntDisable { base: 0x4000_1000, flags: 0x50 })
            &&& ops@[2] == (Op::Modify { addr: UART0_CTL, clear: 1, set: 1 })
        },
{
    flags_are_joined();
}

/// The halves of the UART are the ones that it was made of.
pub proof fn halves_are_those_of_the_uart<T: Instance>(
    uart: UartFull<T>,
    r: (UartFullTx<T>, UartFullRxRunner),
)
    requires
        call_ensures(UartFull::<T>::split, (uart,), r),
    ensures
        r.0 == uart.tx,
        r.1 == uart.rx_runner,
{
}

/// The interrupt handler acts on the end of a transmission just when the transmit channel is
/// done: it stops the channel, keeps it from interrupting again, and wakes the transmit task.
/// It acts on reception just when there are characters or no more come: it turns the receive
/// interrupts off and wakes the receive task.
pub proof fn interrupt_acts_on_its_causes<T: Instance>(mis: u32, reqdone: u32, ops: Vec<Op>)
    requires
        call_ensures(InterruptHandler::<T>::on_interrupt, (mis, reqdone), ops),
    ensures
        ({
            let sent = bit(reqdone, 2);
            let received = bit(mis, 4) || bit(mis, 6);
            let n = if sent {
                4int
            } else {
                0
            };
            &&& ops@.len() == n + if received {
                2int
            } else {
                0
            }
            &&& sent ==> {
                &&& ops@[0] == Op::Call(
                    Call::UdmaChannelDisable { base: 0x4002_0000, channel: 2 },
                )
                &&& ops@[1] == (Op::Modify { addr: UDMA_DONEMASK, clear: 0, set: 4 })
                &&& ops@[2] == (Op::Modify { addr: UART0_DMACTL, clear: 2, set: 0 })
                &&& ops@[3] == Op::Wake(Task::UartTx)
            }
            &&& received ==> {
                &&& ops@[n] == Op::Call(
                    Call::UartIntDisable { base: 0x4000_1000, flags: 0x50 },
                )
                &&& ops@[n + 1] == Op::Wake(Task::UartRx)
            }
        }),
{
    powers_of_two();
    flags_are_joined();
}

/// The interrupt is acknowledged for both kinds of reception.
pub proof fn interrupt_is_acknowledged<T: Instance>(op: Op)
    requires
        call_ensures(InterruptHandler::<T>::acknowledge, (), op),
    ensures
        op == (Op::Write { addr: UART0_ICR, value: 0x50 }),
{
    flags_are_joined();
}

/// The error that is reported for the errors of a character: framing before parity before
/// break before overrun.
pub open spec fn reported(errors: int, ptr: usize) -> Option<RxError> {
    if errors % 2 == 1 {
        Some(RxError::Framing(ptr))
    } else if errors / 2 % 2 == 1 {
        Some(RxError::Parity(ptr))
    } else if errors / 4 % 2 == 1 {
        Some(RxError::Break(ptr))
    } else if errors / 8 % 2 == 1 {
        Some(RxError::Overrun(ptr))
    } else {
        None
    }
}

/// Errors are reported in order, with the number of bytes.
pub proof fn errors_are_reported_in_order(rsr: u8, ptr: usize, r: Result<usize, RxError>)
    requires
        call_ensures(UartFullRxReceiverImpl::check_errors, (rsr, ptr), r),
    ensures
        match reported(rsr as int, ptr) {
            Some(e) => r is Err && r->Err_0 == e,
            None => r is Ok && r->Ok_0 == ptr,
        },
{
    low_bits_of_a_byte(rsr);
}

proof fn slot_errors(slot: u16, ptr: usize)
    ensures
        rx_error(errors_of(slot), ptr) == reported(slot as int / 256, ptr),
        reported(slot as int / 256, ptr) is None <==> (slot as int / 256) % 16 == 0,
        data_of(slot) == slot % 256,
{
    low_bits_of_a_byte(errors_of(slot));
    let e = slot as int / 256;
    assert((e % 2 == 0 && e / 2 % 2 == 0 && e / 4 % 2 == 0 && e / 8 % 2 == 0) <==> e % 16 == 0);
}

/// A read into a buffer that is not full goes on just when the character has no errors and is
/// neither a line feed, 10, nor a carriage return, 13.
pub proof fn read_ends_at_line_ends_and_errors(slot: u16, ptr: nat, len: nat)
    requires
        ptr + 1 < len <= usize::MAX,
    ensures
        read_step(slot, ptr, len) is None <==> slot % 256 != 10 && slot % 256 != 13 && slot / 256
            % 16 == 0,
        slot % 256 == 10 || slot % 256 == 13 ==> read_step(slot, ptr, len) == Some(
            Ok::<usize, RxError>(ptr as usize),
        ),
{
    slot_errors(slot, (ptr + 1) as usize);
}

/// Each slot puts its character at the end of what was read. A line feed or carriage return
/// ends the read there and does not count; another character counts, and ends the read where
/// it has errors, or else where the buffer is full.
pub proof fn slot_is_received(
    receiver: &mut UartFullRxReceiverImpl,
    buf: &mut [u8],
    slot: u16,
    r: Option<Result<usize, RxError>>,
    i: int,
)
    requires
        call_ensures(
            <UartFullRxReceiverImpl as UartFullRxReceiver>::receive,
            (receiver, buf, slot),
            r,
        ),
        old(receiver).ptr < old(buf)@.len() <= usize::MAX,
        0 <= i < old(buf)@.len(),
    ensures
        final(buf)@.len() == old(buf)@.len(),
        final(buf)@[i] == if i == old(receiver).ptr {
            (slot % 256) as u8
        } else {
            old(buf)@[i]
        },
        ({
            let ptr = old(receiver).ptr;
            let next = (ptr + 1) as usize;
            if slot % 256 == 10 || slot % 256 == 13 {
                &&& r == Some(Ok::<usize, RxError>(ptr))
                &&& final(receiver).ptr == ptr
            } else {
                &&& final(receiver).ptr == ptr + 1
                &&& match reported(slot as int / 256, next) {
                    Some(e) => r == Some(Err::<usize, RxError>(e)),
                    None => if next == old(buf)@.len() {
                        r == Some(Ok::<usize, RxError>(next))
                    } else {
                        r is None
                    },
                }
            }
        }),
{
    slot_errors(slot, (old(receiver).ptr + 1) as usize);
}

/// A new receiver has read nothing.
pub proof fn new_receiver_has_read_nothing(receiver: UartFullRxReceiverImpl)
    requires
        call_ensures(<UartFullRxReceiverImpl as UartFullRxReceiver>::new, (), receiver),
    ensures
        receiver.ptr == 0,
{
}

/// A read begins at the front of the buffer, and ends at once just when the buffer is empty.
pub proof fn read_begins_at_the_front(
    receiver: &mut UartFullRxReceiverImpl,
    len: usize,
    r: Option<Result<usize, RxError>>,
)
    requires
        call_ensures(<UartFullRxReceiverImpl as UartFullRxReceiver>::read, (receiver, len), r),
    ensures
        final(receiver).ptr == 0,
        len > 0 <==> r is None,
        len == 0 ==> r == Some(Ok::<usize, RxError>(0)),
{
}

/// A line arrives: where only the last of the slots is a line feed or carriage return and
/// there were no errors before it, the read ends with that slot, its result is the number of
/// the others, and their characters are at the front of the buffer.
pub proof fn line_arrives(slots: Seq<u16>, buf: Seq<u8>)
    requires
        0 < slots.len() <= buf.len() <= usize::MAX,
        forall|i: int|
            0 <= i < slots.len() - 1 ==> (#[trigger] slots[i]) % 256 != 10 && slots[i] % 256 != 13
                && slots[i] / 256 % 16 == 0,
        slots.last() % 256 == 10 || slots.last() % 256 == 13,
    ensures
        read_run(slots, buf, 0).0 == Some(Ok::<usize, RxError>((slots.len() - 1) as usize)),
        forall|i: int|
            0 <= i < slots.len() - 1 ==> #[trigger] read_run(slots, buf, 0).1[i] == slots[i] % 256,
        forall|i: int|
            slots.len() <= i < buf.len() ==> #[trigger] read_run(slots, buf, 0).1[i] == buf[i],
{
    let n = (slots.len() - 1) as nat;
    assert forall|i: int| 0 <= i < n implies is_plain(#[trigger] slots[i]) by {
        slot_errors(slots[i], 0);
    }
    slot_errors(slots[n as int], 0);
    line_is_read(slots, buf, n);
    assert forall|i: int| 0 <= i < n implies #[trigger] read_run(slots, buf, 0).1[i] == slots[i]
        % 256 by {
        slot_errors(slots[i], 0);
    }
}

/// Slots that hold neither errors nor a line end fill the buffer, and the read ends with the
/// one that fills it; before that it waits.
pub proof fn buffer_fills_up(slots: Seq<u16>, buf: Seq<u8>)
    requires
        0 < slots.len() <= buf.len() <= usize::MAX,
        forall|i: int|
            0 <= i < slots.len() ==> (#[trigger] slots[i]) % 256 != 10 && slots[i] % 256 != 13
                && slots[i] / 256 % 16 == 0,
    ensures
        slots.len() == buf.len() ==> read_run(slots, buf, 0).0 == Some(
            Ok::<usize, RxError>(buf.len() as usize),
        ),
        slots.len() == buf.len() ==> forall|i: int|
            0 <= i < slots.len() ==> #[trigger] read_run(slots, buf, 0).1[i] == slots[i] % 256,
        slots.len() < buf.len() ==> read_run(slots, buf, 0).0 is None,
{
    assert forall|i: int| 0 <= i < slots.len() implies is_plain(#[trigger] slots[i]) by {
        slot_errors(slots[i], 0);
    }
    if slots.len() == buf.len() {
        full_buffer_is_read(slots, buf);
        assert forall|i: int| 0 <= i < slots.len() implies #[trigger] read_run(slots, buf, 0).1[i]
            == slots[i] % 256 by {
            slot_errors(slots[i], 0);
        }
    } else {
        unfinished_line_waits(slots, buf);
    }
}

/// A character with errors ends the read with the error and the number of characters.
pub proof fn error_arrives(slots: Seq<u16>, buf: Seq<u8>)
    requires
        0 < slots.len() <= buf.len() <= usize::MAX,
        forall|i: int|
            0 <= i < slots.len() ==> (#[trigger] slots[i]) % 256 != 10 && slots[i] % 256 != 13,
        forall|i: int| 0 <= i < slots.len() - 1 ==> (#[trigger] slots[i]) / 256 % 16 == 0,
        slots.last() / 256 % 16 != 0,
    ensures
        read_run(slots, buf, 0).0 == Some(
            Err::<usize, RxError>(
                reported(slots.last() as int / 256, slots.len() as usize)->Some_0,
            ),
        ),
        reported(slots.last() as int / 256, slots.len() as usize) is Some,
        forall|i: int|
            0 <= i < slots.len() ==> #[trigger] read_run(slots, buf, 0).1[i] == slots[i] % 256,
{
    let n = (slots.len() - 1) as nat;
    assert forall|i: int| 0 <= i < n implies is_plain(#[trigger] slots[i]) by {
        slot_errors(slots[i], 0);
    }
    slot_errors(slots[n as int], 0);
    slot_errors(slots[n as int], slots.len() as usize);
    bad_character_ends_the_read(slots, buf, n);
    assert forall|i: int| 0 <= i < slots.len() implies #[trigger] read_run(slots, buf, 0).1[i]
        == slots[i] % 256 by {
        slot_errors(slots[i], 0);
    }
}

/// The runner takes a character whenever there is one. When it has taken some and there are
/// no more it turns the receive interrupts on, once, and otherwise it waits.
pub proof fn runner_takes_what_there_is(runner: &mut UartFullRxRunner, avail: bool, step: RxStep)
    requires
        call_ensures(UartFullRxRunner::run, (runner, avail), step),
    ensures
        avail ==> step == RxStep::Transfer && final(runner).draining,
        !avail ==> !final(runner).draining,
        !avail && old(runner).draining ==> step == RxStep::Resume(
            Op::Call(Call::UartIntEnable { base: 0x4000_1000, flags: 0x50 }),
        ),
        !avail && !old(runner).draining ==> step == RxStep::Suspend,
{
    flags_are_joined();
}

/// A slot holds the character and its errors, and the errors are cleared in the UART.
pub proof fn slot_holds_the_character(runner: UartFullRxRunner, character: u32, r: (u16, Op))
    requires
        call_ensures(UartFullRxRunner::transfer, (&runner, character), r),
    ensures
        r.0 % 256 == character % 256,
        r.0 / 256 == character / 256 % 256,
        r.1 == Op::Call(Call::UartRxErrorClear { base: 0x4000_1000 }),
{
    crate::uart::slot_keeps_the_character(character, r.0);
}

/// The flags of the FIFOs are bits 4 to 7 of the flag register.
pub proof fn flags_tell_of_the_fifos<T: Instance>(
    uart: UartFull<T>,
    fr: u32,
    rx_empty: bool,
    tx_full: bool,
    rx_full: bool,
    tx_empty: bool,
    half_full: bool,
    half_empty: bool,
)
    requires
        call_ensures(UartFull::<T>::rx_fifo_empty, (&uart, fr), rx_empty),
        call_ensures(UartFull::<T>::tx_fifo_full, (&uart, fr), tx_full),
        call_ensures(UartFull::<T>::rx_fifo_full, (&uart, fr), rx_full),
        call_ensures(UartFull::<T>::tx_fifo_empty, (&uart, fr), tx_empty),
        call_ensures(UartFullTx::<T>::tx_fifo_full, (&uart.tx, fr), half_full),
        call_ensures(UartFullTx::<T>::tx_fifo_empty, (&uart.tx, fr), half_empty),
    ensures
        rx_empty == bit(fr, 4),
        tx_full == bit(fr, 5),
        rx_full == bit(fr, 6),
        tx_empty == bit(fr, 7),
        half_full == tx_full,
        half_empty == tx_empty,
{
    powers_of_two();
}

/// Whether bytes can be sent: some, but no more than 1024, from outside of the flash memory.
pub open spec fn sendable(addr: u32, len: usize) -> bool {
    0 < len <= 1024 && addr >= 0x2000_0000
}

/// Why bytes cannot be sent. Their number is looked at first.
pub open spec fn refused(addr: u32, len: usize, e: TxError) -> bool {
    match e {
        TxError::BufferTooLong => len > 1024,
        TxError::BufferEmpty => len == 0,
        TxError::SramMemory => 0 < len <= 1024 && addr < 0x2000_0000,
    }
}

/// Whether the operations start to send bytes: they are to be moved to the data register, the
/// transmit channel is on, and then the UART asks for them.
pub open spec fn starts_to_send(ops: Seq<Op>, addr: u32, bytes: usize) -> bool {
    &&& ops[0] matches Op::Call(
        Call::UdmaChannelTransferSet { base, index, mode, src, dest, len },
    ) && base == 0x4002_0000 && index == 2 && mode == 1 && src == addr && dest == 0x4000_1000
        && len == bytes
    &&& ops[1] == Op::Call(Call::UdmaChannelEnable { base: 0x4002_0000, channel: 2 })
    &&& ops[2] == Op::Fence
    &&& ops[3] == (Op::Modify { addr: UART0_DMACTL, clear: 2, set: 2 })
}

/// Whether the operations end the sending: the channel is not done any more, and lets the next
/// end be told.
pub open spec fn ends_sending(ops: Seq<Op>) -> bool {
    &&& ops[0] == Op::Fence
    &&& ops[1] == (Op::Write { addr: UDMA_REQDONE, value: 4 })
    &&& ops[2] == (Op::Modify { addr: UDMA_DONEMASK, clear: 4, set: 0 })
}

/// Bytes that can be sent are sent, all of them; others are refused with the reason.
pub proof fn bytes_are_sent_or_refused<T: Instance>(
    tx: &mut UartFullTx<T>,
    uart: &mut UartFull<T>,
    addr: u32,
    len: usize,
    checked: Result<(), TxError>,
    r: Result<Vec<Op>, TxError>,
    s: Result<Vec<Op>, TxError>,
)
    requires
        call_ensures(
            UartFullTx::<T>::sanitize_tx_input_buffer,
            (old(tx), addr, len),
            checked,
        ),
        call_ensures(UartFullTx::<T>::write, (tx, addr, len), r),
        call_ensures(UartFull::<T>::write, (uart, addr, len), s),
    ensures
        checked is Ok <==> sendable(addr, len),
        r is Ok <==> sendable(addr, len),
        s is Ok <==> sendable(addr, len),
        r is Ok ==> r->Ok_0@.len() == 4 && starts_to_send(r->Ok_0@, addr, len),
        s is Ok ==> s->Ok_0@.len() == 4 && starts_to_send(s->Ok_0@, addr, len),
        checked is Err ==> refused(addr, len, checked->Err_0),
        r is Err ==> refused(addr, len, r->Err_0),
        s is Err ==> refused(addr, len, s->Err_0),
        *final(tx) == *old(tx),
        *final(uart) == *old(uart),
{
}

/// The blocking way sends the same, waits for the end, and ends the sending.
pub proof fn bytes_are_sent_at_once_or_refused<T: Instance>(
    tx: &mut UartFullTx<T>,
    uart: &mut UartFull<T>,
    addr: u32,
    len: usize,
    r: Result<Vec<Op>, TxError>,
    s: Result<Vec<Op>, TxError>,
)
    requires
        call_ensures(UartFullTx::<T>::write_blocking, (tx, addr, len), r),
        call_ensures(UartFull::<T>::write_blocking, (uart, addr, len), s),
    ensures
        r is Ok <==> sendable(addr, len),
        s is Ok <==> sendable(addr, len),
        r is Ok ==> {
            &&& r->Ok_0@.len() == 8
            &&& starts_to_send(r->Ok_0@, addr, len)
            &&& r->Ok_0@[4] == (Op::WaitSet { addr: UDMA_REQDONE, mask: 4 })
            &&& ends_sending(r->Ok_0@.skip(5))
            &&& r->Ok_0@ == s->Ok_0@
        },
        r is Err ==> refused(addr, len, r->Err_0) && s->Err_0 == r->Err_0,
        *final(tx) == *old(tx),
        *final(uart) == *old(uart),
{
    powers_of_two();
    if r is Ok {
        let ops = r->Ok_0@;
        assert(ops.skip(5)[0] == ops[5] && ops.skip(5)[1] == ops[6] && ops.skip(5)[2] == ops[7]);
    }
}

/// A write is over when the transmit channel is done; it is ended then, and otherwise given up
/// by stopping the channel and the requests of the UART first.
pub proof fn write_is_ended_or_given_up<T: Instance>(
    a: &mut UartFullTx<T>,
    b: &mut UartFullTx<T>,
    reqdone: u32,
    done: bool,
    end: Vec<Op>,
    abort: Vec<Op>,
)
    requires
        call_ensures(UartFullTx::<T>::write_is_done, (old(a), reqdone), done),
        call_ensures(UartFullTx::<T>::write_end, (a,), end),
        call_ensures(UartFullTx::<T>::write_abort, (b,), abort),
    ensures
        done == (reqdone & 4 != 0),
        end@.len() == 3,
        ends_sending(end@),
        abort@.len() == 4,
        abort@[0] == Op::Call(Call::UdmaChannelDisable { base: 0x4002_0000, channel: 2 }),
        abort@[1] == (Op::Modify { addr: UART0_DMACTL, clear: 2, set: 0 }),
        abort@[2] == end@[1],
        abort@[3] == end@[2],
        *final(a) == *old(a),
        *final(b) == *old(b),
{
    powers_of_two();
}

/// By default there is flow control at 115200 baud, with interrupts at half of the FIFO.
pub proof fn default_is_115200_baud(config: Config)
    requires
        call_ensures(<Config as Default>::default, (), config),
    ensures
        config.hw_flow_control,
        config.baudrate == 115_200,
        eighths(config.fifo_fill_level) == 4,
        config.rx_pin == 2,
        config.tx_pin == 3,
        config.cts_pin == 4,
        config.rts_pin == 8,
{
}

} // verus!
