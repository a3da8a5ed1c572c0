//! The UART.
//!
//! Transmission goes by uDMA. Reception goes by interrupt: a runner moves characters from
//! the receive FIFO into a channel of slots, and a receiver reads lines from the slots.
use crate::chip::{Interrupt, UART0};
use crate::driverlib::{
    IOID_2, IOID_3, IOID_4, IOID_8, IOID_UNUSED, SRAM_BASE, UART0_BASE, UART_CONFIG_PAR_NONE,
    UART_CONFIG_STOP_ONE, UART_CONFIG_WLEN_8, UART_INT_BE, UART_INT_CTS, UART_INT_FE, UART_INT_OE,
    UART_INT_PE, UART_INT_RT, UART_INT_RX, UART_INT_TX, UDMA_XFER_SIZE_MAX,
};
use crate::hw::{append, bit, stored, stored_concat, Call, Op, Task};
use crate::regs::{
    UART0_CTL, UART0_CTL_UARTEN, UART0_DMACTL, UART0_DMACTL_TXDMAE, UART0_DR, UART0_FR_RXFE,
    UART0_FR_RXFF, UART0_FR_TXFE, UART0_FR_TXFF, UART0_ICR, UART0_ICR_RTIC, UART0_ICR_RXIC,
    UART0_IFLS, UART0_IFLS_RXSEL, UART0_MIS_RTMIS, UART0_MIS_RXMIS, UDMA_CFG,
    UDMA_CFG_MASTERENABLE, UDMA_CTRL, UDMA_DONEMASK, UDMA_REQDONE,
};
use crate::udma::{
    channel_disable_op, channel_enable_op, configure_ops, done_clear_op, mask_op,
    masking_concerns_one_channel, transfer_op, unmask_op, Udma, UART0_TX_CHANNEL,
};
use std::marker::PhantomData;
use vstd::prelude::*;

verus! {

/// Line feed.
pub const LF: u8 = 10;

/// Carriage return.
pub const CR: u8 = 13;

/// Framing error.
pub const FE: u8 = 0b1;

/// Parity error.
pub const PE: u8 = 0b10;

/// Break error.
pub const BE: u8 = 0b100;

/// Overrun error.
pub const OE: u8 = 0b1000;

/// Which pins a UART uses.
pub trait UartPinConfig {
    fn tx() -> u32;

    fn rx() -> u32;

    fn rts(hw: bool) -> u32;

    fn cts(hw: bool) -> u32;
}

#[derive(Clone, Copy, Debug, PartialEq, Eq, Structural)]
pub enum FIFOFillLevel {
    /// Transmit/Receive FIFO disabled,
    Disabled,
    /// Transmit/Receive FIFO becomes >= 1/8 full
    Level18,
    /// Transmit/Receive FIFO becomes >= 2/8 full
    Level28,
    /// Transmit/Receive FIFO becomes >= 4/8 full
    Level48,
    /// Transmit/Receive FIFO becomes >= 6/8 full
    Level68,
    /// Transmit/Receive FIFO becomes >= 7/8 full
    Level78,
}

impl FIFOFillLevel {
    /// The value of the receive level field, if there is to be a receive interrupt.
    pub open spec fn rxsel(self) -> Option<u32> {
        match self {
            FIFOFillLevel::Disabled => None,
            FIFOFillLevel::Level18 => Some(0x00),
            FIFOFillLevel::Level28 => Some(0x08),
            FIFOFillLevel::Level48 => Some(0x10),
            FIFOFillLevel::Level68 => Some(0x18),
            FIFOFillLevel::Level78 => Some(0x20),
        }
    }

    /// Sets the receive level, if there is to be a receive interrupt.
    fn select(self) -> (op: Option<Op>)
        ensures
            op == level_op(self),
    {
        let set: u32 = match self {
            FIFOFillLevel::Disabled => return None,
            FIFOFillLevel::Level18 => 0x00,
            FIFOFillLevel::Level28 => 0x08,
            FIFOFillLevel::Level48 => 0x10,
            FIFOFillLevel::Level68 => 0x18,
            FIFOFillLevel::Level78 => 0x20,
        };
        Some(Op::Modify { addr: UART0_IFLS, clear: UART0_IFLS_RXSEL, set })
    }
}

/// Sets the receive level, if there is to be a receive interrupt.
pub open spec fn level_op(level: FIFOFillLevel) -> Option<Op> {
    match level.rxsel() {
        Some(set) => Some(Op::Modify { addr: UART0_IFLS, clear: UART0_IFLS_RXSEL, set }),
        None => None,
    }
}

#[derive(Clone, Copy, Debug, PartialEq, Eq, Structural)]
#[non_exhaustive]
pub struct Config {
    pub hw_flow_control: bool,
    pub baudrate: u32,
    pub fifo_fill_level: FIFOFillLevel,
    pub tx_pin: u32,
    pub rx_pin: u32,
    pub rts_pin: u32,
    pub cts_pin: u32,
}

impl Config {
    /// The request-to-send pin that is in use.
    pub fn rts(&self) -> (r: u32)
        ensures
            r == if self.hw_flow_control {
                self.rts_pin
            } else {
                IOID_UNUSED
            },
    {
        match self.hw_flow_control {
            true => self.rts_pin,
            false => IOID_UNUSED,
        }
    }

    /// The clear-to-send pin that is in use.
    pub fn cts(&self) -> (r: u32)
        ensures
            r == if self.hw_flow_control {
                self.cts_pin
            } else {
                IOID_UNUSED
            },
    {
        match self.hw_flow_control {
            true => self.cts_pin,
            false => IOID_UNUSED,
        }
    }
}

impl Default for Config {
    fn default() -> (r: Self)
        ensures
            r == (Config {
                hw_flow_control: true,
                baudrate: 115_200,
                fifo_fill_level: FIFOFillLevel::Level48,
                tx_pin: IOID_3,
                rx_pin: IOID_2,
                rts_pin: IOID_8,
                cts_pin: IOID_4,
            }),
    {
        Self {
            hw_flow_control: true,
            baudrate: 115_200,
            fifo_fill_level: FIFOFillLevel::Level48,
            tx_pin: IOID_3,
            rx_pin: IOID_2,
            rts_pin: IOID_8,
            cts_pin: IOID_4,
        }
    }
}

/// UART peripheral instance.
pub trait Instance {
    /// Interrupt for this peripheral.
    spec fn irq() -> Interrupt;

    /// Interrupt for this peripheral.
    fn interrupt() -> (r: Interrupt)
        ensures
            r == Self::irq(),
    ;
}

impl Instance for UART0 {
    open spec fn irq() -> Interrupt {
        Interrupt::UART0
    }

    fn interrupt() -> (r: Interrupt) {
        Interrupt::UART0
    }
}

/// What went wrong on reception, with the number of bytes read so far.
#[derive(Clone, Copy, Debug, PartialEq, Eq, Structural)]
pub enum RxError {
    /// Buffer overrun
    Overrun(usize),
    /// Parity error
    Parity(usize),
    /// Framing error
    Framing(usize),
    /// Break condition
    Break(usize),
}

/// Why a buffer cannot be sent.
#[derive(Clone, Copy, Debug, PartialEq, Eq, Structural)]
pub enum TxError {
    /// Buffer was empty
    BufferEmpty,
    /// Buffer was too long.
    BufferTooLong,
    /// Buffer was coming from FLASH memory
    SramMemory,
}

/// Enables interrupts of the UART.
pub open spec fn irqs_on(flags: u32) -> Op {
    Op::Call(Call::UartIntEnable { base: UART0_BASE, flags })
}

/// Disables interrupts of the UART.
pub open spec fn irqs_off(flags: u32) -> Op {
    Op::Call(Call::UartIntDisable { base: UART0_BASE, flags })
}

fn enable_uart_irqs(flags: u32) -> (op: Op)
    ensures
        op == irqs_on(flags),
{
    Op::Call(Call::UartIntEnable { base: UART0_BASE, flags })
}

fn disable_uart_irqs(flags: u32) -> (op: Op)
    ensures
        op == irqs_off(flags),
{
    Op::Call(Call::UartIntDisable { base: UART0_BASE, flags })
}

/// Lets the UART ask the uDMA controller for characters to send.
pub open spec fn tx_dma_on() -> Op {
    Op::Modify { addr: UART0_DMACTL, clear: UART0_DMACTL_TXDMAE, set: UART0_DMACTL_TXDMAE }
}

/// Keeps the UART from asking the uDMA controller for characters to send.
pub open spec fn tx_dma_off() -> Op {
    Op::Modify { addr: UART0_DMACTL, clear: UART0_DMACTL_TXDMAE, set: 0 }
}

/// The operations on the end of a transmission.
pub open spec fn tx_done_ops() -> Seq<Op> {
    seq![
        channel_disable_op(UART0_TX_CHANNEL),
        mask_op(UART0_TX_CHANNEL),
        tx_dma_off(),
        Op::Wake(Task::UartTx),
    ]
}

/// The operations on the arrival of characters.
pub open spec fn rx_ready_ops() -> Seq<Op> {
    seq![irqs_off(UART_INT_RX | UART_INT_RT), Op::Wake(Task::UartRx)]
}

/// The operations on an interrupt.
pub open spec fn interrupt_ops(mis: u32, reqdone: u32) -> Seq<Op> {
    (if bit(reqdone, UART0_TX_CHANNEL) {
        tx_done_ops()
    } else {
        Seq::empty()
    }) + (if mis & UART0_MIS_RXMIS != 0 || mis & UART0_MIS_RTMIS != 0 {
        rx_ready_ops()
    } else {
        Seq::empty()
    })
}

/// Interrupt handler.
pub struct InterruptHandler<T: Instance> {
    pub _phantom: PhantomData<T>,
}

impl<T: Instance> InterruptHandler<T> {
    /// The first part of handling the interrupt, between reading the masked interrupt
    /// status and the register of done requests.
    pub fn acknowledge() -> (op: Op)
        ensures
            op == (Op::Write { addr: UART0_ICR, value: UART0_ICR_RTIC | UART0_ICR_RXIC }),
    {
        Op::Write { addr: UART0_ICR, value: UART0_ICR_RTIC | UART0_ICR_RXIC }
    }

    /// Handles the interrupt, from what the masked interrupt status and the register of
    /// done requests read.
    pub fn on_interrupt(mis: u32, reqdone: u32) -> (ops: Vec<Op>)
        ensures
            ops@ == interrupt_ops(mis, reqdone),
    {
        let udma = Udma;
        let mut ops: Vec<Op> = Vec::new();
        // UART write complete.
        if udma.uart_request_done_tx(reqdone) {
            append(
                &mut ops,
                vec![
                    udma.uart_disable_tx(),
                    udma.uart_request_done_tx_mask(),
                    Op::Modify { addr: UART0_DMACTL, clear: UART0_DMACTL_TXDMAE, set: 0 },
                    Op::Wake(Task::UartTx),
                ],
            );
        }
        // UART rx FIFO limit reached OR rx timeout.

        if mis & UART0_MIS_RXMIS != 0 || mis & UART0_MIS_RTMIS != 0 {
            // Mask RX and RT irqs. They should be unmasked by the reader when it ends
            // reading data from the FIFO (e.g. when there is no more data in FIFO).
            append(
                &mut ops,
                vec![disable_uart_irqs(UART_INT_RX | UART_INT_RT), Op::Wake(Task::UartRx)],
            );
        }
        assert(ops@ =~= interrupt_ops(mis, reqdone));
        ops
    }
}

/// The character that a slot holds.
pub open spec fn data_of(slot: u16) -> u8 {
    (slot % 256) as u8
}

/// The errors that a slot holds.
pub open spec fn errors_of(slot: u16) -> u8 {
    (slot / 256) as u8
}

/// Whether a character ends a line.
pub open spec fn is_line_end(data: u8) -> bool {
    data == LF || data == CR
}

/// The error to report for a character with the given errors, after `ptr` bytes.
pub open spec fn rx_error(rsr: u8, ptr: usize) -> Option<RxError> {
    if rsr & FE != 0 {
        Some(RxError::Framing(ptr))
    } else if rsr & PE != 0 {
        Some(RxError::Parity(ptr))
    } else if rsr & BE != 0 {
        Some(RxError::Break(ptr))
    } else if rsr & OE != 0 {
        Some(RxError::Overrun(ptr))
    } else {
        None
    }
}

/// How a read into `len` bytes goes on when the slot arrives after `ptr` bytes: it ends
/// with a result, or waits for more.
pub open spec fn read_step(slot: u16, ptr: nat, len: nat) -> Option<Result<usize, RxError>> {
    if is_line_end(data_of(slot)) {
        Some(Ok(ptr as usize))
    } else {
        match rx_error(errors_of(slot), (ptr + 1) as usize) {
            Some(e) => Some(Err(e)),
            None => if ptr + 1 == len {
                Some(Ok(len as usize))
            } else {
                None
            },
        }
    }
}

/// Trait for the UART receiver. User can implement it for custom behaviour,
/// or use the predefined impl.
pub trait UartFullRxReceiver: Sized {
    /// Whether a read into `len` bytes waits for a slot.
    spec fn is_reading(&self, len: nat) -> bool;

    /// Initializes a new instance of the receiver.
    fn new() -> Self;

    /// Begins to read data into a buffer of `len` bytes. Returns the result of the read
    /// if it ends at once.
    fn read(&mut self, len: usize) -> (r: Option<Result<usize, RxError>>)
        ensures
            r is None ==> final(self).is_reading(len as nat),
    ;

    /// Goes on with the read when a slot arrives. Returns the result of the read if it
    /// ends with this slot.
    fn receive(&mut self, buf: &mut [u8], slot: u16) -> (r: Option<Result<usize, RxError>>)
        requires
            old(self).is_reading(old(buf)@.len()),
        ensures
            final(buf)@.len() == old(buf)@.len(),
            r is None ==> final(self).is_reading(old(buf)@.len()),
    ;
}

/// Predefined impl of the [`UartFullRxReceiver`] trait.
pub struct UartFullRxReceiverImpl {
    /// How many bytes have been read.
    pub ptr: usize,
}

impl UartFullRxReceiverImpl {
    /// Reports the errors of the character at which `ptr` bytes have been read.
    pub fn check_errors(rsr: u8, ptr: usize) -> (r: Result<usize, RxError>)
        ensures
            r == match rx_error(rsr, ptr) {
                Some(e) => Err::<usize, RxError>(e),
                None => Ok(ptr),
            },
    {
        if rsr & FE != 0 {
            Err(RxError::Framing(ptr))
        } else if rsr & PE != 0 {
            Err(RxError::Parity(ptr))
        } else if rsr & BE != 0 {
            Err(RxError::Break(ptr))
        } else if rsr & OE != 0 {
            Err(RxError::Overrun(ptr))
        } else {
            Ok(ptr)
        }
    }
}

impl UartFullRxReceiver for UartFullRxReceiverImpl {
    open spec fn is_reading(&self, len: nat) -> bool {
        self.ptr < len
    }

    fn new() -> (r: Self)
        ensures
            r.ptr == 0,
    {
        Self { ptr: 0 }
    }

    /// Begins to read bytes until there is a 'LF', a 'CR' or the whole buffer is full.
    fn read(&mut self, len: usize) -> (r: Option<Result<usize, RxError>>)
        ensures
            final(self).ptr == 0,
            r == if len == 0 {
                Some(Ok::<usize, RxError>(0))
            } else {
                None
            },
    {
        self.ptr = 0;
        if self.ptr != len {
            None
        } else {
            Some(Ok(self.ptr))
        }
    }

    /// Reads one byte. When the read ends, returns the number of bytes read, and possibly
    /// RX error. 'LF' and 'CR' are scraped, so this function can return 0.
    fn receive(&mut self, buf: &mut [u8], slot: u16) -> (r: Option<Result<usize, RxError>>)
        ensures
            final(buf)@ == old(buf)@.update(old(self).ptr as int, data_of(slot)),
            r == read_step(slot, old(self).ptr as nat, old(buf)@.len()),
            final(self).ptr == if is_line_end(data_of(slot)) {
                old(self).ptr as int
            } else {
                old(self).ptr + 1
            },
    {
        let data: u8 = (slot % 256) as u8;
        let rsr: u8 = (slot / 256) as u8;
        buf[self.ptr] = data;
        if data == LF || data == CR {
            return Some(Ok(self.ptr));
        }
        self.ptr = self.ptr + 1;
        match Self::check_errors(rsr, self.ptr) {
            Err(e) => Some(Err(e)),
            Ok(ptr) => if ptr != buf.len() {
                None
            } else {
                Some(Ok(ptr))
            },
        }
    }
}

/// What the runner is to do next.
#[derive(Clone, Copy, Debug, PartialEq, Eq, Structural)]
pub enum RxStep {
    /// Wait until the receive task is woken, and ask again.
    Suspend,
    /// Wait for a free slot, put the next character of the FIFO in it, and ask again.
    Transfer,
    /// Perform the operation, and ask again.
    Resume(Op),
}

/// Moves characters from the receive FIFO to the receiver.
pub struct UartFullRxRunner {
    /// Whether the runner has seen data in the FIFO and has not yet seen it empty again.
    pub draining: bool,
}

/// What the runner does next, and whether it is draining the FIFO after that.
pub open spec fn runner_step(draining: bool, chars_avail: bool) -> (RxStep, bool) {
    if chars_avail {
        (RxStep::Transfer, true)
    } else if draining {
        (RxStep::Resume(irqs_on(UART_INT_RX | UART_INT_RT)), false)
    } else {
        (RxStep::Suspend, false)
    }
}

impl UartFullRxRunner {
    /// Decides what comes next, from whether there are characters in the FIFO.
    pub fn run(&mut self, chars_avail: bool) -> (step: RxStep)
        ensures
            (step, final(self).draining) == runner_step(old(self).draining, chars_avail),
    {
        if chars_avail {
            // While there is data in the FIFO, consume it and push to the reader.
            // This also covers data that arrived AFTER RX/RT interrupt fired.
            self.draining = true;
            RxStep::Transfer
        } else if self.draining {
            // There is no more data, so reenable RX/RT irqs.
            self.draining = false;
            RxStep::Resume(enable_uart_irqs(UART_INT_RX | UART_INT_RT))
        } else {
            // Wait for data to "show up".
            RxStep::Suspend
        }
    }

    /// The slot for a character as it is read from the FIFO, and the operation that clears
    /// its errors there.
    pub fn transfer(&self, character: u32) -> (r: (u16, Op))
        ensures
            r.0 == character % 0x1_0000,
            r.1 == Op::Call(Call::UartRxErrorClear { base: UART0_BASE }),
    {
        // 8 bits for data and 4 bits for errors -> u16.
        (
            (character % 0x1_0000) as u16,
            Op::Call(Call::UartRxErrorClear { base: UART0_BASE }),
        )
    }
}

/// Whether a buffer can be sent, and if not, why.
pub open spec fn tx_verdict(addr: u32, len: usize) -> Result<(), TxError> {
    if len > UDMA_XFER_SIZE_MAX {
        Err(TxError::BufferTooLong)
    } else if len == 0 {
        Err(TxError::BufferEmpty)
    } else if addr < SRAM_BASE {
        Err(TxError::SramMemory)
    } else {
        Ok(())
    }
}

/// The operations that start to send the `len` bytes at `addr`.
pub open spec fn tx_start_ops(addr: u32, len: u32) -> Seq<Op> {
    seq![
        transfer_op(UART0_TX_CHANNEL, addr, UART0_DR, len),
        channel_enable_op(UART0_TX_CHANNEL),
        Op::Fence,
        tx_dma_on(),
    ]
}

/// The operations after everything has been sent.
pub open spec fn tx_end_ops() -> Seq<Op> {
    seq![Op::Fence, done_clear_op(UART0_TX_CHANNEL), unmask_op(UART0_TX_CHANNEL)]
}

/// The operations that give up on a transmission.
pub open spec fn tx_abort_ops() -> Seq<Op> {
    seq![
        channel_disable_op(UART0_TX_CHANNEL),
        tx_dma_off(),
        done_clear_op(UART0_TX_CHANNEL),
        unmask_op(UART0_TX_CHANNEL),
    ]
}

/// The transmitting half of the UART.
pub struct UartFullTx<T: Instance> {
    pub _p: PhantomData<T>,
}

impl<T: Instance> UartFullTx<T> {
    /// Whether the TX FIFO is empty, from what the flag register reads.
    pub fn tx_fifo_empty(&self, fr: u32) -> (r: bool)
        ensures
            r == (fr & UART0_FR_TXFE != 0),
    {
        fr & UART0_FR_TXFE != 0
    }

    /// Whether the TX FIFO is full, from what the flag register reads.
    pub fn tx_fifo_full(&self, fr: u32) -> (r: bool)
        ensures
            r == (fr & UART0_FR_TXFF != 0),
    {
        fr & UART0_FR_TXFF != 0
    }

    fn dma_start_tx(&self) -> (op: Op)
        ensures
            op == tx_dma_on(),
    {
        Op::Modify { addr: UART0_DMACTL, clear: UART0_DMACTL_TXDMAE, set: UART0_DMACTL_TXDMAE }
    }

    /// Whether the `len` bytes at `addr` can be sent.
    pub fn sanitize_tx_input_buffer(&self, addr: u32, len: usize) -> (r: Result<(), TxError>)
        ensures
            r == tx_verdict(addr, len),
    {
        if len > UDMA_XFER_SIZE_MAX as usize {
            return Err(TxError::BufferTooLong);
        }
        if len == 0 {
            return Err(TxError::BufferEmpty);
        }
        if addr < SRAM_BASE {
            return Err(TxError::SramMemory);
        }
        Ok(())
    }

    /// uDMA-based, asynchronous write of the `len` bytes at `addr`. Each write should be
    /// smaller than UDMA_XFER_SIZE_MAX, and because of uDMA limitations, data should not
    /// come from the FLASH memory.
    ///
    /// The operations start the transmission. The transmit task is then woken when
    /// [`UartFullTx::write_is_done`] is to be asked, and [`UartFullTx::write_end`] or
    /// [`UartFullTx::write_abort`] ends it.
    pub fn write(&mut self, addr: u32, len: usize) -> (r: Result<Vec<Op>, TxError>)
        ensures
            match tx_verdict(addr, len) {
                Ok(_) => r is Ok && r->Ok_0@ == tx_start_ops(addr, len as u32),
                Err(e) => r == Err::<Vec<Op>, TxError>(e),
            },
            *final(self) == *old(self),
    {
        match self.sanitize_tx_input_buffer(addr, len) {
            Err(e) => Err(e),
            Ok(_) => {
                let mut ops: Vec<Op> = Udma.uart_transfer_tx(addr, len as u32);
                ops.push(Op::Fence);
                ops.push(self.dma_start_tx());
                assert(ops@ =~= tx_start_ops(addr, len as u32));
                Ok(ops)
            },
        }
    }

    /// Whether everything has been sent, from what the register of done requests reads.
    pub fn write_is_done(&self, reqdone: u32) -> (r: bool)
        ensures
            r == bit(reqdone, UART0_TX_CHANNEL),
    {
        Udma.uart_request_done_tx(reqdone)
    }

    /// Ends a write after everything has been sent.
    pub fn write_end(&mut self) -> (ops: Vec<Op>)
        ensures
            ops@ == tx_end_ops(),
            *final(self) == *old(self),
    {
        vec![
            Op::Fence,
            Udma.uart_request_done_tx_clear(),
            Udma.uart_request_done_tx_unmask(),
        ]
    }

    /// Gives up on a write.
    pub fn write_abort(&mut self) -> (ops: Vec<Op>)
        ensures
            ops@ == tx_abort_ops(),
            *final(self) == *old(self),
    {
        vec![
            Udma.uart_disable_tx(),
            Op::Modify { addr: UART0_DMACTL, clear: UART0_DMACTL_TXDMAE, set: 0 },
            Udma.uart_request_done_tx_clear(),
            Udma.uart_request_done_tx_unmask(),
        ]
    }

    /// Same as [`UartFullTx::write`], but the operations wait for the end of the
    /// transmission.
    pub fn write_blocking(&mut self, addr: u32, len: usize) -> (r: Result<Vec<Op>, TxError>)
        ensures
            match tx_verdict(addr, len) {
                Ok(_) => r is Ok && r->Ok_0@ == tx_start_ops(addr, len as u32) + seq![
                    Op::WaitSet { addr: UDMA_REQDONE, mask: 1u32 << UART0_TX_CHANNEL },
                ] + tx_end_ops(),
                Err(e) => r == Err::<Vec<Op>, TxError>(e),
            },
            *final(self) == *old(self),
    {
        match self.write(addr, len) {
            Err(e) => Err(e),
            Ok(start) => {
                let mut ops: Vec<Op> = start;
                ops.push(Op::WaitSet { addr: UDMA_REQDONE, mask: 1u32 << UART0_TX_CHANNEL });
                append(&mut ops, self.write_end());
                assert(ops@ =~= tx_start_ops(addr, len as u32) + seq![
                    Op::WaitSet { addr: UDMA_REQDONE, mask: 1u32 << UART0_TX_CHANNEL },
                ] + tx_end_ops());
                Ok(ops)
            },
        }
    }
}

/// The operations that set up the UART, with the clock of the system at `clock` hertz and
/// the control data of the uDMA channels at `map_addr`.
pub open spec fn initialize_ops(config: Config, clock: u32, map_addr: u32) -> Seq<Op> {
    seq![
        Op::Write { addr: UDMA_CTRL, value: map_addr },
        Op::Write { addr: UDMA_CFG, value: UDMA_CFG_MASTERENABLE },
        Op::Call(
            Call::IocPinTypeUart {
                base: UART0_BASE,
                rx: config.rx_pin,
                tx: config.tx_pin,
                cts: if config.hw_flow_control {
                    config.cts_pin
                } else {
                    IOID_UNUSED
                },
                rts: if config.hw_flow_control {
                    config.rts_pin
                } else {
                    IOID_UNUSED
                },
            },
        ),
        Op::Call(
            Call::UartConfigSetExpClk {
                base: UART0_BASE,
                clock,
                baudrate: config.baudrate,
                config: UART_CONFIG_PAR_NONE | UART_CONFIG_STOP_ONE | UART_CONFIG_WLEN_8,
            },
        ),
        Op::Call(Call::UartFifoEnable { base: UART0_BASE }),
        irqs_off(UART_INT_TX),
    ] + (match level_op(config.fifo_fill_level) {
        Some(op) => seq![op, irqs_on(UART_INT_RX | UART_INT_RT)],
        None => Seq::empty(),
    }) + seq![
        irqs_off(UART_INT_CTS),
        irqs_off(UART_INT_OE | UART_INT_BE | UART_INT_PE | UART_INT_FE),
        if config.hw_flow_control {
            Op::Call(Call::UartHwFlowControlEnable { base: UART0_BASE })
        } else {
            Op::Call(Call::UartHwFlowControlDisable { base: UART0_BASE })
        },
    ] + configure_ops() + seq![
        channel_disable_op(UART0_TX_CHANNEL),
        Op::Call(Call::UartEnable { base: UART0_BASE }),
    ]
}

/// The operations that change when the receive interrupt comes.
pub open spec fn rx_interrupts_ops(level: FIFOFillLevel) -> Seq<Op> {
    seq![Op::Call(Call::UartDisable { base: UART0_BASE })] + (match level_op(level) {
        Some(op) => seq![
            op,
            irqs_on(UART_INT_RX | UART_INT_RT),
            Op::Call(Call::UartEnable { base: UART0_BASE }),
        ],
        None => seq![
            irqs_off(UART_INT_RX | UART_INT_RT),
            Op::Modify { addr: UART0_CTL, clear: UART0_CTL_UARTEN, set: UART0_CTL_UARTEN },
        ],
    })
}

/// The UART with both its halves.
pub struct UartFull<T: Instance> {
    pub rx_runner: UartFullRxRunner,
    pub tx: UartFullTx<T>,
    pub _peri: PhantomData<T>,
}

impl<T: Instance> UartFull<T> {
    /// Sets up the UART, with the clock of the system at `clock` hertz and the control data
    /// of the uDMA channels at `map_addr`.
    pub fn new(config: Config, clock: u32, map_addr: u32) -> (r: (Self, Vec<Op>))
        ensures
            !r.0.rx_runner.draining,
            r.1@ == initialize_ops(config, clock, map_addr) + seq![
                Op::Unpend(T::irq()),
                Op::Enable(T::irq()),
            ],
    {
        let mut ops: Vec<Op> = Self::initialize(config, clock, map_addr);
        let res = Self {
            rx_runner: UartFullRxRunner { draining: false },
            tx: UartFullTx { _p: PhantomData },
            _peri: PhantomData,
        };
        ops.push(Op::Unpend(T::interrupt()));
        ops.push(Op::Enable(T::interrupt()));
        assert(ops@ =~= initialize_ops(config, clock, map_addr) + seq![
            Op::Unpend(T::irq()),
            Op::Enable(T::irq()),
        ]);
        (res, ops)
    }

    fn initialize(config: Config, clock: u32, map_addr: u32) -> (ops: Vec<Op>)
        ensures
            ops@ == initialize_ops(config, clock, map_addr),
    {
        let udma = Udma;
        let mut ops: Vec<Op> = udma.enable(map_addr);
        // Setup IO pins for UART0.
        ops.push(
            Op::Call(
                Call::IocPinTypeUart {
                    base: UART0_BASE,
                    rx: config.rx_pin,
                    tx: config.tx_pin,
                    cts: config.cts(),
                    rts: config.rts(),
                },
            ),
        );
        // Setup UART. This also disables UART0, as its control registers require.
        ops.push(
            Op::Call(
                Call::UartConfigSetExpClk {
                    base: UART0_BASE,
                    clock,
                    baudrate: config.baudrate,
                    config: UART_CONFIG_PAR_NONE | UART_CONFIG_STOP_ONE | UART_CONFIG_WLEN_8,
                },
            ),
        );
        // Enable FIFO.
        ops.push(Op::Call(Call::UartFifoEnable { base: UART0_BASE }));
        // Configure RX interrupts. TX interrupts are disabled by default as TX is handled
        // by uDMA.
        ops.push(disable_uart_irqs(UART_INT_TX));
        if let Some(op) = config.fifo_fill_level.select() {
            ops.push(op);
            ops.push(enable_uart_irqs(UART_INT_RX | UART_INT_RT));
        }
        // Disable clear-to-send irq as uDMA handles TX.

        ops.push(disable_uart_irqs(UART_INT_CTS));
        // Disable error irqs. Errors will be returned on read from the FIFO.
        ops.push(disable_uart_irqs(UART_INT_OE | UART_INT_BE | UART_INT_PE | UART_INT_FE));
        ops.push(
            match config.hw_flow_control {
                true => Op::Call(Call::UartHwFlowControlEnable { base: UART0_BASE }),
                false => Op::Call(Call::UartHwFlowControlDisable { base: UART0_BASE }),
            },
        );
        // Configure channels used for data requests by UART0.
        append(&mut ops, udma.uart_channels_configure());
        // UART uDMA transactions should be only enabled when an actual transmission happens.
        ops.push(udma.uart_disable_tx());
        ops.push(Self::enable_uart());
        assert(ops@ =~= initialize_ops(config, clock, map_addr));
        ops
    }

    /// Parts the UART into its halves.
    pub fn split(self) -> (r: (UartFullTx<T>, UartFullRxRunner))
        ensures
            r == (self.tx, self.rx_runner),
    {
        (self.tx, self.rx_runner)
    }

    /// The operations will wait until there is no more data to send,
    /// but they won't wait for the RX FIFO (data might be lost).
    pub fn configure_rx_interrupts(&self, fill_level: FIFOFillLevel) -> (ops: Vec<Op>)
        ensures
            ops@ == rx_interrupts_ops(fill_level),
    {
        // Disable UART0 before modifying control registers.
        let mut ops: Vec<Op> = vec![Self::disable_uart()];
        match fill_level.select() {
            None => {
                // Disable interrupts:
                // - receive interrupt
                // - reception timeout interrupt
                ops.push(disable_uart_irqs(UART_INT_RX | UART_INT_RT));
                ops.push(
                    Op::Modify { addr: UART0_CTL, clear: UART0_CTL_UARTEN, set: UART0_CTL_UARTEN },
                );
            },
            Some(op) => {
                ops.push(op);
                // Set interrupts:
                // - receive interrupt
                // - reception timeout interrupt
                ops.push(enable_uart_irqs(UART_INT_RX | UART_INT_RT));
                ops.push(Self::enable_uart());
            },
        }
        assert(ops@ =~= rx_interrupts_ops(fill_level));
        ops
    }

    fn enable_uart() -> (op: Op)
        ensures
            op == Op::Call(Call::UartEnable { base: UART0_BASE }),
    {
        Op::Call(Call::UartEnable { base: UART0_BASE })
    }

    /// The call waits until the BUSY flag for TX is cleared, which happens only when the
    /// TX FIFO is empty and the last character was transmitted from the shift register.
    fn disable_uart() -> (op: Op)
        ensures
            op == Op::Call(Call::UartDisable { base: UART0_BASE }),
    {
        Op::Call(Call::UartDisable { base: UART0_BASE })
    }

    /// Check if the TX FIFO is empty, from what the flag register reads.
    pub fn tx_fifo_empty(&self, fr: u32) -> (r: bool)
        ensures
            r == (fr & UART0_FR_TXFE != 0),
    {
        self.tx.tx_fifo_empty(fr)
    }

    /// Check if no more bytes can be enqueued in TX FIFO, from what the flag register reads.
    pub fn tx_fifo_full(&self, fr: u32) -> (r: bool)
        ensures
            r == (fr & UART0_FR_TXFF != 0),
    {
        self.tx.tx_fifo_full(fr)
    }

    /// Check if RX FIFO is empty, from what the flag register reads.
    pub fn rx_fifo_empty(&self, fr: u32) -> (r: bool)
        ensures
            r == (fr & UART0_FR_RXFE != 0),
    {
        fr & UART0_FR_RXFE != 0
    }

    /// Check if RX FIFO is full, from what the flag register reads.
    pub fn rx_fifo_full(&self, fr: u32) -> (r: bool)
        ensures
            r == (fr & UART0_FR_RXFF != 0),
    {
        fr & UART0_FR_RXFF != 0
    }

    /// Same as [`UartFullTx::write`].
    pub fn write(&mut self, addr: u32, len: usize) -> (r: Result<Vec<Op>, TxError>)
        ensures
            match tx_verdict(addr, len) {
                Ok(_) => r is Ok && r->Ok_0@ == tx_start_ops(addr, len as u32),
                Err(e) => r == Err::<Vec<Op>, TxError>(e),
            },
            *final(self) == *old(self),
    {
        self.tx.write(addr, len)
    }

    /// Same as [`UartFullTx::write_blocking`].
    pub fn write_blocking(&mut self, addr: u32, len: usize) -> (r: Result<Vec<Op>, TxError>)
        ensures
            match tx_verdict(addr, len) {
                Ok(_) => r is Ok && r->Ok_0@ == tx_start_ops(addr, len as u32) + seq![
                    Op::WaitSet { addr: UDMA_REQDONE, mask: 1u32 << UART0_TX_CHANNEL },
                ] + tx_end_ops(),
                Err(e) => r == Err::<Vec<Op>, TxError>(e),
            },
            *final(self) == *old(self),
    {
        self.tx.write_blocking(addr, len)
    }
}

/// Whether a slot holds a character without errors that does not end a line.
pub open spec fn is_plain(slot: u16) -> bool {
    !is_line_end(data_of(slot)) && rx_error(errors_of(slot), 0) is None
}

/// How a read goes on after `ptr` bytes when the slots arrive one after the other: its
/// result, if it ends, and what the buffer holds after that.
pub open spec fn read_run(slots: Seq<u16>, buf: Seq<u8>, ptr: nat) -> (
    Option<Result<usize, RxError>>,
    Seq<u8>,
)
    decreases slots.len(),
{
    if slots.len() == 0 {
        (None, buf)
    } else {
        let after = buf.update(ptr as int, data_of(slots[0]));
        match read_step(slots[0], ptr, buf.len()) {
            Some(result) => (Some(result), after),
            None => read_run(slots.drop_first(), after, ptr + 1),
        }
    }
}

/// The buffer with the characters of the first `n` slots in it, from byte `ptr` on.
pub open spec fn filled(buf: Seq<u8>, slots: Seq<u16>, ptr: nat, n: nat) -> Seq<u8> {
    Seq::new(
        buf.len(),
        |i: int|
            if ptr <= i < ptr + n {
                data_of(slots[i - ptr])
            } else {
                buf[i]
            },
    )
}

proof fn plain_characters_are_stored(slots: Seq<u16>, buf: Seq<u8>, ptr: nat, n: nat)
    requires
        n <= slots.len(),
        ptr + n < buf.len(),
        forall|i: int| 0 <= i < n ==> is_plain(#[trigger] slots[i]),
    ensures
        read_run(slots, buf, ptr) == read_run(
            slots.skip(n as int),
            filled(buf, slots, ptr, n),
            ptr + n,
        ),
    decreases n,
{
    if n == 0 {
        assert(slots.skip(0) =~= slots);
        assert(filled(buf, slots, ptr, 0) =~= buf);
    } else {
        let rest = slots.drop_first();
        let after = buf.update(ptr as int, data_of(slots[0]));
        assert(is_plain(slots[0]));
        assert forall|i: int| 0 <= i < n - 1 implies is_plain(#[trigger] rest[i]) by {
            assert(rest[i] == slots[i + 1]);
        }
        plain_characters_are_stored(rest, after, ptr + 1, (n - 1) as nat);
        assert(rest.skip(n - 1) =~= slots.skip(n as int));
        assert(filled(after, rest, ptr + 1, (n - 1) as nat) =~= filled(buf, slots, ptr, n));
    }
}

/// A line that fits is read up to its end: the result is its length without the 'LF' or
/// 'CR', and the line is at the start of the buffer.
pub proof fn line_is_read(slots: Seq<u16>, buf: Seq<u8>, n: nat)
    requires
        n < slots.len(),
        n < buf.len(),
        buf.len() <= usize::MAX,
        forall|i: int| 0 <= i < n ==> is_plain(#[trigger] slots[i]),
        is_line_end(data_of(slots[n as int])),
    ensures
        read_run(slots, buf, 0).0 == Some(Ok::<usize, RxError>(n as usize)),
        read_run(slots, buf, 0).1.len() == buf.len(),
        forall|i: int|
            0 <= i < n ==> #[trigger] read_run(slots, buf, 0).1[i] == data_of(slots[i]),
        forall|i: int| n < i < buf.len() ==> #[trigger] read_run(slots, buf, 0).1[i] == buf[i],
{
    plain_characters_are_stored(slots, buf, 0, n);
    assert(slots.skip(n as int)[0] == slots[n as int]);
}

/// A read ends when the buffer is full, and the buffer then holds the characters.
pub proof fn full_buffer_is_read(slots: Seq<u16>, buf: Seq<u8>)
    requires
        0 < buf.len() <= slots.len(),
        buf.len() <= usize::MAX,
        forall|i: int| 0 <= i < buf.len() ==> is_plain(#[trigger] slots[i]),
    ensures
        read_run(slots, buf, 0).0 == Some(Ok::<usize, RxError>(buf.len() as usize)),
        read_run(slots, buf, 0).1 == Seq::new(buf.len(), |i: int| data_of(slots[i])),
{
    let n = (buf.len() - 1) as nat;
    plain_characters_are_stored(slots, buf, 0, n);
    assert(slots.skip(n as int)[0] == slots[n as int]);
    assert(is_plain(slots[n as int]));
    assert(read_run(slots, buf, 0).1 =~= Seq::new(buf.len(), |i: int| data_of(slots[i])));
}

/// A character with errors ends the read with the error and the number of characters, the
/// bad one among them, and all of them are in the buffer.
pub proof fn bad_character_ends_the_read(slots: Seq<u16>, buf: Seq<u8>, n: nat)
    requires
        n < slots.len(),
        n < buf.len(),
        buf.len() <= usize::MAX,
        forall|i: int| 0 <= i < n ==> is_plain(#[trigger] slots[i]),
        !is_line_end(data_of(slots[n as int])),
        rx_error(errors_of(slots[n as int]), 0) is Some,
    ensures
        read_run(slots, buf, 0).0 == Some(
            Err::<usize, RxError>(
                rx_error(errors_of(slots[n as int]), (n + 1) as usize)->Some_0,
            ),
        ),
        forall|i: int|
            0 <= i <= n ==> #[trigger] read_run(slots, buf, 0).1[i] == data_of(slots[i]),
{
    plain_characters_are_stored(slots, buf, 0, n);
    assert(slots.skip(n as int)[0] == slots[n as int]);
}

/// A read into a buffer that is not full yet waits for the end of the line.
pub proof fn unfinished_line_waits(slots: Seq<u16>, buf: Seq<u8>)
    requires
        slots.len() < buf.len(),
        forall|i: int| 0 <= i < slots.len() ==> is_plain(#[trigger] slots[i]),
    ensures
        read_run(slots, buf, 0).0 is None,
{
    plain_characters_are_stored(slots, buf, 0, slots.len());
    assert(slots.skip(slots.len() as int).len() == 0);
}

/// A slot keeps the character and its errors as the data register of the UART has them.
pub proof fn slot_keeps_the_character(character: u32, slot: u16)
    requires
        slot == character % 0x1_0000,
    ensures
        data_of(slot) == character % 0x100,
        errors_of(slot) == character / 0x100 % 0x100,
{
    let low = slot as u32;
    assert(low % 256 == character % 0x100 && low / 256 == character / 0x100 % 0x100)
        by (bit_vector)
        requires
            low == character % 0x1_0000,
    ;
}

/// What the runner does, given whether there are characters each time it asks.
pub open spec fn runner_steps(answers: Seq<bool>) -> Seq<(RxStep, bool)>
    decreases answers.len(),
{
    if answers.len() == 0 {
        Seq::empty()
    } else {
        let before = runner_steps(answers.drop_last());
        let draining = if before.len() == 0 {
            false
        } else {
            before.last().1
        };
        before.push(runner_step(draining, answers.last()))
    }
}

proof fn runner_steps_len(answers: Seq<bool>)
    ensures
        runner_steps(answers).len() == answers.len(),
    decreases answers.len(),
{
    if answers.len() > 0 {
        runner_steps_len(answers.drop_last());
    }
}

/// However the characters come, the runner takes each one that it is told of, and when it
/// finds no more it lets the receive interrupts come again before it waits.
pub proof fn runner_waits_with_interrupts_on(answers: Seq<bool>, i: int)
    requires
        0 <= i < answers.len(),
    ensures
        runner_steps(answers).len() == answers.len(),
        answers[i] <==> runner_steps(answers)[i].0 == RxStep::Transfer,
        !answers[i] ==> (runner_steps(answers)[i].0 == RxStep::Resume(
            irqs_on(UART_INT_RX | UART_INT_RT),
        ) <==> i > 0 && answers[i - 1]),
        !answers[i] && !(i > 0 && answers[i - 1]) ==> runner_steps(answers)[i].0
            == RxStep::Suspend,
    decreases answers.len(),
{
    runner_steps_len(answers);
    runner_steps_len(answers.drop_last());
    if i < answers.len() - 1 {
        runner_waits_with_interrupts_on(answers.drop_last(), i);
        assert(runner_steps(answers)[i] == runner_steps(answers.drop_last())[i]);
    } else if i > 0 {
        let before = answers.drop_last();
        runner_draining(before);
    }
}

proof fn runner_draining(answers: Seq<bool>)
    requires
        answers.len() > 0,
    ensures
        runner_steps(answers).len() == answers.len(),
        runner_steps(answers).last().1 == answers.last(),
{
    runner_steps_len(answers);
}

/// Whether the receive interrupts are on after an operation, if they were before.
pub open spec fn rx_irqs_after(op: Op, on: bool) -> bool {
    match op {
        Op::Call(Call::UartIntEnable { base, flags }) => on || flags == UART_INT_RX | UART_INT_RT,
        Op::Call(Call::UartIntDisable { base, flags }) => on && flags != UART_INT_RX | UART_INT_RT,
        _ => on,
    }
}

/// The interrupt handler turns the receive interrupts off when it wakes the receive task,
/// and what the runner does before it waits turns them on again.
pub proof fn runner_undoes_the_mask(on: bool)
    ensures
        !rx_irqs_after(rx_ready_ops()[0], on),
        rx_irqs_after(irqs_on(UART_INT_RX | UART_INT_RT), on),
{
}

/// After a write, whether it ended with the interrupt or was given up, the UART does not
/// ask for characters, the end of the next transmission raises the interrupt, and all else
/// in the two registers is as it was.
pub proof fn write_leaves_the_channel_idle(
    addr: u32,
    len: u32,
    mis: u32,
    reqdone: u32,
    dmactl: u32,
    donemask: u32,
)
    requires
        bit(reqdone, UART0_TX_CHANNEL),
    ensures
        ({
            let sent = tx_start_ops(addr, len) + interrupt_ops(mis, reqdone) + tx_end_ops();
            &&& stored(sent, UART0_DMACTL, dmactl) == dmactl & !UART0_DMACTL_TXDMAE
            &&& stored(sent, UDMA_DONEMASK, donemask) == donemask & !(1u32 << UART0_TX_CHANNEL)
        }),
        ({
            let dropped = tx_start_ops(addr, len) + tx_abort_ops();
            &&& stored(dropped, UART0_DMACTL, dmactl) == dmactl & !UART0_DMACTL_TXDMAE
            &&& stored(dropped, UDMA_DONEMASK, donemask) == donemask & !(1u32 << UART0_TX_CHANNEL)
        }),
{
    let start = tx_start_ops(addr, len);
    let irq = interrupt_ops(mis, reqdone);
    let k = 1u32 << UART0_TX_CHANNEL;
    let started = (dmactl & !UART0_DMACTL_TXDMAE) | UART0_DMACTL_TXDMAE;
    let stopped = (started & !UART0_DMACTL_TXDMAE) | 0;
    let masked = (donemask & !0) | k;
    assert(stopped == dmactl & !2u32 && ((masked & !k) | 0u32) == donemask & !k && (donemask & !k)
        | 0u32 == donemask & !k) by (bit_vector)
        requires
            started == (dmactl & !2u32) | 2u32,
            stopped == (started & !2u32) | 0u32,
            masked == (donemask & !0u32) | k,
    ;
    tx_effects(addr, len, dmactl, donemask);
    tx_effects(addr, len, started, masked);
    tx_effects(addr, len, stopped, donemask);
    interrupt_effects(mis, reqdone, started, donemask);
    stored_concat(start + irq, tx_end_ops(), UART0_DMACTL, dmactl);
    stored_concat(start, irq, UART0_DMACTL, dmactl);
    stored_concat(start, tx_abort_ops(), UART0_DMACTL, dmactl);
    stored_concat(start + irq, tx_end_ops(), UDMA_DONEMASK, donemask);
    stored_concat(start, irq, UDMA_DONEMASK, donemask);
    stored_concat(start, tx_abort_ops(), UDMA_DONEMASK, donemask);
}

proof fn tx_effects(addr: u32, len: u32, dmactl: u32, donemask: u32)
    ensures
        stored(tx_start_ops(addr, len), UART0_DMACTL, dmactl) == (dmactl & !UART0_DMACTL_TXDMAE)
            | UART0_DMACTL_TXDMAE,
        stored(tx_start_ops(addr, len), UDMA_DONEMASK, donemask) == donemask,
        stored(tx_end_ops(), UART0_DMACTL, dmactl) == dmactl,
        stored(tx_end_ops(), UDMA_DONEMASK, donemask) == (donemask & !(1u32 << UART0_TX_CHANNEL))
            | 0,
        stored(tx_abort_ops(), UART0_DMACTL, dmactl) == (dmactl & !UART0_DMACTL_TXDMAE) | 0,
        stored(tx_abort_ops(), UDMA_DONEMASK, donemask) == (donemask & !(1u32
            << UART0_TX_CHANNEL)) | 0,
{
    reveal_with_fuel(stored, 5);
}

proof fn interrupt_effects(mis: u32, reqdone: u32, dmactl: u32, donemask: u32)
    requires
        bit(reqdone, UART0_TX_CHANNEL),
    ensures
        stored(interrupt_ops(mis, reqdone), UART0_DMACTL, dmactl) == (dmactl
            & !UART0_DMACTL_TXDMAE) | 0,
        stored(interrupt_ops(mis, reqdone), UDMA_DONEMASK, donemask) == (donemask & !0) | (1u32
            << UART0_TX_CHANNEL),
{
    let rx = if mis & UART0_MIS_RXMIS != 0 || mis & UART0_MIS_RTMIS != 0 {
        rx_ready_ops()
    } else {
        Seq::empty()
    };
    reveal_with_fuel(stored, 5);
    assert(interrupt_ops(mis, reqdone) =~= tx_done_ops() + rx);
    stored_concat(tx_done_ops(), rx, UART0_DMACTL, dmactl);
    stored_concat(tx_done_ops(), rx, UDMA_DONEMASK, donemask);
}

/// Once the end of a transmission has been handled, it does not raise the interrupt again
/// until the write has ended.
pub proof fn end_of_transmission_is_handled_once(donemask: u32)
    ensures
        bit(stored(tx_done_ops(), UDMA_DONEMASK, donemask), UART0_TX_CHANNEL),
        !bit(stored(tx_end_ops(), UDMA_DONEMASK, donemask), UART0_TX_CHANNEL),
{
    reveal_with_fuel(stored, 5);
    masking_concerns_one_channel(UART0_TX_CHANNEL, UART0_TX_CHANNEL, donemask);
}

/// Choosing a level sets that level and keeps every other bit of the register.
pub proof fn level_is_selected(level: FIFOFillLevel, ifls: u32)
    ensures
        ({
            let after = stored(rx_interrupts_ops(level), UART0_IFLS, ifls);
            match level.rxsel() {
                Some(sel) => after & UART0_IFLS_RXSEL == sel && after & !UART0_IFLS_RXSEL == ifls
                    & !UART0_IFLS_RXSEL,
                None => after == ifls,
            }
        }),
{
    reveal_with_fuel(stored, 5);
    if let Some(sel) = level.rxsel() {
        assert(((ifls & !0x38u32) | sel) & 0x38 == sel && ((ifls & !0x38u32) | sel) & !0x38u32
            == ifls & !0x38u32) by (bit_vector)
            requires
                sel == 0x00 || sel == 0x08 || sel == 0x10 || sel == 0x18 || sel == 0x20,
        ;
    }
}

/// Whether the UART is enabled after the operations, if it was before. Setting the clock
/// disables it.
pub open spec fn enabled_after(ops: Seq<Op>, enabled: bool) -> bool
    decreases ops.len(),
{
    if ops.len() == 0 {
        enabled
    } else {
        match ops.last() {
            Op::Call(Call::UartEnable { base }) => true,
            Op::Call(Call::UartDisable { base }) => false,
            Op::Call(Call::UartConfigSetExpClk { base, clock, baudrate, config }) => false,
            Op::Modify { addr, clear, set } => if addr == UART0_CTL {
                set == UART0_CTL_UARTEN
            } else {
                enabled_after(ops.drop_last(), enabled)
            },
            _ => enabled_after(ops.drop_last(), enabled),
        }
    }
}

/// Whether the operation changes how the UART works.
pub open spec fn is_setting(op: Op) -> bool {
    match op {
        Op::Call(Call::UartFifoEnable { base }) => true,
        Op::Call(Call::UartHwFlowControlEnable { base }) => true,
        Op::Call(Call::UartHwFlowControlDisable { base }) => true,
        Op::Modify { addr, clear, set } => addr == UART0_IFLS,
        _ => false,
    }
}

/// The UART is disabled whenever its settings change, and enabled in the end.
pub proof fn settings_change_while_disabled(level: FIFOFillLevel, i: int, enabled: bool)
    ensures
        0 <= i < rx_interrupts_ops(level).len() && is_setting(rx_interrupts_ops(level)[i])
            ==> !enabled_after(rx_interrupts_ops(level).take(i), enabled),
        enabled_after(rx_interrupts_ops(level), enabled),
{
    reveal_with_fuel(enabled_after, 5);
    assert(rx_interrupts_ops(level).take(1).last() == rx_interrupts_ops(level)[0]);
}

/// The same holds when the UART is set up.
pub proof fn setup_changes_settings_while_disabled(
    config: Config,
    clock: u32,
    map_addr: u32,
    i: int,
    enabled: bool,
)
    ensures
        0 <= i < initialize_ops(config, clock, map_addr).len() && is_setting(
            initialize_ops(config, clock, map_addr)[i],
        ) ==> !enabled_after(initialize_ops(config, clock, map_addr).take(i), enabled),
        enabled_after(initialize_ops(config, clock, map_addr), enabled),
{
    let ops = initialize_ops(config, clock, map_addr);
    if 0 <= i < ops.len() && is_setting(ops[i]) {
        stays_disabled(ops, 3, i, enabled);
    }
}

proof fn stays_disabled(ops: Seq<Op>, from: int, to: int, enabled: bool)
    requires
        0 <= from < to <= ops.len(),
        ops[from] matches Op::Call(Call::UartConfigSetExpClk { base, clock, baudrate, config }),
        forall|j: int|
            from < j < to ==> !((#[trigger] ops[j]) matches Op::Call(Call::UartEnable { base })),
        forall|j: int|
            from < j < to ==> !((#[trigger] ops[j]) matches Op::Modify { addr, clear, set }
                && addr == UART0_CTL),
    ensures
        !enabled_after(ops.take(to), enabled),
    decreases to,
{
    assert(ops.take(to).last() == ops[to - 1]);
    assert(ops.take(to).drop_last() =~= ops.take(to - 1));
    if to - 1 > from {
        stays_disabled(ops, from, to - 1, enabled);
    }
}

} // verus!
