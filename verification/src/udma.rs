//! UDMA support.
//!
//! How the controller works:
//! - each channel has 2 priorities: high and low.
//! - `arbitration size` means how many elements are sent before a new channel selection occurs
//! - `burst` vs `single` transfer: burst sends multiple in a batch, it is not interruptible
//!     - in case of UART burst threshold should be configured (e.g. 1/2 * 32) as the same as
//!       arbitration size (16)
//!     - `single` can be turned off using UDMA:SETBURST.
//! - apart from powering on and turning on clock gating, the controller must be turned on
//! - DMA generates interrupts for peripherals, so their own interrupt triggers should be turned off
//!   if DMA is in use.
use crate::driverlib::{UDMA0_BASE, UDMA_MODE_BASIC, UDMA_PRI_SELECT};
use crate::hw::{bit, stored_by, Call, Op};
use crate::regs::{
    UART0_DR, UDMA_CFG, UDMA_CFG_MASTERENABLE, UDMA_CTRL, UDMA_DONEMASK, UDMA_REQDONE, UDMA_SOFTREQ,
};
use crate::udma::control_word::{ArbitrationSize, DataSize, DstAddrIncrement, SrcAddrIncrement};
use std::marker::PhantomData;
use vstd::prelude::*;

pub mod control_word;

pub use crate::udma::control_word::ControlWord;

verus! {

/// The channel that fills memory from UART 0.
pub const UART0_RX_CHANNEL: u32 = 1;

/// The channel that feeds UART 0 from memory.
pub const UART0_TX_CHANNEL: u32 = 2;

/// The kind of a channel control entry.
pub trait ChannelControlEntryKind {

}

/// A primary entry.
pub struct Primary;

impl ChannelControlEntryKind for Primary {

}

/// Control data of one channel.
pub struct ChannelControlEntry<KIND: ChannelControlEntryKind, const INDEX: u32> {
    pub src_end_ptr: u32,
    pub dest_end_ptr: u32,
    pub control_word: u32,
    pub _unused: u32,
    pub _phantom: PhantomData<KIND>,
}

impl<const INDEX: u32> ChannelControlEntry<Primary, INDEX> {
    /// Requests a transfer by software.
    pub fn software_request(&self) -> (op: Op)
        requires
            INDEX < 32,
        ensures
            op == (Op::Write { addr: UDMA_SOFTREQ, value: 1u32 << INDEX }),
    {
        Op::Write { addr: UDMA_SOFTREQ, value: 1u32 << INDEX }
    }

    /// Whether the transfer is done, from what the register of done requests reads.
    pub fn is_request_done(&self, reqdone: u32) -> (r: bool)
        requires
            INDEX < 32,
        ensures
            r == bit(reqdone, INDEX),
    {
        reqdone & (1u32 << INDEX) != 0
    }

    /// Clears the channel in the register of done requests.
    pub fn request_done_clear(&self) -> (op: Op)
        requires
            INDEX < 32,
        ensures
            op == (Op::Write { addr: UDMA_REQDONE, value: 1u32 << INDEX }),
    {
        Op::Write { addr: UDMA_REQDONE, value: 1u32 << INDEX }
    }

    /// Keeps a done request of the channel from raising the interrupt.
    pub fn request_done_mask(&self) -> (op: Op)
        requires
            INDEX < 32,
        ensures
            op == (Op::Modify { addr: UDMA_DONEMASK, clear: 0, set: 1u32 << INDEX }),
    {
        Op::Modify { addr: UDMA_DONEMASK, clear: 0, set: 1u32 << INDEX }
    }

    /// Lets a done request of the channel raise the interrupt.
    pub fn request_done_unmask(&self) -> (op: Op)
        requires
            INDEX < 32,
        ensures
            op == (Op::Modify { addr: UDMA_DONEMASK, clear: 1u32 << INDEX, set: 0 }),
    {
        Op::Modify { addr: UDMA_DONEMASK, clear: 1u32 << INDEX, set: 0 }
    }
}

impl<KIND: ChannelControlEntryKind, const INDEX: u32> ChannelControlEntry<KIND, INDEX> {
    /// Whether the entry describes no transfer.
    pub open spec fn is_clear(self) -> bool {
        self.src_end_ptr == 0 && self.dest_end_ptr == 0 && self.control_word == 0 && self._unused
            == 0
    }

    /// An entry without a transfer.
    pub fn new() -> (r: Self)
        ensures
            r.is_clear(),
    {
        Self {
            src_end_ptr: 0,
            dest_end_ptr: 0,
            control_word: 0,
            _unused: 0,
            _phantom: PhantomData,
        }
    }

    /// Sets up a basic transfer of `len` elements.
    pub fn set_transfer(&self, src: u32, dest: u32, len: u32) -> (op: Op)
        ensures
            op == transfer_op(INDEX, src, dest, len),
    {
        Op::Call(
            Call::UdmaChannelTransferSet {
                base: UDMA0_BASE,
                index: INDEX,
                mode: UDMA_MODE_BASIC,
                src,
                dest,
                len,
            },
        )
    }
}

/// Sets up a basic transfer of `len` elements.
pub open spec fn transfer_op(index: u32, src: u32, dest: u32, len: u32) -> Op {
    Op::Call(
        Call::UdmaChannelTransferSet {
            base: UDMA0_BASE,
            index,
            mode: UDMA_MODE_BASIC,
            src,
            dest,
            len,
        },
    )
}

/// Control data of the channels in use.
pub struct ChannelControlMap {
    /// Software 0
    pub primary_channel_0: ChannelControlEntry<Primary, 0>,
    /// UART0_RX
    pub primary_channel_1: ChannelControlEntry<Primary, 1>,
    /// UART0_TX
    pub primary_channel_2: ChannelControlEntry<Primary, 2>,
}

impl ChannelControlMap {
    /// A map without transfers.
    pub fn new() -> (r: Self)
        ensures
            r.primary_channel_0.is_clear(),
            r.primary_channel_1.is_clear(),
            r.primary_channel_2.is_clear(),
    {
        Self {
            primary_channel_0: ChannelControlEntry::new(),
            primary_channel_1: ChannelControlEntry::new(),
            primary_channel_2: ChannelControlEntry::new(),
        }
    }
}

/// On receive, uDMA repeatedly reads 8 bits from DR (no increment) and writes them to the
/// destination (increment).
pub open spec fn rx_control() -> ControlWord {
    ControlWord {
        data_size: DataSize::Size8,
        src_addr_inc: SrcAddrIncrement::IncNone,
        dst_addr_inc: DstAddrIncrement::Inc8,
        arbitration_size: ArbitrationSize::Arb32,
    }
}

/// On send, uDMA repeatedly reads 8 bits from the source (increment) and writes them to
/// DR (no increment).
pub open spec fn tx_control() -> ControlWord {
    ControlWord {
        data_size: DataSize::Size8,
        src_addr_inc: SrcAddrIncrement::Inc8,
        dst_addr_inc: DstAddrIncrement::IncNone,
        arbitration_size: ArbitrationSize::Arb32,
    }
}

/// The operations that configure the channels of UART 0.
pub open spec fn configure_ops() -> Seq<Op> {
    seq![
        Op::Call(
            Call::UdmaChannelControlSet {
                base: UDMA0_BASE,
                index: UDMA_PRI_SELECT | UART0_RX_CHANNEL,
                control: rx_control().word(),
            },
        ),
        Op::Call(
            Call::UdmaChannelControlSet {
                base: UDMA0_BASE,
                index: UDMA_PRI_SELECT | UART0_TX_CHANNEL,
                control: tx_control().word(),
            },
        ),
    ]
}

/// Stops a channel.
pub open spec fn channel_disable_op(channel: u32) -> Op {
    Op::Call(Call::UdmaChannelDisable { base: UDMA0_BASE, channel })
}

/// Starts a channel.
pub open spec fn channel_enable_op(channel: u32) -> Op {
    Op::Call(Call::UdmaChannelEnable { base: UDMA0_BASE, channel })
}

/// The micro DMA controller.
pub struct Udma;

impl Udma {
    /// The entry of the channel that is fed by UART 0, without a transfer.
    fn uart0_rx() -> (r: ChannelControlEntry<Primary, 1>)
        ensures
            r.is_clear(),
    {
        ChannelControlEntry::new()
    }

    /// The entry of the channel that feeds UART 0, without a transfer.
    fn uart0_tx() -> (r: ChannelControlEntry<Primary, 2>)
        ensures
            r.is_clear(),
    {
        ChannelControlEntry::new()
    }

    /// Turns the controller on, with its control data at `map_addr`.
    pub fn enable(&self, map_addr: u32) -> (ops: Vec<Op>)
        ensures
            ops@ == seq![
                Op::Write { addr: UDMA_CTRL, value: map_addr },
                Op::Write { addr: UDMA_CFG, value: UDMA_CFG_MASTERENABLE },
            ],
    {
        vec![
            // Set the pointer to the channel control map.
            Op::Write { addr: UDMA_CTRL, value: map_addr },
            Op::Write { addr: UDMA_CFG, value: UDMA_CFG_MASTERENABLE },
        ]
    }

    /// Turns the controller off.
    pub fn disable(&self) -> (ops: Vec<Op>)
        ensures
            ops@ == seq![Op::Write { addr: UDMA_CFG, value: 0 }],
    {
        vec![Op::Write { addr: UDMA_CFG, value: 0 }]
    }

    /// Stops the channel that feeds UART 0.
    pub fn uart_disable_tx(&self) -> (op: Op)
        ensures
            op == channel_disable_op(UART0_TX_CHANNEL),
    {
        Op::Call(Call::UdmaChannelDisable { base: UDMA0_BASE, channel: UART0_TX_CHANNEL })
    }

    /// Stops the channel that is fed by UART 0.
    pub fn uart_disable_rx(&self) -> (op: Op)
        ensures
            op == channel_disable_op(UART0_RX_CHANNEL),
    {
        Op::Call(Call::UdmaChannelDisable { base: UDMA0_BASE, channel: UART0_RX_CHANNEL })
    }

    /// Configures the channels of UART 0.
    pub fn uart_channels_configure(&self) -> (ops: Vec<Op>)
        ensures
            ops@ == configure_ops(),
    {
        let rx: ControlWord = ControlWord {
            data_size: DataSize::Size8,
            src_addr_inc: SrcAddrIncrement::IncNone,
            dst_addr_inc: DstAddrIncrement::Inc8,
            arbitration_size: ArbitrationSize::Arb32,
        };
        let tx: ControlWord = ControlWord {
            data_size: DataSize::Size8,
            src_addr_inc: SrcAddrIncrement::Inc8,
            dst_addr_inc: DstAddrIncrement::IncNone,
            arbitration_size: ArbitrationSize::Arb32,
        };
        vec![
            Op::Call(
                Call::UdmaChannelControlSet {
                    base: UDMA0_BASE,
                    index: UDMA_PRI_SELECT | UART0_RX_CHANNEL,
                    control: rx.as_u32(),
                },
            ),
            Op::Call(
                Call::UdmaChannelControlSet {
                    base: UDMA0_BASE,
                    index: UDMA_PRI_SELECT | UART0_TX_CHANNEL,
                    control: tx.as_u32(),
                },
            ),
        ]
    }

    /// Starts a transfer from UART 0 to the `len` bytes at `mem`.
    pub fn uart_transfer_rx(&self, mem: u32, len: u32) -> (ops: Vec<Op>)
        ensures
            ops@ == seq![
                transfer_op(UART0_RX_CHANNEL, UART0_DR, mem, len),
                channel_enable_op(UART0_RX_CHANNEL),
            ],
    {
        vec![
            Self::uart0_rx().set_transfer(UART0_DR, mem, len),
            Op::Call(Call::UdmaChannelEnable { base: UDMA0_BASE, channel: UART0_RX_CHANNEL }),
        ]
    }

    /// Starts a transfer from the `len` bytes at `mem` to UART 0.
    pub fn uart_transfer_tx(&self, mem: u32, len: u32) -> (ops: Vec<Op>)
        ensures
            ops@ == seq![
                transfer_op(UART0_TX_CHANNEL, mem, UART0_DR, len),
                channel_enable_op(UART0_TX_CHANNEL),
            ],
    {
        vec![
            Self::uart0_tx().set_transfer(mem, UART0_DR, len),
            Op::Call(Call::UdmaChannelEnable { base: UDMA0_BASE, channel: UART0_TX_CHANNEL }),
        ]
    }

    /// Whether the transfer from UART 0 is done.
    pub fn uart_request_done_rx(&self, reqdone: u32) -> (r: bool)
        ensures
            r == bit(reqdone, UART0_RX_CHANNEL),
    {
        Self::uart0_rx().is_request_done(reqdone)
    }

    /// Whether the transfer to UART 0 is done.
    pub fn uart_request_done_tx(&self, reqdone: u32) -> (r: bool)
        ensures
            r == bit(reqdone, UART0_TX_CHANNEL),
    {
        Self::uart0_tx().is_request_done(reqdone)
    }

    /// Keeps the end of a transfer from UART 0 from raising the interrupt.
    pub fn uart_request_done_rx_mask(&self) -> (op: Op)
        ensures
            op == mask_op(UART0_RX_CHANNEL),
    {
        Self::uart0_rx().request_done_mask()
    }

    /// Lets the end of a transfer from UART 0 raise the interrupt.
    pub fn uart_request_done_rx_unmask(&self) -> (op: Op)
        ensures
            op == unmask_op(UART0_RX_CHANNEL),
    {
        Self::uart0_rx().request_done_unmask()
    }

    /// Forgets the end of a transfer from UART 0.
    pub fn uart_request_done_rx_clear(&self) -> (op: Op)
        ensures
            op == done_clear_op(UART0_RX_CHANNEL),
    {
        Self::uart0_rx().request_done_clear()
    }

    /// Keeps the end of a transfer to UART 0 from raising the interrupt.
    pub fn uart_request_done_tx_mask(&self) -> (op: Op)
        ensures
            op == mask_op(UART0_TX_CHANNEL),
    {
        Self::uart0_tx().request_done_mask()
    }

    /// Lets the end of a transfer to UART 0 raise the interrupt.
    pub fn uart_request_done_tx_unmask(&self) -> (op: Op)
        ensures
            op == unmask_op(UART0_TX_CHANNEL),
    {
        Self::uart0_tx().request_done_unmask()
    }

    /// Forgets the end of a transfer to UART 0.
    pub fn uart_request_done_tx_clear(&self) -> (op: Op)
        ensures
            op == done_clear_op(UART0_TX_CHANNEL),
    {
        Self::uart0_tx().request_done_clear()
    }

    /// The destination of the transfer from UART 0; to be used only while the channel is
    /// stopped.
    pub fn uart_dest_addr_rx_get(&self, map: &ChannelControlMap) -> (r: u32)
        ensures
            r == map.primary_channel_1.dest_end_ptr,
    {
        map.primary_channel_1.dest_end_ptr
    }
}

/// Keeps the end of a channel's transfer from raising the interrupt.
pub open spec fn mask_op(channel: u32) -> Op {
    Op::Modify { addr: UDMA_DONEMASK, clear: 0, set: 1u32 << channel }
}

/// Lets the end of a channel's transfer raise the interrupt.
pub open spec fn unmask_op(channel: u32) -> Op {
    Op::Modify { addr: UDMA_DONEMASK, clear: 1u32 << channel, set: 0 }
}

/// Forgets the end of a channel's transfer.
pub open spec fn done_clear_op(channel: u32) -> Op {
    Op::Write { addr: UDMA_REQDONE, value: 1u32 << channel }
}

/// What the register of done requests reads after an operation, if it read `reqdone` before:
/// a one that is written to it clears the channel.
pub open spec fn done_after(op: Op, reqdone: u32) -> u32 {
    match op {
        Op::Write { addr, value } => if addr == UDMA_REQDONE {
            reqdone & !value
        } else {
            reqdone
        },
        _ => reqdone,
    }
}

/// Masking and unmasking a channel change its own bit of the mask, and no other.
pub proof fn masking_concerns_one_channel(channel: u32, other: u32, v: u32)
    requires
        channel < 32,
        other < 32,
    ensures
        bit(stored_by(mask_op(channel), UDMA_DONEMASK, v), other) == (other == channel
            || bit(v, other)),
        bit(stored_by(unmask_op(channel), UDMA_DONEMASK, v), other) == (other != channel
            && bit(v, other)),
{
    let a = (v & !0u32) | (1u32 << channel);
    let b = (v & !(1u32 << channel)) | 0u32;
    assert((a & (1u32 << other) != 0) == (other == channel || v & (1u32 << other) != 0) && (b & (1u32
        << other) != 0) == (other != channel && v & (1u32 << other) != 0)) by (bit_vector)
        requires
            a == (v & !0u32) | (1u32 << channel),
            b == (v & !(1u32 << channel)) | 0u32,
            channel < 32,
            other < 32,
    ;
}

/// Forgetting the end of a channel's transfer leaves that of every other channel.
pub proof fn clearing_concerns_one_channel(channel: u32, other: u32, reqdone: u32)
    requires
        channel < 32,
        other < 32,
    ensures
        bit(done_after(done_clear_op(channel), reqdone), other) == (other != channel && bit(
            reqdone,
            other,
        )),
{
    let a = reqdone & !(1u32 << channel);
    assert((a & (1u32 << other) != 0) == (other != channel && reqdone & (1u32 << other) != 0))
        by (bit_vector)
        requires
            a == reqdone & !(1u32 << channel),
            channel < 32,
            other < 32,
    ;
}

} // verus!
