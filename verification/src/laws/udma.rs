//! Laws of the micro DMA controller.
use crate::hw::{bit, Call, Op};
use crate::laws::bits::{flags_are_joined, one_bit_is_set, powers_of_two};
use crate::regs::{UDMA_CFG, UDMA_CTRL, UDMA_DONEMASK, UDMA_REQDONE, UDMA_SOFTREQ};
use crate::udma::control_word::{
    settings_do_not_overlap, ArbitrationSize, DataSize, DstAddrIncrement, SrcAddrIncrement,
};
use crate::udma::{ChannelControlEntry, ChannelControlMap, ControlWord, Primary, Udma};
use vstd::prelude::*;

verus! {

/// The controller is told where its control data is, and then turned on; or turned off.
pub proof fn controller_is_turned_on_and_off(udma: Udma, map: u32, on: Vec<Op>, off: Vec<Op>)
    requires
        call_ensures(Udma::enable, (&udma, map), on),
        call_ensures(Udma::disable, (&udma,), off),
    ensures
        on@.len() == 2,
        on@[0] == (Op::Write { addr: UDMA_CTRL, value: map }),
        on@[1] == (Op::Write { addr: UDMA_CFG, value: 1 }),
        off@.len() == 1,
        off@[0] == (Op::Write { addr: UDMA_CFG, value: 0 }),
{
}

/// Whether the operations move bytes by a channel: the transfer is set up, and the channel is
/// turned on after that.
pub open spec fn moves(ops: Seq<Op>, channel: u32, from: u32, to: u32, bytes: u32) -> bool {
    &&& ops.len() == 2
    &&& ops[0] matches Op::Call(
        Call::UdmaChannelTransferSet { base, index, mode, src, dest, len },
    ) && base == 0x4002_0000 && index == channel && mode == 1 && src == from && dest == to && len
        == bytes
    &&& ops[1] == Op::Call(Call::UdmaChannelEnable { base: 0x4002_0000, channel })
}

/// Reception moves bytes from the data register of the UART to memory, and transmission moves
/// them the other way.
pub proof fn transfers_have_their_directions(
    udma: Udma,
    mem: u32,
    len: u32,
    rx: Vec<Op>,
    tx: Vec<Op>,
)
    requires
        call_ensures(Udma::uart_transfer_rx, (&udma, mem, len), rx),
        call_ensures(Udma::uart_transfer_tx, (&udma, mem, len), tx),
    ensures
        moves(rx@, 1, 0x4000_1000, mem, len),
        moves(tx@, 2, mem, 0x4000_1000, len),
{
}

/// A transfer of an entry has the entry's number and what it was given.
pub proof fn transfer_is_what_was_asked_for<const INDEX: u32>(
    entry: ChannelControlEntry<Primary, INDEX>,
    from: u32,
    to: u32,
    bytes: u32,
    op: Op,
)
    requires
        call_ensures(
            ChannelControlEntry::<Primary, INDEX>::set_transfer,
            (&entry, from, to, bytes),
            op,
        ),
    ensures
        op matches Op::Call(Call::UdmaChannelTransferSet { base, index, mode, src, dest, len })
            && base == 0x4002_0000 && index == INDEX && mode == 1 && src == from && dest == to
            && len == bytes,
{
}

/// A transfer is done when the bit of its channel says so.
pub proof fn channels_are_told_apart(udma: Udma, reqdone: u32, rx: bool, tx: bool)
    requires
        call_ensures(Udma::uart_request_done_rx, (&udma, reqdone), rx),
        call_ensures(Udma::uart_request_done_tx, (&udma, reqdone), tx),
    ensures
        rx == (reqdone & 2 != 0),
        tx == (reqdone & 4 != 0),
{
    powers_of_two();
}

/// What concerns one channel concerns no other: its request, and its bit among the done ones,
/// which is cleared by writing a one.
pub proof fn entry_concerns_its_channel<const INDEX: u32>(
    entry: ChannelControlEntry<Primary, INDEX>,
    reqdone: u32,
    request: Op,
    done: bool,
    clear: Op,
    mask: Op,
    unmask: Op,
    other: u32,
)
    requires
        INDEX < 32,
        other < 32,
        call_ensures(ChannelControlEntry::<Primary, INDEX>::software_request, (&entry,), request),
        call_ensures(
            ChannelControlEntry::<Primary, INDEX>::is_request_done,
            (&entry, reqdone),
            done,
        ),
        call_ensures(ChannelControlEntry::<Primary, INDEX>::request_done_clear, (&entry,), clear),
        call_ensures(ChannelControlEntry::<Primary, INDEX>::request_done_mask, (&entry,), mask),
        call_ensures(
            ChannelControlEntry::<Primary, INDEX>::request_done_unmask,
            (&entry,),
            unmask,
        ),
    ensures
        request matches Op::Write { addr, value } && addr == UDMA_SOFTREQ && bit(value, other) == (
        other == INDEX),
        done == (reqdone & (1u32 << INDEX) != 0),
        clear matches Op::Write { addr, value } && addr == UDMA_REQDONE && bit(value, other) == (
        other == INDEX),
        mask matches Op::Modify { addr, clear, set } && addr == UDMA_DONEMASK && clear == 0 && bit(
            set,
            other,
        ) == (other == INDEX),
        unmask matches Op::Modify { addr, clear, set } && addr == UDMA_DONEMASK && set == 0 && bit(
            clear,
            other,
        ) == (other == INDEX),
{
    one_bit_is_set(INDEX, other);
}

/// The destination that is read is that of reception.
pub proof fn destination_is_that_of_reception(udma: Udma, map: ChannelControlMap, r: u32)
    requires
        call_ensures(Udma::uart_dest_addr_rx_get, (&udma, &map), r),
    ensures
        r == map.primary_channel_1.dest_end_ptr,
{
}

/// How many bytes an element has.
pub open spec fn element_bytes(size: DataSize) -> u32 {
    match size {
        DataSize::Size8 => 1,
        DataSize::Size16 => 2,
        DataSize::Size32 => 4,
    }
}

/// By how many bytes the source address grows.
pub open spec fn src_bytes(inc: SrcAddrIncrement) -> u32 {
    match inc {
        SrcAddrIncrement::Inc8 => 1,
        SrcAddrIncrement::Inc16 => 2,
        SrcAddrIncrement::Inc32 => 4,
        SrcAddrIncrement::IncNone => 0,
    }
}

/// By how many bytes the destination address grows.
pub open spec fn dst_bytes(inc: DstAddrIncrement) -> u32 {
    match inc {
        DstAddrIncrement::Inc8 => 1,
        DstAddrIncrement::Inc16 => 2,
        DstAddrIncrement::Inc32 => 4,
        DstAddrIncrement::IncNone => 0,
    }
}

/// After how many elements the channels are chosen anew.
pub open spec fn elements(size: ArbitrationSize) -> u32 {
    match size {
        ArbitrationSize::Arb1 => 1,
        ArbitrationSize::Arb2 => 2,
        ArbitrationSize::Arb4 => 4,
        ArbitrationSize::Arb8 => 8,
        ArbitrationSize::Arb16 => 16,
        ArbitrationSize::Arb32 => 32,
        ArbitrationSize::Arb64 => 64,
        ArbitrationSize::Arb128 => 128,
        ArbitrationSize::Arb256 => 256,
        ArbitrationSize::Arb512 => 512,
        ArbitrationSize::Arb1024 => 1024,
    }
}

/// The controller reads each setting back from the control word: sizes as powers of two, the
/// element's size twice, and an address that stays as the last code.
pub proof fn control_word_tells_its_settings(w: ControlWord, r: u32)
    requires
        call_ensures(ControlWord::as_u32, (&w,), r),
    ensures
        1u32 << ((r >> 24) & 3) == element_bytes(w.data_size),
        1u32 << ((r >> 28) & 3) == element_bytes(w.data_size),
        if src_bytes(w.src_addr_inc) == 0 {
            (r >> 26) & 3 == 3
        } else {
            1u32 << ((r >> 26) & 3) == src_bytes(w.src_addr_inc)
        },
        if dst_bytes(w.dst_addr_inc) == 0 {
            (r >> 30) & 3 == 3
        } else {
            1u32 << ((r >> 30) & 3) == dst_bytes(w.dst_addr_inc)
        },
        1u32 << ((r >> 14) & 0xF) == elements(w.arbitration_size),
        r & !0xFF03_C000u32 == 0,
{
    settings_do_not_overlap(w);
    let size = r & 0x3300_0000;
    let src = r & 0x0C00_0000;
    let dst = r & 0xC000_0000;
    let arb = r & 0x0003_C000;
    let bytes = element_bytes(w.data_size);
    let from = src_bytes(w.src_addr_inc);
    let to = dst_bytes(w.dst_addr_inc);
    let count = elements(w.arbitration_size);
    let a = w.data_size.word();
    let b = w.src_addr_inc.word();
    let c = w.dst_addr_inc.word();
    let d = w.arbitration_size.word();
    assert(1u32 << ((r >> 24) & 3) == bytes && 1u32 << ((r >> 28) & 3) == bytes && (if from == 0 {
        (r >> 26) & 3 == 3
    } else {
        1u32 << ((r >> 26) & 3) == from
    }) && (if to == 0 {
        (r >> 30) & 3 == 3
    } else {
        1u32 << ((r >> 30) & 3) == to
    }) && 1u32 << ((r >> 14) & 0xF) == count && r & !0xFF03_C000u32 == 0) by (bit_vector)
        requires
            r == a | b | c | d,
            size == r & 0x3300_0000,
            size == a,
            src == r & 0x0C00_0000,
            src == b,
            dst == r & 0xC000_0000,
            dst == c,
            arb == r & 0x0003_C000,
            arb == d,
            (size == 0 && bytes == 1) || (size == 0x1100_0000 && bytes == 2) || (size
                == 0x2200_0000 && bytes == 4),
            (src == 0 && from == 1) || (src == 0x0400_0000 && from == 2) || (src == 0x0800_0000
                && from == 4) || (src == 0x0C00_0000 && from == 0),
            (dst == 0 && to == 1) || (dst == 0x4000_0000 && to == 2) || (dst == 0x8000_0000 && to
                == 4) || (dst == 0xC000_0000 && to == 0),
            (arb == 0 && count == 1) || (arb == 0x4000 && count == 2) || (arb == 0x8000 && count
                == 4) || (arb == 0xC000 && count == 8) || (arb == 0x1_0000 && count == 16) || (arb
                == 0x1_4000 && count == 32) || (arb == 0x1_8000 && count == 64) || (arb == 0x1_C000
                && count == 128) || (arb == 0x2_0000 && count == 256) || (arb == 0x2_4000 && count
                == 512) || (arb == 0x2_8000 && count == 1024),
    ;
}

/// A setting by itself is its part of the control word.
pub proof fn settings_are_parts_of_the_word(
    w: ControlWord,
    r: u32,
    a: u32,
    b: u32,
    c: u32,
    d: u32,
)
    requires
        call_ensures(ControlWord::as_u32, (&w,), r),
        call_ensures(DataSize::bits, (w.data_size,), a),
        call_ensures(SrcAddrIncrement::bits, (w.src_addr_inc,), b),
        call_ensures(DstAddrIncrement::bits, (w.dst_addr_inc,), c),
        call_ensures(ArbitrationSize::bits, (w.arbitration_size,), d),
    ensures
        a == r & 0x3300_0000,
        b == r & 0x0C00_0000,
        c == r & 0xC000_0000,
        d == r & 0x0003_C000,
{
    settings_do_not_overlap(w);
}

/// A new map holds no transfer.
pub proof fn new_map_is_clear(map: ChannelControlMap)
    requires
        call_ensures(ChannelControlMap::new, (), map),
    ensures
        map.primary_channel_0.src_end_ptr == 0,
        map.primary_channel_0.dest_end_ptr == 0,
        map.primary_channel_0.control_word == 0,
        map.primary_channel_1.src_end_ptr == 0,
        map.primary_channel_1.dest_end_ptr == 0,
        map.primary_channel_1.control_word == 0,
        map.primary_channel_2.src_end_ptr == 0,
        map.primary_channel_2.dest_end_ptr == 0,
        map.primary_channel_2.control_word == 0,
{
}

/// The channels of the UART are set up apart from each other. Each moves single bytes, 32 at a
/// time; on reception only the destination grows, on transmission only the source.
pub proof fn channels_move_bytes(udma: Udma, ops: Vec<Op>)
    requires
        call_ensures(Udma::uart_channels_configure, (&udma,), ops),
    ensures
        ops@.len() == 2,
        ops@[0] == Op::Call(
            Call::UdmaChannelControlSet { base: 0x4002_0000, index: 1, control: 0x0C01_4000 },
        ),
        ops@[1] == Op::Call(
            Call::UdmaChannelControlSet { base: 0x4002_0000, index: 2, control: 0xC001_4000 },
        ),
{
    flags_are_joined();
}

/// Stopping, masking, unmasking and forgetting concern reception by channel 1.
pub proof fn reception_is_channel_1(
    udma: Udma,
    disable: Op,
    mask: Op,
    unmask: Op,
    clear: Op,
)
    requires
        call_ensures(Udma::uart_disable_rx, (&udma,), disable),
        call_ensures(Udma::uart_request_done_rx_mask, (&udma,), mask),
        call_ensures(Udma::uart_request_done_rx_unmask, (&udma,), unmask),
        call_ensures(Udma::uart_request_done_rx_clear, (&udma,), clear),
    ensures
        disable == Op::Call(Call::UdmaChannelDisable { base: 0x4002_0000, channel: 1 }),
        mask == (Op::Modify { addr: UDMA_DONEMASK, clear: 0, set: 2 }),
        unmask == (Op::Modify { addr: UDMA_DONEMASK, clear: 2, set: 0 }),
        clear == (Op::Write { addr: UDMA_REQDONE, value: 2 }),
{
    powers_of_two();
}

/// Stopping, masking, unmasking and forgetting concern transmission by channel 2.
pub proof fn transmission_is_channel_2(
    udma: Udma,
    disable: Op,
    mask: Op,
    unmask: Op,
    clear: Op,
)
    requires
        call_ensures(Udma::uart_disable_tx, (&udma,), disable),
        call_ensures(Udma::uart_request_done_tx_mask, (&udma,), mask),
        call_ensures(Udma::uart_request_done_tx_unmask, (&udma,), unmask),
        call_ensures(Udma::uart_request_done_tx_clear, (&udma,), clear),
    ensures
        disable == Op::Call(Call::UdmaChannelDisable { base: 0x4002_0000, channel: 2 }),
        mask == (Op::Modify { addr: UDMA_DONEMASK, clear: 0, set: 4 }),
        unmask == (Op::Modify { addr: UDMA_DONEMASK, clear: 4, set: 0 }),
        clear == (Op::Write { addr: UDMA_REQDONE, value: 4 }),
{
    powers_of_two();
}

} // verus!
