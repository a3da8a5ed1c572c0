use embassy_ti_cc2650::hw::{modified, Call, Op};
use embassy_ti_cc2650::udma::control_word::{
    ArbitrationSize, DataSize, DstAddrIncrement, SrcAddrIncrement,
};
use embassy_ti_cc2650::udma::{ChannelControlEntry, ChannelControlMap, ControlWord, Primary, Udma};

const BASE: u32 = 0x4002_0000;

#[test]
fn control_word_joins_its_settings() {
    let word = ControlWord {
        data_size: DataSize::Size32,
        src_addr_inc: SrcAddrIncrement::Inc16,
        dst_addr_inc: DstAddrIncrement::Inc32,
        arbitration_size: ArbitrationSize::Arb1024,
    };
    assert_eq!(word.as_u32(), 0xA602_8000);
}

#[test]
fn control_words_differ() {
    let mut words = Vec::new();
    for data_size in [DataSize::Size8, DataSize::Size16, DataSize::Size32] {
        for src_addr_inc in [
            SrcAddrIncrement::Inc8,
            SrcAddrIncrement::Inc16,
            SrcAddrIncrement::Inc32,
            SrcAddrIncrement::IncNone,
        ] {
            for dst_addr_inc in [
                DstAddrIncrement::Inc8,
                DstAddrIncrement::Inc16,
                DstAddrIncrement::Inc32,
                DstAddrIncrement::IncNone,
            ] {
                for arbitration_size in [
                    ArbitrationSize::Arb1,
                    ArbitrationSize::Arb2,
                    ArbitrationSize::Arb4,
                    ArbitrationSize::Arb8,
                    ArbitrationSize::Arb16,
                    ArbitrationSize::Arb32,
                    ArbitrationSize::Arb64,
                    ArbitrationSize::Arb128,
                    ArbitrationSize::Arb256,
                    ArbitrationSize::Arb512,
                    ArbitrationSize::Arb1024,
                ] {
                    let word =
                        ControlWord { data_size, src_addr_inc, dst_addr_inc, arbitration_size };
                    words.push(word.as_u32());
                }
            }
        }
    }
    let count = words.len();
    words.sort();
    words.dedup();
    assert_eq!(words.len(), count);
}

#[test]
fn controller_is_turned_on_and_off() {
    assert_eq!(
        Udma.enable(0x2000_0400),
        vec![
            Op::Write { addr: 0x4002_0008, value: 0x2000_0400 },
            Op::Write { addr: 0x4002_0004, value: 1 },
        ]
    );
    assert_eq!(Udma.disable(), vec![Op::Write { addr: 0x4002_0004, value: 0 }]);
}

#[test]
fn uart_channels_have_their_control_words() {
    assert_eq!(
        Udma.uart_channels_configure(),
        vec![
            Op::Call(Call::UdmaChannelControlSet { base: BASE, index: 1, control: 0x0C01_4000 }),
            Op::Call(Call::UdmaChannelControlSet { base: BASE, index: 2, control: 0xC001_4000 }),
        ]
    );
}

#[test]
fn transfers_go_between_memory_and_the_data_register() {
    assert_eq!(
        Udma.uart_transfer_rx(0x2000_1000, 20),
        vec![
            Op::Call(Call::UdmaChannelTransferSet {
                base: BASE,
                index: 1,
                mode: 1,
                src: 0x4000_1000,
                dest: 0x2000_1000,
                len: 20,
            }),
            Op::Call(Call::UdmaChannelEnable { base: BASE, channel: 1 }),
        ]
    );
    assert_eq!(
        Udma.uart_transfer_tx(0x2000_2000, 30),
        vec![
            Op::Call(Call::UdmaChannelTransferSet {
                base: BASE,
                index: 2,
                mode: 1,
                src: 0x2000_2000,
                dest: 0x4000_1000,
                len: 30,
            }),
            Op::Call(Call::UdmaChannelEnable { base: BASE, channel: 2 }),
        ]
    );
    assert_eq!(
        Udma.uart_disable_rx(),
        Op::Call(Call::UdmaChannelDisable { base: BASE, channel: 1 })
    );
    assert_eq!(
        Udma.uart_disable_tx(),
        Op::Call(Call::UdmaChannelDisable { base: BASE, channel: 2 })
    );
}

#[test]
fn done_requests_are_told_apart() {
    assert!(Udma.uart_request_done_rx(0b010));
    assert!(!Udma.uart_request_done_rx(0b101));
    assert!(Udma.uart_request_done_tx(0b100));
    assert!(!Udma.uart_request_done_tx(0b011));
}

#[test]
fn done_requests_are_masked_unmasked_and_cleared() {
    let mask = 0x4002_0520;
    let done = 0x4002_0504;
    assert_eq!(Udma.uart_request_done_rx_mask(), Op::Modify { addr: mask, clear: 0, set: 2 });
    assert_eq!(Udma.uart_request_done_rx_unmask(), Op::Modify { addr: mask, clear: 2, set: 0 });
    assert_eq!(Udma.uart_request_done_rx_clear(), Op::Write { addr: done, value: 2 });
    assert_eq!(Udma.uart_request_done_tx_mask(), Op::Modify { addr: mask, clear: 0, set: 4 });
    assert_eq!(Udma.uart_request_done_tx_unmask(), Op::Modify { addr: mask, clear: 4, set: 0 });
    assert_eq!(Udma.uart_request_done_tx_clear(), Op::Write { addr: done, value: 4 });
}

#[test]
fn a_software_request_names_its_channel() {
    let entry = ChannelControlEntry::<Primary, 0>::new();
    assert_eq!(entry.software_request(), Op::Write { addr: 0x4002_0014, value: 1 });
    let entry = ChannelControlEntry::<Primary, 20>::new();
    assert_eq!(entry.software_request(), Op::Write { addr: 0x4002_0014, value: 1 << 20 });
}

#[test]
fn destination_is_read_from_the_map() {
    let mut map = ChannelControlMap::new();
    assert_eq!(Udma.uart_dest_addr_rx_get(&map), 0);
    map.primary_channel_1.dest_end_ptr = 0x2000_1234;
    map.primary_channel_2.dest_end_ptr = 1;
    assert_eq!(Udma.uart_dest_addr_rx_get(&map), 0x2000_1234);
}

#[test]
fn a_modification_clears_sets_and_keeps() {
    assert_eq!(modified(0b1100, 0b0100, 0b0001), 0b1001);
    assert_eq!(modified(0xFFFF_FFFF, 0, 0), 0xFFFF_FFFF);
    assert_eq!(modified(0, 0xF, 0xF), 0xF);
}
