use embassy_ti_cc2650::chip::{Peripherals, UART0};
use embassy_ti_cc2650::gpio::Pin;
use embassy_ti_cc2650::hw::{Call, Op};
use embassy_ti_cc2650::init;
use embassy_ti_cc2650::prcm::{Clock, Clocks, PowerDomains, Prcm};

fn load() -> Vec<Op> {
    vec![
        Op::Modify { addr: 0x4008_2028, clear: 1, set: 1 },
        Op::WaitSet { addr: 0x4008_2028, mask: 2 },
    ]
}

fn gates(run: u32, value: u32) -> Vec<Op> {
    vec![
        Op::Write { addr: run, value },
        Op::Write { addr: run + 4, value },
        Op::Write { addr: run + 8, value },
    ]
}

#[test]
fn domains_have_their_bits() {
    let bits = |domains: PowerDomains| -> u32 { domains.into() };
    assert_eq!(bits(PowerDomains::empty()), 0);
    assert_eq!(bits(PowerDomains::default()), 0);
    assert_eq!(bits(PowerDomains::empty().rfc()), 0x01);
    assert_eq!(bits(PowerDomains::empty().serial()), 0x02);
    assert_eq!(bits(PowerDomains::empty().peripherals()), 0x04);
    assert_eq!(bits(PowerDomains::empty().sysbus()), 0x08);
    assert_eq!(bits(PowerDomains::empty().vims()), 0x10);
    assert_eq!(bits(PowerDomains::empty().cpu()), 0x20);
    assert_eq!(bits(PowerDomains::all()), 0x3F);
}

#[test]
fn domains_are_added_in_any_order() {
    let a = PowerDomains::empty().serial().cpu().serial();
    let b = PowerDomains::empty().cpu().serial();
    assert_eq!(a, b);
}

#[test]
fn domains_are_powered() {
    let prcm = Prcm::new();
    let domains = PowerDomains::empty().peripherals().serial();
    assert_eq!(
        prcm.enable_domains(domains),
        vec![
            Op::Call(Call::PrcmPowerDomainOn { domains: 6 }),
            Op::WaitPowerOn { domains: 6 },
        ]
    );
    assert_eq!(
        prcm.disable_domains(domains),
        vec![Op::Call(Call::PrcmPowerDomainOff { domains: 6 })]
    );
    assert!(Prcm::are_enabled(1));
    assert!(!Prcm::are_enabled(2));
}

#[test]
fn no_clocks_are_set() {
    assert_eq!(Prcm::new().enable_clocks(Clocks::empty()), load());
    assert_eq!(Prcm::new().enable_clocks(Clocks::default()), load());
    assert_eq!(Clock::disable_clocks(Clocks::empty()), load());
}

#[test]
fn each_clock_has_its_gates() {
    let prcm = Prcm::new();
    let gate = |clocks: Clocks| {
        let ops = prcm.enable_clocks(clocks);
        let n = ops.len() - 2;
        assert_eq!(ops[n..], load()[..]);
        ops[..n].to_vec()
    };
    assert_eq!(gate(Clocks::empty().gpio()), gates(0x4008_2048, 1));
    assert_eq!(gate(Clocks::empty().uart()), gates(0x4008_206C, 1));
    assert_eq!(gate(Clocks::empty().gpt()), gates(0x4008_2054, 1));
    assert_eq!(gate(Clocks::empty().dma()), gates(0x4008_203C, 0x100));
    assert_eq!(gate(Clocks::empty().crypto()), gates(0x4008_203C, 0x001));
    assert_eq!(gate(Clocks::empty().dma().crypto()), gates(0x4008_203C, 0x101));
    assert_eq!(
        gate(Clocks::empty().rfc()),
        vec![Op::Write { addr: 0x4008_202C, value: 1 }]
    );
    assert_eq!(
        gate(Clocks::empty().i2c()),
        vec![Op::Write { addr: 0x4008_2060, value: 1 }]
    );
}

#[test]
fn clocks_are_stopped() {
    let mut expected = gates(0x4008_206C, 0);
    expected.extend(gates(0x4008_203C, 0x001));
    expected.extend(load());
    assert_eq!(Clock::disable_clocks(Clocks::empty().uart().dma()), expected);
}

#[test]
fn radio_mode_is_selected() {
    assert_eq!(
        Prcm::new().rfc_modesel_configure(),
        vec![Op::Write { addr: 0x4008_21D0, value: 5 }]
    );
}

#[test]
fn chip_starts_up() {
    let mut expected = vec![
        Op::Write { addr: 0x4008_21D0, value: 5 },
        Op::Call(Call::PrcmPowerDomainOn { domains: 6 }),
        Op::WaitPowerOn { domains: 6 },
    ];
    expected.extend(gates(0x4008_2048, 1));
    expected.extend(gates(0x4008_206C, 1));
    expected.extend(gates(0x4008_2054, 1));
    expected.extend(gates(0x4008_203C, 0x101));
    expected.push(Op::Write { addr: 0x4008_2060, value: 1 });
    expected.extend(load());
    let mut taken = false;
    let (peripherals, ops) = init(&mut taken);
    assert_eq!(ops, expected);
    assert!(taken);
    assert_eq!(peripherals.P_13.pin(), 13);
    assert_eq!(peripherals.UART0, UART0);
}

#[test]
fn taking_the_peripherals_is_remembered() {
    let mut taken = false;
    let peripherals = Peripherals::take(&mut taken);
    assert!(taken);
    assert_eq!(peripherals.P_00.pin(), 0);
    assert_eq!(peripherals.P_31.pin(), 31);
}
