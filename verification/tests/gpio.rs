use embassy_ti_cc2650::chip::{P_00, P_13, P_31};
use embassy_ti_cc2650::gpio::{AnyPin, GPIOPin, Input, Level, Output, Pin, Pull};
use embassy_ti_cc2650::hw::{Call, Op};

/// The output register as the set and clear registers drive it.
fn drive(dout: u32, ops: &[Op]) -> u32 {
    let mut dout = dout;
    for op in ops {
        match op {
            Op::Write { addr: 0x4002_2090, value } => dout |= value,
            Op::Write { addr: 0x4002_20A0, value } => dout &= !value,
            _ => (),
        }
    }
    dout
}

#[test]
fn pins_have_their_port_numbers() {
    assert_eq!(P_00.pin(), 0);
    assert_eq!(P_13.pin(), 13);
    assert_eq!(P_31.pin_port(), 31);
    assert_eq!(AnyPin::of(P_13).pin(), 13);
    assert_eq!(AnyPin::of(AnyPin::of(P_31)).pin_port(), 31);
}

#[test]
fn pin_mask_is_one_bit() {
    assert_eq!(GPIOPin::new(P_00).pin_mask(), 1);
    assert_eq!(GPIOPin::new(P_13).pin_mask(), 0x2000);
    assert_eq!(GPIOPin::new(P_31).pin_mask(), 0x8000_0000);
}

#[test]
fn input_sets_type_and_pull() {
    let pulls = [(Pull::NoPull, 0x6000), (Pull::Up, 0x4000), (Pull::Down, 0x2000)];
    for (pull, code) in pulls {
        let (_, ops) = Input::new(P_13, pull);
        assert_eq!(
            ops,
            vec![
                Op::Call(Call::IocPinTypeGpioInput { pin: 13 }),
                Op::Call(Call::IocIoPortPullSet { pin: 13, pull: code }),
            ]
        );
    }
}

#[test]
fn input_level_is_its_own_bit() {
    let (input, _) = Input::new(P_13, Pull::Up);
    assert!(input.is_high(0x2000));
    assert!(!input.is_low(0x2000));
    assert!(!input.is_high(!0x2000));
    assert!(input.is_low(!0x2000));
}

#[test]
fn output_starts_at_the_level_asked_for() {
    let (_, low) = Output::new(P_13, Level::Low);
    assert_eq!(
        low,
        vec![
            Op::Call(Call::IocPinTypeGpioOutput { pin: 13 }),
            Op::Write { addr: 0x4002_20A0, value: 0x2000 },
        ]
    );
    let (_, high) = Output::new(P_13, Level::High);
    assert_eq!(high[1], Op::Write { addr: 0x4002_2090, value: 0x2000 });
    assert_eq!(drive(0xFFFF_FFFF, &low), 0xFFFF_DFFF);
    assert_eq!(drive(0, &high), 0x2000);
}

#[test]
fn driving_a_pin_is_read_back_and_leaves_the_others() {
    let (mut led, _) = Output::new(P_13, Level::Low);
    let (other, _) = Output::new(P_00, Level::High);
    let dout = drive(1, &[led.set_high()]);
    assert!(led.is_set_high(dout));
    assert!(!led.is_set_low(dout));
    assert!(other.is_set_high(dout));
    let dout = drive(dout, &[led.set_low()]);
    assert!(!led.is_set_high(dout));
    assert!(led.is_set_low(dout));
    assert!(other.is_set_high(dout));
}
