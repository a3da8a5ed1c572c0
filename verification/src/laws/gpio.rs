//! Laws of the pins.
use crate::gpio::{AnyPin, GPIOPin, Input, Level, Output, Pin, Pull};
use crate::hw::{bit, Call, Op};
use crate::laws::bits::one_bit_is_set;
use crate::regs::{GPIO_DOUTCLR31_0, GPIO_DOUTSET31_0};
use vstd::prelude::*;

verus! {

/// Whether an operation writes a word with the bit of one pin, and no other, to a register.
pub open spec fn names_one_pin(op: Op, register: u32, port: u32) -> bool {
    op matches Op::Write { addr, value } && addr == register && forall|other: u32|
        other < 32 ==> #[trigger] bit(value, other) == (other == port)
}

proof fn mask_names_one_pin(port: u32)
    requires
        port < 32,
    ensures
        names_one_pin(crate::gpio::high_op(port), GPIO_DOUTSET31_0, port),
        names_one_pin(crate::gpio::low_op(port), GPIO_DOUTCLR31_0, port),
{
    assert forall|other: u32| other < 32 implies #[trigger] bit(1u32 << port, other) == (other
        == port) by {
        one_bit_is_set(port, other);
    }
}

/// A pin keeps its number when its type is forgotten, and when a driver takes it.
pub proof fn pin_keeps_its_number<P: Pin>(pin: P, any: AnyPin, taken: GPIOPin, a: u32, b: u32)
    requires
        call_ensures(AnyPin::of::<P>, (pin,), any),
        call_ensures(GPIOPin::new::<P>, (pin,), taken),
        call_ensures(<AnyPin as Pin>::pin, (&any,), a),
        call_ensures(<AnyPin as Pin>::pin_port, (&taken.pin,), b),
    ensures
        a == pin.port(),
        b == pin.port(),
{
}

/// An input is made of the pin that was given, and pulled as asked for.
pub proof fn input_is_made_of_its_pin<P: Pin>(pin: P, pull: Pull, r: (Input, Vec<Op>))
    requires
        call_ensures(Input::new::<P>, (pin, pull), r),
    ensures
        r.0.gpio_pin.pin.port() == pin.port(),
        r.1@.len() == 2,
        r.1@[0] == Op::Call(Call::IocPinTypeGpioInput { pin: pin.port() }),
        r.1@[1] == Op::Call(
            Call::IocIoPortPullSet {
                pin: pin.port(),
                pull: match pull {
                    Pull::Down => 0x2000,
                    Pull::Up => 0x4000,
                    Pull::NoPull => 0x6000,
                },
            },
        ),
{
}

/// An output is made of the pin that was given, and driven to the level asked for; no other
/// pin is driven.
pub proof fn output_is_made_of_its_pin<P: Pin>(pin: P, level: Level, r: (Output, Vec<Op>))
    requires
        call_ensures(Output::new::<P>, (pin, level), r),
        pin.port() < 32,
    ensures
        r.0.gpio_pin.pin.port() == pin.port(),
        r.1@.len() == 2,
        r.1@[0] == Op::Call(Call::IocPinTypeGpioOutput { pin: pin.port() }),
        names_one_pin(
            r.1@[1],
            match level {
                Level::High => GPIO_DOUTSET31_0,
                Level::Low => GPIO_DOUTCLR31_0,
            },
            pin.port(),
        ),
{
    mask_names_one_pin(pin.port());
}

/// Driving an output drives its own pin and no other.
pub proof fn output_drives_its_pin(a: &mut Output, b: &mut Output, high: Op, low: Op)
    requires
        call_ensures(Output::set_high, (a,), high),
        call_ensures(Output::set_low, (b,), low),
        old(a).gpio_pin.pin.port() < 32,
        old(b).gpio_pin.pin.port() < 32,
    ensures
        names_one_pin(high, GPIO_DOUTSET31_0, old(a).gpio_pin.pin.port()),
        names_one_pin(low, GPIO_DOUTCLR31_0, old(b).gpio_pin.pin.port()),
        *final(a) == *old(a),
        *final(b) == *old(b),
{
    mask_names_one_pin(old(a).gpio_pin.pin.port());
    mask_names_one_pin(old(b).gpio_pin.pin.port());
}

/// What an output is driven to is the bit of its pin.
pub proof fn output_level_is_its_bit(output: Output, dout: u32, high: bool, low: bool)
    requires
        call_ensures(Output::is_set_high, (&output, dout), high),
        call_ensures(Output::is_set_low, (&output, dout), low),
    ensures
        high == (dout & (1u32 << output.gpio_pin.pin.port()) != 0),
        low == !high,
{
}

/// The level of an input is the bit of its pin.
pub proof fn input_level_is_its_bit(input: Input, din: u32, high: bool, low: bool)
    requires
        call_ensures(Input::is_high, (&input, din), high),
        call_ensures(Input::is_low, (&input, din), low),
    ensures
        high == (din & (1u32 << input.gpio_pin.pin.port()) != 0),
        low == !high,
{
}

/// The same holds of a pin under the control of a driver.
pub proof fn pin_level_is_its_bit(
    pin: GPIOPin,
    word: u32,
    set_high: bool,
    set_low: bool,
    high: bool,
    low: bool,
)
    requires
        call_ensures(GPIOPin::is_set_high, (&pin, word), set_high),
        call_ensures(GPIOPin::is_set_low, (&pin, word), set_low),
        call_ensures(GPIOPin::is_high, (&pin, word), high),
        call_ensures(GPIOPin::is_low, (&pin, word), low),
    ensures
        high == (word & (1u32 << pin.pin.port()) != 0),
        set_high == high,
        low == !high,
        set_low == !high,
{
}

/// A pin under the control of a driver is set up and driven by its own number.
pub proof fn pin_is_driven_by_its_number(
    pin: GPIOPin,
    pull: Pull,
    input: Vec<Op>,
    output: Op,
    pulled: Op,
    high: Op,
    low: Op,
    mask: u32,
    other: u32,
)
    requires
        call_ensures(GPIOPin::make_input, (&pin, pull), input),
        call_ensures(GPIOPin::make_output, (&pin,), output),
        call_ensures(GPIOPin::set_floating_state, (&pin, pull), pulled),
        call_ensures(GPIOPin::set_high, (&pin,), high),
        call_ensures(GPIOPin::set_low, (&pin,), low),
        call_ensures(GPIOPin::pin_mask, (&pin,), mask),
        other < 32,
    ensures
        input@.len() == 2,
        input@[0] == Op::Call(Call::IocPinTypeGpioInput { pin: pin.pin.port() }),
        input@[1] == pulled,
        output == Op::Call(Call::IocPinTypeGpioOutput { pin: pin.pin.port() }),
        pulled == Op::Call(
            Call::IocIoPortPullSet {
                pin: pin.pin.port(),
                pull: match pull {
                    Pull::Down => 0x2000,
                    Pull::Up => 0x4000,
                    Pull::NoPull => 0x6000,
                },
            },
        ),
        names_one_pin(high, GPIO_DOUTSET31_0, pin.pin.port()),
        names_one_pin(low, GPIO_DOUTCLR31_0, pin.pin.port()),
        bit(mask, other) == (other == pin.pin.port()),
{
    mask_names_one_pin(pin.pin.port());
    one_bit_is_set(pin.pin.port(), other);
}

} // verus!
