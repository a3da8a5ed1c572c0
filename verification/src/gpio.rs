//! General purpose input and output.
use crate::driverlib::{IOC_IOPULL_DOWN, IOC_IOPULL_UP, IOC_NO_IOPULL};
use crate::hw::{bit, Call, Op};
use crate::regs::{GPIO_DOUTCLR31_0, GPIO_DOUTSET31_0};
use vstd::prelude::*;

verus! {

/// Pull setting for an input.
#[derive(Clone, Copy, Debug, PartialEq, Eq, Structural)]
pub enum Pull {
    /// No pull.
    NoPull,
    /// Internal pull-up resistor.
    Up,
    /// Internal pull-down resistor.
    Down,
}

#[derive(Clone, Copy, Debug, PartialEq, Eq, Structural)]
pub enum Level {
    /// Logical low.
    Low,
    /// Logical high.
    High,
}

/// A pin of the chip.
pub trait Pin: Sized {
    /// The number of the pin's port.
    spec fn port(&self) -> u32;

    /// The number of the pin's port.
    fn pin_port(&self) -> (r: u32)
        ensures
            r == self.port(),
            r < 32,
    ;

    /// The number of the pin.
    fn pin(&self) -> (r: u32)
        ensures
            r == self.port(),
            r < 32,
    {
        self.pin_port()
    }
}

/// Type-erased GPIO pin
#[derive(Clone, Copy, Debug)]
pub struct AnyPin {
    pin_port: u32,
}

impl AnyPin {
    #[verifier::type_invariant]
    spec fn is_on_the_chip(self) -> bool {
        self.pin_port < 32
    }

    /// Forgets which type the pin had.
    pub fn of<P: Pin>(pin: P) -> (r: Self)
        ensures
            r.port() == pin.port(),
    {
        Self { pin_port: pin.pin_port() }
    }
}

impl Pin for AnyPin {
    closed spec fn port(&self) -> u32 {
        self.pin_port
    }

    fn pin_port(&self) -> (r: u32) {
        proof {
            use_type_invariant(self);
        }
        self.pin_port
    }
}

/// The code by which the IO controller knows a pull setting.
pub open spec fn pull_code(mode: Pull) -> u32 {
    match mode {
        Pull::Down => IOC_IOPULL_DOWN,
        Pull::Up => IOC_IOPULL_UP,
        Pull::NoPull => IOC_NO_IOPULL,
    }
}

/// Drives the pin of a port high.
pub open spec fn high_op(port: u32) -> Op {
    Op::Write { addr: GPIO_DOUTSET31_0, value: 1u32 << port }
}

/// Drives the pin of a port low.
pub open spec fn low_op(port: u32) -> Op {
    Op::Write { addr: GPIO_DOUTCLR31_0, value: 1u32 << port }
}

/// The operations that make the pin of a port an input.
pub open spec fn input_ops(port: u32, pull: Pull) -> Seq<Op> {
    seq![
        Op::Call(Call::IocPinTypeGpioInput { pin: port }),
        Op::Call(Call::IocIoPortPullSet { pin: port, pull: pull_code(pull) }),
    ]
}

/// The operations that make the pin of a port an output.
pub open spec fn output_ops(port: u32, initial_output: Level) -> Seq<Op> {
    seq![
        Op::Call(Call::IocPinTypeGpioOutput { pin: port }),
        match initial_output {
            Level::Low => low_op(port),
            Level::High => high_op(port),
        },
    ]
}

/// A pin under the control of a driver.
pub struct GPIOPin {
    pub pin: AnyPin,
}

impl GPIOPin {
    /// Takes the pin.
    pub fn new<P: Pin>(pin: P) -> (r: Self)
        ensures
            r.pin.port() == pin.port(),
    {
        Self { pin: AnyPin::of(pin) }
    }

    /// The pin's bit in the registers of the GPIO module.
    pub fn pin_mask(&self) -> (r: u32)
        ensures
            self.pin.port() < 32,
            r == 1u32 << self.pin.port(),
    {
        1u32 << self.pin.pin()
    }

    /// Makes the pin an input.
    pub fn make_input(&self, mode: Pull) -> (ops: Vec<Op>)
        ensures
            ops@ == input_ops(self.pin.port(), mode),
    {
        vec![
            Op::Call(Call::IocPinTypeGpioInput { pin: self.pin.pin() }),
            self.set_floating_state(mode),
        ]
    }

    /// Makes the pin an output.
    pub fn make_output(&self) -> (op: Op)
        ensures
            op == Op::Call(Call::IocPinTypeGpioOutput { pin: self.pin.port() }),
    {
        Op::Call(Call::IocPinTypeGpioOutput { pin: self.pin.pin() })
    }

    /// Drives the pin high.
    pub fn set_high(&self) -> (op: Op)
        ensures
            op == high_op(self.pin.port()),
    {
        Op::Write { addr: GPIO_DOUTSET31_0, value: self.pin_mask() }
    }

    /// Drives the pin low.
    pub fn set_low(&self) -> (op: Op)
        ensures
            op == low_op(self.pin.port()),
    {
        Op::Write { addr: GPIO_DOUTCLR31_0, value: self.pin_mask() }
    }

    /// Whether the pin is driven high, from what the output register reads.
    pub fn is_set_high(&self, dout: u32) -> (r: bool)
        ensures
            r == bit(dout, self.pin.port()),
    {
        dout & self.pin_mask() != 0
    }

    /// Whether the pin is driven low, from what the output register reads.
    pub fn is_set_low(&self, dout: u32) -> (r: bool)
        ensures
            r == !bit(dout, self.pin.port()),
    {
        !self.is_set_high(dout)
    }

    /// Whether the pin's level is high, from what the input register reads.
    pub fn is_high(&self, din: u32) -> (r: bool)
        ensures
            r == bit(din, self.pin.port()),
    {
        din & self.pin_mask() != 0
    }

    /// Whether the pin's level is low, from what the input register reads.
    pub fn is_low(&self, din: u32) -> (r: bool)
        ensures
            r == !bit(din, self.pin.port()),
    {
        !self.is_high(din)
    }

    /// Sets what pulls the pin.
    pub fn set_floating_state(&self, mode: Pull) -> (op: Op)
        ensures
            op == Op::Call(
                Call::IocIoPortPullSet { pin: self.pin.port(), pull: pull_code(mode) },
            ),
    {
        let pull: u32 = match mode {
            Pull::Down => IOC_IOPULL_DOWN,
            Pull::Up => IOC_IOPULL_UP,
            Pull::NoPull => IOC_NO_IOPULL,
        };
        Op::Call(Call::IocIoPortPullSet { pin: self.pin.pin(), pull })
    }
}

/// GPIO input driver.
pub struct Input {
    pub gpio_pin: GPIOPin,
}

impl Input {
    /// Create GPIO input driver for a [Pin] with the provided [Pull] configuration.
    pub fn new<P: Pin>(pin: P, pull: Pull) -> (r: (Self, Vec<Op>))
        ensures
            r.0.gpio_pin.pin.port() == pin.port(),
            r.1@ == input_ops(pin.port(), pull),
    {
        let gpio_pin = GPIOPin::new(pin);
        let ops = gpio_pin.make_input(pull);
        (Self { gpio_pin }, ops)
    }

    /// Get whether the pin input level is high, from what the input register reads.
    pub fn is_high(&self, din: u32) -> (r: bool)
        ensures
            r == bit(din, self.gpio_pin.pin.port()),
    {
        self.gpio_pin.is_high(din)
    }

    /// Get whether the pin input level is low, from what the input register reads.
    pub fn is_low(&self, din: u32) -> (r: bool)
        ensures
            r == !bit(din, self.gpio_pin.pin.port()),
    {
        self.gpio_pin.is_low(din)
    }
}

/// GPIO output driver.
pub struct Output {
    pub gpio_pin: GPIOPin,
}

impl Output {
    /// Create GPIO output driver for a [Pin] that starts at the given [Level].
    pub fn new<P: Pin>(pin: P, initial_output: Level) -> (r: (Self, Vec<Op>))
        ensures
            r.0.gpio_pin.pin.port() == pin.port(),
            r.1@ == output_ops(pin.port(), initial_output),
    {
        let gpio_pin = GPIOPin::new(pin);
        let ops = vec![
            gpio_pin.make_output(),
            match initial_output {
                Level::Low => gpio_pin.set_low(),
                Level::High => gpio_pin.set_high(),
            },
        ];
        (Self { gpio_pin }, ops)
    }

    /// Set the output as high.
    pub fn set_high(&mut self) -> (op: Op)
        ensures
            op == high_op(old(self).gpio_pin.pin.port()),
            *final(self) == *old(self),
    {
        self.gpio_pin.set_high()
    }

    /// Set the output as low.
    pub fn set_low(&mut self) -> (op: Op)
        ensures
            op == low_op(old(self).gpio_pin.pin.port()),
            *final(self) == *old(self),
    {
        self.gpio_pin.set_low()
    }

    /// Get whether the output level is set to high, from what the output register reads.
    pub fn is_set_high(&self, dout: u32) -> (r: bool)
        ensures
            r == bit(dout, self.gpio_pin.pin.port()),
    {
        self.gpio_pin.is_set_high(dout)
    }

    /// Get whether the output level is set to low, from what the output register reads.
    pub fn is_set_low(&self, dout: u32) -> (r: bool)
        ensures
            r == !bit(dout, self.gpio_pin.pin.port()),
    {
        self.gpio_pin.is_set_low(dout)
    }
}

/// What the output register reads after an operation, if it read `dout` before: a one
/// that is written to the set or the clear register sets or clears that output.
pub open spec fn dout_after(op: Op, dout: u32) -> u32 {
    match op {
        Op::Write { addr, value } => if addr == GPIO_DOUTSET31_0 {
            dout | value
        } else if addr == GPIO_DOUTCLR31_0 {
            dout & !value
        } else {
            dout
        },
        _ => dout,
    }
}

/// Driving a pin changes the output of that pin alone, and what it was driven to is what
/// is read back.
pub proof fn driving_concerns_one_pin(port: u32, other: u32, dout: u32)
    requires
        port < 32,
        other < 32,
    ensures
        bit(dout_after(high_op(port), dout), other) == (other == port || bit(dout, other)),
        bit(dout_after(low_op(port), dout), other) == (other != port && bit(dout, other)),
{
    let a = dout | (1u32 << port);
    let b = dout & !(1u32 << port);
    assert((a & (1u32 << other) != 0) == (other == port || dout & (1u32 << other) != 0) && (b & (
    1u32 << other) != 0) == (other != port && dout & (1u32 << other) != 0)) by (bit_vector)
        requires
            a == dout | (1u32 << port),
            b == dout & !(1u32 << port),
            port < 32,
            other < 32,
    ;
}

/// A new output starts at the level that was asked for, and leaves every other pin as it was.
pub proof fn output_starts_at_its_level(port: u32, other: u32, initial_output: Level, dout: u32)
    requires
        port < 32,
        other < 32,
    ensures
        ({
            let ops = output_ops(port, initial_output);
            let after = dout_after(ops[1], dout_after(ops[0], dout));
            bit(after, other) == if other == port {
                initial_output == Level::High
            } else {
                bit(dout, other)
            }
        }),
{
    driving_concerns_one_pin(port, other, dout);
}

} // verus!
