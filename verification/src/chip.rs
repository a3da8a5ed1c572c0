//! Peripherals and interrupt lines of the chip.
use crate::gpio::Pin;
use vstd::prelude::*;

verus! {

/// The first UART.
#[derive(Clone, Copy, Debug, PartialEq, Eq, Structural)]
pub struct UART0;

/// The real-time clock of the always-on domain.
#[allow(non_camel_case_types)]
#[derive(Clone, Copy, Debug, PartialEq, Eq, Structural)]
pub struct AON_RTC;

/// The first general purpose timer.
#[derive(Clone, Copy, Debug, PartialEq, Eq, Structural)]
pub struct GPT0;

/// Pin 0.
#[allow(non_camel_case_types)]
#[derive(Clone, Copy, Debug, PartialEq, Eq, Structural)]
pub struct P_00;

impl Pin for P_00 {
    open spec fn port(&self) -> u32 {
        0
    }

    fn pin_port(&self) -> (r: u32) {
        0
    }
}

/// Pin 1.
#[allow(non_camel_case_types)]
#[derive(Clone, Copy, Debug, PartialEq, Eq, Structural)]
pub struct P_01;

impl Pin for P_01 {
    open spec fn port(&self) -> u32 {
        1
    }

    fn pin_port(&self) -> (r: u32) {
        1
    }
}

/// Pin 2.
#[allow(non_camel_case_types)]
#[derive(Clone, Copy, Debug, PartialEq, Eq, Structural)]
pub struct P_02;

impl Pin for P_02 {
    open spec fn port(&self) -> u32 {
        2
    }

    fn pin_port(&self) -> (r: u32) {
        2
    }
}

/// Pin 3.
#[allow(non_camel_case_types)]
#[derive(Clone, Copy, Debug, PartialEq, Eq, Structural)]
pub struct P_03;

impl Pin for P_03 {
    open spec fn port(&self) -> u32 {
        3
    }

    fn pin_port(&self) -> (r: u32) {
        3
    }
}

/// Pin 4.
#[allow(non_camel_case_types)]
#[derive(Clone, Copy, Debug, PartialEq, Eq, Structural)]
pub struct P_04;

impl Pin for P_04 {
    open spec fn port(&self) -> u32 {
        4
    }

    fn pin_port(&self) -> (r: u32) {
        4
    }
}

/// Pin 5.
#[allow(non_camel_case_types)]
#[derive(Clone, Copy, Debug, PartialEq, Eq, Structural)]
pub struct P_05;

impl Pin for P_05 {
    open spec fn port(&self) -> u32 {
        5
    }

    fn pin_port(&self) -> (r: u32) {
        5
    }
}

/// Pin 6.
#[allow(non_camel_case_types)]
#[derive(Clone, Copy, Debug, PartialEq, Eq, Structural)]
pub struct P_06;

impl Pin for P_06 {
    open spec fn port(&self) -> u32 {
        6
    }

    fn pin_port(&self) -> (r: u32) {
        6
    }
}

/// Pin 7.
#[allow(non_camel_case_types)]
#[derive(Clone, Copy, Debug, PartialEq, Eq, Structural)]
pub struct P_07;

impl Pin for P_07 {
    open spec fn port(&self) -> u32 {
        7
    }

    fn pin_port(&self) -> (r: u32) {
        7
    }
}

/// Pin 8.
#[allow(non_camel_case_types)]
#[derive(Clone, Copy, Debug, PartialEq, Eq, Structural)]
pub struct P_08;

impl Pin for P_08 {
    open spec fn port(&self) -> u32 {
        8
    }

    fn pin_port(&self) -> (r: u32) {
        8
    }
}

/// Pin 9.
#[allow(non_camel_case_types)]
#[derive(Clone, Copy, Debug, PartialEq, Eq, Structural)]
pub struct P_09;

impl Pin for P_09 {
    open spec fn port(&self) -> u32 {
        9
    }

    fn pin_port(&self) -> (r: u32) {
        9
    }
}

/// Pin 10.
#[allow(non_camel_case_types)]
#[derive(Clone, Copy, Debug, PartialEq, Eq, Structural)]
pub struct P_10;

impl Pin for P_10 {
    open spec fn port(&self) -> u32 {
        10
    }

    fn pin_port(&self) -> (r: u32) {
        10
    }
}

/// Pin 11.
#[allow(non_camel_case_types)]
#[derive(Clone, Copy, Debug, PartialEq, Eq, Structural)]
pub struct P_11;

impl Pin for P_11 {
    open spec fn port(&self) -> u32 {
        11
    }

    fn pin_port(&self) -> (r: u32) {
        11
    }
}

/// Pin 12.
#[allow(non_camel_case_types)]
#[derive(Clone, Copy, Debug, PartialEq, Eq, Structural)]
pub struct P_12;

impl Pin for P_12 {
    open spec fn port(&self) -> u32 {
        12
    }

    fn pin_port(&self) -> (r: u32) {
        12
    }
}

/// Pin 13.
#[allow(non_camel_case_types)]
#[derive(Clone, Copy, Debug, PartialEq, Eq, Structural)]
pub struct P_13;

impl Pin for P_13 {
    open spec fn port(&self) -> u32 {
        13
    }

    fn pin_port(&self) -> (r: u32) {
        13
    }
}

/// Pin 14.
#[allow(non_camel_case_types)]
#[derive(Clone, Copy, Debug, PartialEq, Eq, Structural)]
pub struct P_14;

impl Pin for P_14 {
    open spec fn port(&self) -> u32 {
        14
    }

    fn pin_port(&self) -> (r: u32) {
        14
    }
}

/// Pin 15.
#[allow(non_camel_case_types)]
#[derive(Clone, Copy, Debug, PartialEq, Eq, Structural)]
pub struct P_15;

impl Pin for P_15 {
    open spec fn port(&self) -> u32 {
        15
    }

    fn pin_port(&self) -> (r: u32) {
        15
    }
}

/// Pin 16.
#[allow(non_camel_case_types)]
#[derive(Clone, Copy, Debug, PartialEq, Eq, Structural)]
pub struct P_16;

impl Pin for P_16 {
    open spec fn port(&self) -> u32 {
        16
    }

    fn pin_port(&self) -> (r: u32) {
        16
    }
}

/// Pin 17.
#[allow(non_camel_case_types)]
#[derive(Clone, Copy, Debug, PartialEq, Eq, Structural)]
pub struct P_17;

impl Pin for P_17 {
    open spec fn port(&self) -> u32 {
        17
    }

    fn pin_port(&self) -> (r: u32) {
        17
    }
}

/// Pin 18.
#[allow(non_camel_case_types)]
#[derive(Clone, Copy, Debug, PartialEq, Eq, Structural)]
pub struct P_18;

impl Pin for P_18 {
    open spec fn port(&self) -> u32 {
        18
    }

    fn pin_port(&self) -> (r: u32) {
        18
    }
}

/// Pin 19.
#[allow(non_camel_case_types)]
#[derive(Clone, Copy, Debug, PartialEq, Eq, Structural)]
pub struct P_19;

impl Pin for P_19 {
    open spec fn port(&self) -> u32 {
        19
    }

    fn pin_port(&self) -> (r: u32) {
        19
    }
}

/// Pin 20.
#[allow(non_camel_case_types)]
#[derive(Clone, Copy, Debug, PartialEq, Eq, Structural)]
pub struct P_20;

impl Pin for P_20 {
    open spec fn port(&self) -> u32 {
        20
    }

    fn pin_port(&self) -> (r: u32) {
        20
    }
}

/// Pin 21.
#[allow(non_camel_case_types)]
#[derive(Clone, Copy, Debug, PartialEq, Eq, Structural)]
pub struct P_21;

impl Pin for P_21 {
    open spec fn port(&self) -> u32 {
        21
    }

    fn pin_port(&self) -> (r: u32) {
        21
    }
}

/// Pin 22.
#[allow(non_camel_case_types)]
#[derive(Clone, Copy, Debug, PartialEq, Eq, Structural)]
pub struct P_22;

impl Pin for P_22 {
    open spec fn port(&self) -> u32 {
        22
    }

    fn pin_port(&self) -> (r: u32) {
        22
    }
}

/// Pin 23.
#[allow(non_camel_case_types)]
#[derive(Clone, Copy, Debug, PartialEq, Eq, Structural)]
pub struct P_23;

impl Pin for P_23 {
    open spec fn port(&self) -> u32 {
        23
    }

    fn pin_port(&self) -> (r: u32) {
        23
    }
}

/// Pin 24.
#[allow(non_camel_case_types)]
#[derive(Clone, Copy, Debug, PartialEq, Eq, Structural)]
pub struct P_24;

impl Pin for P_24 {
    open spec fn port(&self) -> u32 {
        24
    }

    fn pin_port(&self) -> (r: u32) {
        24
    }
}

/// Pin 25.
#[allow(non_camel_case_types)]
#[derive(Clone, Copy, Debug, PartialEq, Eq, Structural)]
pub struct P_25;

impl Pin for P_25 {
    open spec fn port(&self) -> u32 {
        25
    }

    fn pin_port(&self) -> (r: u32) {
        25
    }
}

/// Pin 26.
#[allow(non_camel_case_types)]
#[derive(Clone, Copy, Debug, PartialEq, Eq, Structural)]
pub struct P_26;

impl Pin for P_26 {
    open spec fn port(&self) -> u32 {
        26
    }

    fn pin_port(&self) -> (r: u32) {
        26
    }
}

/// Pin 27.
#[allow(non_camel_case_types)]
#[derive(Clone, Copy, Debug, PartialEq, Eq, Structural)]
pub struct P_27;

impl Pin for P_27 {
    open spec fn port(&self) -> u32 {
        27
    }

    fn pin_port(&self) -> (r: u32) {
        27
    }
}

/// Pin 28.
#[allow(non_camel_case_types)]
#[derive(Clone, Copy, Debug, PartialEq, Eq, Structural)]
pub struct P_28;

impl Pin for P_28 {
    open spec fn port(&self) -> u32 {
        28
    }

    fn pin_port(&self) -> (r: u32) {
        28
    }
}

/// Pin 29.
#[allow(non_camel_case_types)]
#[derive(Clone, Copy, Debug, PartialEq, Eq, Structural)]
pub struct P_29;

impl Pin for P_29 {
    open spec fn port(&self) -> u32 {
        29
    }

    fn pin_port(&self) -> (r: u32) {
        29
    }
}

/// Pin 30.
#[allow(non_camel_case_types)]
#[derive(Clone, Copy, Debug, PartialEq, Eq, Structural)]
pub struct P_30;

impl Pin for P_30 {
    open spec fn port(&self) -> u32 {
        30
    }

    fn pin_port(&self) -> (r: u32) {
        30
    }
}

/// Pin 31.
#[allow(non_camel_case_types)]
#[derive(Clone, Copy, Debug, PartialEq, Eq, Structural)]
pub struct P_31;

impl Pin for P_31 {
    open spec fn port(&self) -> u32 {
        31
    }

    fn pin_port(&self) -> (r: u32) {
        31
    }
}

/// The peripherals, each of them once.
#[allow(non_snake_case)]
pub struct Peripherals {
    pub UART0: UART0,
    pub AON_RTC: AON_RTC,
    pub GPT0: GPT0,
    pub P_00: P_00,
    pub P_01: P_01,
    pub P_02: P_02,
    pub P_03: P_03,
    pub P_04: P_04,
    pub P_05: P_05,
    pub P_06: P_06,
    pub P_07: P_07,
    pub P_08: P_08,
    pub P_09: P_09,
    pub P_10: P_10,
    pub P_11: P_11,
    pub P_12: P_12,
    pub P_13: P_13,
    pub P_14: P_14,
    pub P_15: P_15,
    pub P_16: P_16,
    pub P_17: P_17,
    pub P_18: P_18,
    pub P_19: P_19,
    pub P_20: P_20,
    pub P_21: P_21,
    pub P_22: P_22,
    pub P_23: P_23,
    pub P_24: P_24,
    pub P_25: P_25,
    pub P_26: P_26,
    pub P_27: P_27,
    pub P_28: P_28,
    pub P_29: P_29,
    pub P_30: P_30,
    pub P_31: P_31,
}

impl Peripherals {
    /// Takes the peripherals. This can be done once: `taken` tells whether it was done.
    pub fn take(taken: &mut bool) -> (r: Self)
        requires
            !*old(taken),
        ensures
            *final(taken),
    {
        *taken = true;
        Self {
            UART0,
            AON_RTC,
            GPT0,
            P_00,
            P_01,
            P_02,
            P_03,
            P_04,
            P_05,
            P_06,
            P_07,
            P_08,
            P_09,
            P_10,
            P_11,
            P_12,
            P_13,
            P_14,
            P_15,
            P_16,
            P_17,
            P_18,
            P_19,
            P_20,
            P_21,
            P_22,
            P_23,
            P_24,
            P_25,
            P_26,
            P_27,
            P_28,
            P_29,
            P_30,
            P_31,
        }
    }
}

/// The interrupt lines that the drivers use.
#[allow(non_camel_case_types)]
#[derive(Clone, Copy, Debug, PartialEq, Eq, Structural)]
pub enum Interrupt {
    UART0,
    UART1,
    AON_RTC,
    AON_EVENT,
    GPT0A,
    UDMA,
}

} // verus!
