//! Laws of the chip's pins and interrupt lines.
use crate::chip::{
    Interrupt, Peripherals, AON_RTC, GPT0,
    P_00, P_01, P_02, P_03, P_04, P_05, P_06, P_07, P_08, P_09, P_10, P_11, P_12, P_13, P_14,
    P_15, P_16, P_17, P_18, P_19, P_20, P_21, P_22, P_23, P_24, P_25, P_26, P_27, P_28, P_29,
    P_30, P_31,
    UART0,
};
use crate::gpio::Pin;
use vstd::prelude::*;

verus! {

/// Each pin has the number in its name.
pub proof fn pins_are_numbered()
    ensures
        P_00.port() == 0,
        P_01.port() == 1,
        P_02.port() == 2,
        P_03.port() == 3,
        P_04.port() == 4,
        P_05.port() == 5,
        P_06.port() == 6,
        P_07.port() == 7,
        P_08.port() == 8,
        P_09.port() == 9,
        P_10.port() == 10,
        P_11.port() == 11,
        P_12.port() == 12,
        P_13.port() == 13,
        P_14.port() == 14,
        P_15.port() == 15,
        P_16.port() == 16,
        P_17.port() == 17,
        P_18.port() == 18,
        P_19.port() == 19,
        P_20.port() == 20,
        P_21.port() == 21,
        P_22.port() == 22,
        P_23.port() == 23,
        P_24.port() == 24,
        P_25.port() == 25,
        P_26.port() == 26,
        P_27.port() == 27,
        P_28.port() == 28,
        P_29.port() == 29,
        P_30.port() == 30,
        P_31.port() == 31,
{
}

/// Each peripheral has its own interrupt line.
pub proof fn peripherals_have_their_lines()
    ensures
        <UART0 as crate::uart::Instance>::irq() == Interrupt::UART0,
        <AON_RTC as crate::rtc::Instance>::irq() == Interrupt::AON_RTC,
        <GPT0 as crate::gpt::Instance>::irq() == Interrupt::GPT0A,
{
}

/// Taking the peripherals is remembered, so that it cannot be done again.
pub proof fn peripherals_are_taken_once(taken: &mut bool, r: Peripherals)
    requires
        call_ensures(Peripherals::take, (taken,), r),
    ensures
        *final(taken),
{
}

} // verus!
