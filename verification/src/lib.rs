//! Drivers for the TI CC2650.
//!
//! The drivers decide, and a platform layer carries out: a driver takes what the
//! hardware reads as plain values and gives back the operations to perform, in order.
//! See [`hw`].
use crate::chip::Peripherals;
use crate::hw::{append, stored, stored_concat, Call, Op};
use crate::prcm::{
    chosen_clocks_run_or_stop, clock_ops, enable_bits, gate_after, only_chosen_gates_change,
    secdma_gate, Clocks, PowerDomains, Prcm,
};
use crate::regs::{PRCM_CLK_EN, PRCM_RFCMODESEL, PRCM_RFCMODESEL_MODE5};
use crate::uart::UartPinConfig;
use vstd::prelude::*;

pub mod chip;
pub mod debug_print;
pub mod driverlib;
pub mod gpio;
pub mod gpt;
pub mod hw;
pub mod laws;
pub mod prcm;
pub mod regs;
pub mod rtc;
pub mod scif_driver;
pub mod time_driver;
pub mod uart;
pub mod udma;

verus! {

/// Which pins the drivers use.
pub trait PinConfig: UartPinConfig + Copy {

}

impl<T> PinConfig for T where T: UartPinConfig + Copy {

}

/// The clocks that the drivers need.
pub open spec fn driver_clocks() -> Clocks {
    Clocks { gpio: true, uart: true, gpt: true, dma: true, crypto: true, rfc: false, i2c: true }
}

/// The operations that start up the chip: the mode of the radio core is selected, the
/// domains of the peripherals and the serial interfaces are powered on, and the clocks that
/// the drivers need are let through.
pub open spec fn init_ops() -> Seq<Op> {
    let domains = driverlib::PRCM_DOMAIN_PERIPH | driverlib::PRCM_DOMAIN_SERIAL;
    seq![
        Op::Write { addr: PRCM_RFCMODESEL, value: PRCM_RFCMODESEL_MODE5 },
        Op::Call(Call::PrcmPowerDomainOn { domains }),
        Op::WaitPowerOn { domains },
    ] + clock_ops(driver_clocks(), PRCM_CLK_EN, secdma_gate(true, true))
}

/// Takes the peripherals and starts up the chip. This can be done once: `taken` tells
/// whether it was done.
pub fn init(taken: &mut bool) -> (r: (Peripherals, Vec<Op>))
    requires
        !*old(taken),
    ensures
        *final(taken),
        r.1@ == init_ops(),
{
    let peripherals = Peripherals::take(taken);
    let prcm = Prcm::new();
    let mut ops: Vec<Op> = prcm.rfc_modesel_configure();
    let domains = PowerDomains::empty().peripherals().serial();
    append(&mut ops, prcm.enable_domains(domains));
    let clocks = Clocks::empty().gpio().uart().gpt().dma().crypto().i2c();
    append(&mut ops, prcm.enable_clocks(clocks));
    proof {
        let p = driverlib::PRCM_DOMAIN_PERIPH;
        assert(0u32 | p == p) by (bit_vector);
        assert(ops@ =~= init_ops());
    }
    (peripherals, ops)
}

/// Starting up the chip selects the mode of the radio core, lets just the clocks through
/// that the drivers need, and leaves every other register as it was but for the load control
/// of the clocks.
pub proof fn start_up_sets_mode_and_clocks(addr: u32, v: u32)
    ensures
        stored(init_ops(), addr, v) == if addr == PRCM_RFCMODESEL {
            PRCM_RFCMODESEL_MODE5
        } else {
            gate_after(driver_clocks(), PRCM_CLK_EN, secdma_gate(true, true), addr, v)
        },
{
    let clocks = clock_ops(driver_clocks(), PRCM_CLK_EN, secdma_gate(true, true));
    let before = init_ops().take(3);
    assert(init_ops() =~= before + clocks);
    stored_concat(before, clocks, addr, v);
    only_chosen_gates_change(
        driver_clocks(),
        PRCM_CLK_EN,
        secdma_gate(true, true),
        addr,
        stored(before, addr, v),
    );
    reveal_with_fuel(stored, 4);
    assert(before.drop_last().drop_last().drop_last() =~= seq![]);
}

/// Starting up the chip turns on just the domains of the peripherals and the serial
/// interfaces, and waits until they are on before it touches a register of the clocks.
pub proof fn power_comes_before_the_clocks(i: int)
    requires
        0 <= i < init_ops().len(),
    ensures
        ({
            let domains = driverlib::PRCM_DOMAIN_PERIPH | driverlib::PRCM_DOMAIN_SERIAL;
            &&& init_ops()[1] == Op::Call(Call::PrcmPowerDomainOn { domains })
            &&& init_ops()[2] == (Op::WaitPowerOn { domains })
            &&& init_ops()[i] matches Op::Call(call) ==> i == 1
            &&& init_ops()[i] matches Op::Write { addr, value } ==> addr == PRCM_RFCMODESEL || i > 2
            &&& init_ops()[i] matches Op::Modify { addr, clear, set } ==> i > 2
        }),
{
}

/// Once the chip has started up, each clock that the drivers need is let through, whatever
/// the gates held before.
pub proof fn driver_clocks_run(addr: u32, v: u32)
    ensures
        stored(init_ops(), addr, v) & enable_bits(driver_clocks(), addr) == enable_bits(
            driver_clocks(),
            addr,
        ),
{
    let clocks = clock_ops(driver_clocks(), PRCM_CLK_EN, secdma_gate(true, true));
    let before = init_ops().take(3);
    assert(init_ops() =~= before + clocks);
    stored_concat(before, clocks, addr, v);
    chosen_clocks_run_or_stop(driver_clocks(), addr, stored(before, addr, v));
}

} // verus!
