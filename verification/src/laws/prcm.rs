//! Laws of power, reset and clock management.
use crate::chip::Peripherals;
use crate::hw::{bit, stored, Call, Op};
use crate::init;
use crate::laws::bits::{powers_of_two, setting_concerns_one_bit};
use crate::prcm::{only_chosen_gates_change, secdma_gate, Clock, Clocks, PowerDomains, Prcm};
use crate::start_up_sets_mode_and_clocks;
use vstd::prelude::*;

verus! {

/// Adding the domain adds bit 0 and keeps every other one.
pub proof fn rfc_is_a_domain_of_its_own(domains: PowerDomains, r: PowerDomains, other: u32)
    requires
        call_ensures(PowerDomains::rfc, (domains,), r),
        other < 32,
    ensures
        bit(r.0, other) == (other == 0 || bit(domains.0, other)),
{
    powers_of_two();
    setting_concerns_one_bit(domains.0, 0, other);
}

/// Adding the domain adds bit 1 and keeps every other one.
pub proof fn serial_is_a_domain_of_its_own(domains: PowerDomains, r: PowerDomains, other: u32)
    requires
        call_ensures(PowerDomains::serial, (domains,), r),
        other < 32,
    ensures
        bit(r.0, other) == (other == 1 || bit(domains.0, other)),
{
    powers_of_two();
    setting_concerns_one_bit(domains.0, 1, other);
}

/// Adding the domain adds bit 2 and keeps every other one.
pub proof fn peripherals_is_a_domain_of_its_own(domains: PowerDomains, r: PowerDomains, other: u32)
    requires
        call_ensures(PowerDomains::peripherals, (domains,), r),
        other < 32,
    ensures
        bit(r.0, other) == (other == 2 || bit(domains.0, other)),
{
    powers_of_two();
    setting_concerns_one_bit(domains.0, 2, other);
}

/// Adding the domain adds bit 3 and keeps every other one.
pub proof fn sysbus_is_a_domain_of_its_own(domains: PowerDomains, r: PowerDomains, other: u32)
    requires
        call_ensures(PowerDomains::sysbus, (domains,), r),
        other < 32,
    ensures
        bit(r.0, other) == (other == 3 || bit(domains.0, other)),
{
    powers_of_two();
    setting_concerns_one_bit(domains.0, 3, other);
}

/// Adding the domain adds bit 4 and keeps every other one.
pub proof fn vims_is_a_domain_of_its_own(domains: PowerDomains, r: PowerDomains, other: u32)
    requires
        call_ensures(PowerDomains::vims, (domains,), r),
        other < 32,
    ensures
        bit(r.0, other) == (other == 4 || bit(domains.0, other)),
{
    powers_of_two();
    setting_concerns_one_bit(domains.0, 4, other);
}

/// Adding the domain adds bit 5 and keeps every other one.
pub proof fn cpu_is_a_domain_of_its_own(domains: PowerDomains, r: PowerDomains, other: u32)
    requires
        call_ensures(PowerDomains::cpu, (domains,), r),
        other < 32,
    ensures
        bit(r.0, other) == (other == 5 || bit(domains.0, other)),
{
    powers_of_two();
    setting_concerns_one_bit(domains.0, 5, other);
}

/// There are no domains to begin with, and all of them are the first six.
pub proof fn domains_are_none_or_all(none: PowerDomains, all: PowerDomains)
    requires
        call_ensures(PowerDomains::empty, (), none),
        call_ensures(PowerDomains::all, (), all),
    ensures
        none.0 == 0,
        all.0 == 63,
{
}

/// Just the domains that were named are turned on, and waited for, or turned off.
pub proof fn named_domains_are_powered(
    prcm: Prcm,
    domains: PowerDomains,
    on: Vec<Op>,
    off: Vec<Op>,
)
    requires
        call_ensures(Prcm::enable_domains, (&prcm, domains), on),
        call_ensures(Prcm::disable_domains, (&prcm, domains), off),
    ensures
        on@.len() == 2,
        on@[0] == Op::Call(Call::PrcmPowerDomainOn { domains: domains.0 }),
        on@[1] == (Op::WaitPowerOn { domains: domains.0 }),
        off@.len() == 1,
        off@[0] == Op::Call(Call::PrcmPowerDomainOff { domains: domains.0 }),
{
}

/// Domains are on when the first bit of their status says so.
pub proof fn status_tells_whether_domains_are_on(status: u32, r: bool)
    requires
        call_ensures(Prcm::are_enabled, (status,), r),
    ensures
        r == bit(status, 0),
{
    powers_of_two();
}

/// Choosing the clock chooses it and nothing else.
pub proof fn gpio_is_a_clock_of_its_own(clocks: Clocks, r: Clocks)
    requires
        call_ensures(Clocks::gpio, (clocks,), r),
    ensures
        r.gpio,
        r.uart == clocks.uart,
        r.gpt == clocks.gpt,
        r.dma == clocks.dma,
        r.crypto == clocks.crypto,
        r.rfc == clocks.rfc,
        r.i2c == clocks.i2c,
{
}

/// Choosing the clock chooses it and nothing else.
pub proof fn uart_is_a_clock_of_its_own(clocks: Clocks, r: Clocks)
    requires
        call_ensures(Clocks::uart, (clocks,), r),
    ensures
        r.gpio == clocks.gpio,
        r.uart,
        r.gpt == clocks.gpt,
        r.dma == clocks.dma,
        r.crypto == clocks.crypto,
        r.rfc == clocks.rfc,
        r.i2c == clocks.i2c,
{
}

/// Choosing the clock chooses it and nothing else.
pub proof fn gpt_is_a_clock_of_its_own(clocks: Clocks, r: Clocks)
    requires
        call_ensures(Clocks::gpt, (clocks,), r),
    ensures
        r.gpio == clocks.gpio,
        r.uart == clocks.uart,
        r.gpt,
        r.dma == clocks.dma,
        r.crypto == clocks.crypto,
        r.rfc == clocks.rfc,
        r.i2c == clocks.i2c,
{
}

/// Choosing the clock chooses it and nothing else.
pub proof fn dma_is_a_clock_of_its_own(clocks: Clocks, r: Clocks)
    requires
        call_ensures(Clocks::dma, (clocks,), r),
    ensures
        r.gpio == clocks.gpio,
        r.uart == clocks.uart,
        r.gpt == clocks.gpt,
        r.dma,
        r.crypto == clocks.crypto,
        r.rfc == clocks.rfc,
        r.i2c == clocks.i2c,
{
}

/// Choosing the clock chooses it and nothing else.
pub proof fn crypto_is_a_clock_of_its_own(clocks: Clocks, r: Clocks)
    requires
        call_ensures(Clocks::crypto, (clocks,), r),
    ensures
        r.gpio == clocks.gpio,
        r.uart == clocks.uart,
        r.gpt == clocks.gpt,
        r.dma == clocks.dma,
        r.crypto,
        r.rfc == clocks.rfc,
        r.i2c == clocks.i2c,
{
}

/// Choosing the clock chooses it and nothing else.
pub proof fn rfc_is_a_clock_of_its_own(clocks: Clocks, r: Clocks)
    requires
        call_ensures(Clocks::rfc, (clocks,), r),
    ensures
        r.gpio == clocks.gpio,
        r.uart == clocks.uart,
        r.gpt == clocks.gpt,
        r.dma == clocks.dma,
        r.crypto == clocks.crypto,
        r.rfc,
        r.i2c == clocks.i2c,
{
}

/// Choosing the clock chooses it and nothing else.
pub proof fn i2c_is_a_clock_of_its_own(clocks: Clocks, r: Clocks)
    requires
        call_ensures(Clocks::i2c, (clocks,), r),
    ensures
        r.gpio == clocks.gpio,
        r.uart == clocks.uart,
        r.gpt == clocks.gpt,
        r.dma == clocks.dma,
        r.crypto == clocks.crypto,
        r.rfc == clocks.rfc,
        r.i2c,
{
}

/// No clock is chosen to begin with.
pub proof fn no_clock_is_chosen_at_first(r: Clocks)
    requires
        call_ensures(Clocks::empty, (), r),
    ensures
        !r.gpio,
        !r.uart,
        !r.gpt,
        !r.dma,
        !r.crypto,
        !r.rfc,
        !r.i2c,
{
}

/// The value of the gates that micro DMA controller and crypto core share: bit 8 and bit 0.
pub open spec fn shared_gate(dma: bool, crypto: bool) -> int {
    (if dma {
        256int
    } else {
        0
    }) + if crypto {
        1int
    } else {
        0
    }
}

/// What the register at `addr` holds once clocks were let through or stopped, if it held `v`
/// before. A chosen clock has its gate in run, sleep and deep sleep mode set or cleared, but
/// for that of the radio core, which has one gate, and that of I2C, whose gate is touched in
/// run mode alone. The gates that micro DMA controller and crypto core share tell both.
pub open spec fn holds_after(clocks: Clocks, on: bool, addr: u32, v: u32) -> int {
    let gate = if on {
        1int
    } else {
        0
    };
    if clocks.gpio && (addr == 0x4008_2048 || addr == 0x4008_204C || addr == 0x4008_2050) {
        gate
    } else if clocks.uart && (addr == 0x4008_206C || addr == 0x4008_2070 || addr == 0x4008_2074) {
        gate
    } else if clocks.gpt && (addr == 0x4008_2054 || addr == 0x4008_2058 || addr == 0x4008_205C) {
        gate
    } else if (clocks.dma || clocks.crypto) && (addr == 0x4008_203C || addr == 0x4008_2040 || addr
        == 0x4008_2044) {
        shared_gate(clocks.dma == on, clocks.crypto == on)
    } else if clocks.rfc && addr == 0x4008_202C {
        gate
    } else if clocks.i2c && addr == 0x4008_2060 {
        gate
    } else {
        v as int
    }
}

/// Whether the operations change the gates of clocks, and load the change after that.
pub open spec fn gates(ops: Seq<Op>, clocks: Clocks, on: bool) -> bool {
    &&& forall|addr: u32, v: u32|
        addr != 0x4008_2028 ==> #[trigger] stored(ops, addr, v) == holds_after(clocks, on, addr, v)
    &&& ops.len() >= 2
    &&& ops[ops.len() - 2] == (Op::Modify { addr: 0x4008_2028, clear: 1, set: 1 })
    &&& ops.last() == (Op::WaitSet { addr: 0x4008_2028, mask: 2 })
    &&& forall|i: int|
        0 <= i < ops.len() - 2 ==> ((#[trigger] ops[i]) matches Op::Write { addr, value } && addr
            != 0x4008_2028)
}

proof fn gates_are_set(clocks: Clocks, on: bool)
    ensures
        gates(
            crate::prcm::clock_ops(
                clocks,
                if on {
                    1
                } else {
                    0
                },
                secdma_gate(clocks.dma == on, clocks.crypto == on),
            ),
            clocks,
            on,
        ),
{
    let value: u32 = if on {
        1
    } else {
        0
    };
    let secdma = secdma_gate(clocks.dma == on, clocks.crypto == on);
    let ops = crate::prcm::clock_ops(clocks, value, secdma);
    assert forall|addr: u32, v: u32| addr != 0x4008_2028 implies #[trigger] stored(ops, addr, v)
        == holds_after(clocks, on, addr, v) by {
        only_chosen_gates_change(clocks, value, secdma, addr, v);
    }
}

/// Clocks that were chosen are let through or stopped, and nothing else is touched.
pub proof fn chosen_clocks_are_gated(
    prcm: Prcm,
    clocks: Clocks,
    on: Vec<Op>,
    same: Vec<Op>,
    off: Vec<Op>,
)
    requires
        call_ensures(Prcm::enable_clocks, (&prcm, clocks), on),
        call_ensures(Clock::enable_clocks, (clocks,), same),
        call_ensures(Clock::disable_clocks, (clocks,), off),
    ensures
        gates(on@, clocks, true),
        same@ == on@,
        gates(off@, clocks, false),
{
    gates_are_set(clocks, true);
    gates_are_set(clocks, false);
}

/// Starting up the chip selects the radio mode, turns on the domains of the serial interfaces
/// and the peripherals, and lets every clock through but that of the radio core. It is
/// remembered, so that it cannot be done again.
pub proof fn chip_starts_up(taken: &mut bool, r: (Peripherals, Vec<Op>), addr: u32, v: u32)
    requires
        call_ensures(init, (taken,), r),
        addr != 0x4008_2028,
    ensures
        *final(taken),
        r.1@.len() > 3,
        r.1@[0] == (Op::Write { addr: 0x4008_21D0, value: 5 }),
        r.1@[1] matches Op::Call(Call::PrcmPowerDomainOn { domains }) && domains == 2 + 4,
        r.1@[2] matches Op::WaitPowerOn { domains } && domains == 2 + 4,
        stored(r.1@, addr, v) == if addr == 0x4008_21D0 {
            5int
        } else {
            holds_after(
                Clocks {
                    gpio: true,
                    uart: true,
                    gpt: true,
                    dma: true,
                    crypto: true,
                    rfc: false,
                    i2c: true,
                },
                true,
                addr,
                v,
            )
        },
        r.1@.last() == (Op::WaitSet { addr: 0x4008_2028, mask: 2 }),
{
    start_up_sets_mode_and_clocks(addr, v);
    assert(4u32 | 2u32 == 6) by (bit_vector);
}

/// By default there are no domains and no clocks.
pub proof fn nothing_is_chosen_by_default(domains: PowerDomains, clocks: Clocks, none: Clocks)
    requires
        call_ensures(<PowerDomains as Default>::default, (), domains),
        call_ensures(<Clocks as Default>::default, (), clocks),
        call_ensures(Clocks::empty, (), none),
    ensures
        domains.0 == 0,
        clocks == none,
{
}

/// The radio core is put into mode 5.
pub proof fn radio_mode_is_selected(prcm: Prcm, ops: Vec<Op>)
    requires
        call_ensures(Prcm::rfc_modesel_configure, (&prcm,), ops),
    ensures
        ops@.len() == 1,
        ops@[0] == (Op::Write { addr: 0x4008_21D0, value: 5 }),
{
}

} // verus!
