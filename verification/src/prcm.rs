//! Power, reset and clock management.
use crate::driverlib::{
    PRCM_DOMAIN_CPU, PRCM_DOMAIN_PERIPH, PRCM_DOMAIN_POWER_ON, PRCM_DOMAIN_RFCORE,
    PRCM_DOMAIN_SERIAL, PRCM_DOMAIN_SYSBUS, PRCM_DOMAIN_VIMS,
};
use crate::hw::{stored, stored_concat, Call, Op};
use crate::regs::{
    PRCM_CLKLOADCTL, PRCM_CLKLOADCTL_LOAD, PRCM_CLKLOADCTL_LOAD_DONE, PRCM_CLK_EN, PRCM_GPIOCLKGDS,
    PRCM_GPIOCLKGR, PRCM_GPIOCLKGS, PRCM_GPTCLKGDS, PRCM_GPTCLKGR, PRCM_GPTCLKGS, PRCM_I2CCLKGR,
    PRCM_RFCCLKG, PRCM_RFCMODESEL, PRCM_RFCMODESEL_MODE5, PRCM_SECDMACLKGDS, PRCM_SECDMACLKGR,
    PRCM_SECDMACLKGS, PRCM_SECDMACLKG_CRYPTO, PRCM_SECDMACLKG_DMA, PRCM_UARTCLKGDS, PRCM_UARTCLKGR,
    PRCM_UARTCLKGS,
};
use vstd::prelude::*;

verus! {

/// A set of power domains, as a bit vector.
#[derive(Clone, Copy, Debug, PartialEq, Eq, Structural)]
pub struct PowerDomains(pub u32);

impl PowerDomains {
    /// Whether each power domain of `domain` is in the set.
    pub open spec fn has(self, domain: u32) -> bool {
        self.0 & domain == domain
    }

    /// No power domain.
    pub fn empty() -> (r: Self)
        ensures
            r == PowerDomains(0),
    {
        Self(0)
    }

    /// With the radio core.
    pub fn rfc(self) -> (r: Self)
        ensures
            r == PowerDomains(self.0 | PRCM_DOMAIN_RFCORE),
    {
        Self(self.0 | PRCM_DOMAIN_RFCORE)
    }

    /// With the serial interfaces.
    pub fn serial(self) -> (r: Self)
        ensures
            r == PowerDomains(self.0 | PRCM_DOMAIN_SERIAL),
    {
        Self(self.0 | PRCM_DOMAIN_SERIAL)
    }

    /// With the peripherals.
    pub fn peripherals(self) -> (r: Self)
        ensures
            r == PowerDomains(self.0 | PRCM_DOMAIN_PERIPH),
    {
        Self(self.0 | PRCM_DOMAIN_PERIPH)
    }

    /// With the memory system.
    pub fn vims(self) -> (r: Self)
        ensures
            r == PowerDomains(self.0 | PRCM_DOMAIN_VIMS),
    {
        Self(self.0 | PRCM_DOMAIN_VIMS)
    }

    /// With the system bus.
    pub fn sysbus(self) -> (r: Self)
        ensures
            r == PowerDomains(self.0 | PRCM_DOMAIN_SYSBUS),
    {
        Self(self.0 | PRCM_DOMAIN_SYSBUS)
    }

    /// With the processor.
    pub fn cpu(self) -> (r: Self)
        ensures
            r == PowerDomains(self.0 | PRCM_DOMAIN_CPU),
    {
        Self(self.0 | PRCM_DOMAIN_CPU)
    }

    /// All six power domains.
    pub fn all() -> (r: Self)
        ensures
            r == PowerDomains(0x3F),
    {
        assert(((((((0u32 | 1u32) | 2u32) | 4u32) | 8u32) | 0x10u32) | 0x20u32) == 0x3Fu32)
            by (bit_vector);
        Self::empty().rfc().serial().peripherals().sysbus().vims().cpu()
    }
}

impl Default for PowerDomains {
    fn default() -> (r: Self)
        ensures
            r == PowerDomains(0),
    {
        Self(0)
    }
}

impl vstd::std_specs::convert::FromSpecImpl<PowerDomains> for u32 {
    open spec fn obeys_from_spec() -> bool {
        true
    }

    open spec fn from_spec(domains: PowerDomains) -> u32 {
        domains.0
    }
}

impl From<PowerDomains> for u32 {
    fn from(domains: PowerDomains) -> (r: u32) {
        domains.0
    }
}

/// A set of peripheral clocks.
#[derive(Clone, Copy, Debug, PartialEq, Eq, Structural)]
pub struct Clocks {
    pub gpio: bool,
    pub uart: bool,
    pub gpt: bool,
    pub dma: bool,
    pub crypto: bool,
    pub rfc: bool,
    pub i2c: bool,
}

impl Clocks {
    /// No clock.
    pub open spec fn none() -> Clocks {
        Clocks {
            gpio: false,
            uart: false,
            gpt: false,
            dma: false,
            crypto: false,
            rfc: false,
            i2c: false,
        }
    }

    /// No clock.
    pub fn empty() -> (r: Self)
        ensures
            r == Clocks::none(),
    {
        Self {
            gpio: false,
            uart: false,
            gpt: false,
            dma: false,
            crypto: false,
            rfc: false,
            i2c: false,
        }
    }

    /// With the clock of the GPIO.
    pub fn gpio(self) -> (r: Self)
        ensures
            r == (Clocks { gpio: true, ..self }),
    {
        Self { gpio: true, ..self }
    }

    /// With the clock of the UART.
    pub fn uart(self) -> (r: Self)
        ensures
            r == (Clocks { uart: true, ..self }),
    {
        Self { uart: true, ..self }
    }

    /// With the clock of the general purpose timer.
    pub fn gpt(self) -> (r: Self)
        ensures
            r == (Clocks { gpt: true, ..self }),
    {
        Self { gpt: true, ..self }
    }

    /// With the clock of the micro DMA controller.
    pub fn dma(self) -> (r: Self)
        ensures
            r == (Clocks { dma: true, ..self }),
    {
        Self { dma: true, ..self }
    }

    /// With the clock of the crypto core.
    pub fn crypto(self) -> (r: Self)
        ensures
            r == (Clocks { crypto: true, ..self }),
    {
        Self { crypto: true, ..self }
    }

    /// With the clock of the radio core.
    pub fn rfc(self) -> (r: Self)
        ensures
            r == (Clocks { rfc: true, ..self }),
    {
        Self { rfc: true, ..self }
    }

    /// With the clock of the I2C interface.
    pub fn i2c(self) -> (r: Self)
        ensures
            r == (Clocks { i2c: true, ..self }),
    {
        Self { i2c: true, ..self }
    }
}

impl Default for Clocks {
    fn default() -> (r: Self)
        ensures
            r == Clocks::none(),
    {
        Self::empty()
    }
}

/// Stores one value in the gates of a clock for run, sleep and deep sleep mode.
pub open spec fn gate_ops(run: u32, sleep: u32, deep_sleep: u32, value: u32) -> Seq<Op> {
    seq![
        Op::Write { addr: run, value },
        Op::Write { addr: sleep, value },
        Op::Write { addr: deep_sleep, value },
    ]
}

/// The operations, or nothing.
pub open spec fn only_if(condition: bool, ops: Seq<Op>) -> Seq<Op> {
    if condition {
        ops
    } else {
        seq![]
    }
}

/// The value of the gates that micro DMA controller and crypto core share.
pub open spec fn secdma_gate(dma: bool, crypto: bool) -> u32 {
    ((if dma {
        PRCM_SECDMACLKG_DMA
    } else {
        0
    }) + (if crypto {
        PRCM_SECDMACLKG_CRYPTO
    } else {
        0
    })) as u32
}

/// The operations that set the gates of the chosen clocks to `value`, and the shared
/// gates to `secdma`, and then load the settings.
pub open spec fn clock_ops(clocks: Clocks, value: u32, secdma: u32) -> Seq<Op> {
    only_if(clocks.gpio, gate_ops(PRCM_GPIOCLKGR, PRCM_GPIOCLKGS, PRCM_GPIOCLKGDS, value))
        + only_if(clocks.uart, gate_ops(PRCM_UARTCLKGR, PRCM_UARTCLKGS, PRCM_UARTCLKGDS, value))
        + only_if(clocks.gpt, gate_ops(PRCM_GPTCLKGR, PRCM_GPTCLKGS, PRCM_GPTCLKGDS, value))
        + only_if(
        clocks.dma || clocks.crypto,
        gate_ops(PRCM_SECDMACLKGR, PRCM_SECDMACLKGS, PRCM_SECDMACLKGDS, secdma),
    ) + only_if(clocks.rfc, seq![Op::Write { addr: PRCM_RFCCLKG, value }]) + only_if(
        clocks.i2c,
        seq![Op::Write { addr: PRCM_I2CCLKGR, value }],
    ) + load_ops()
}

/// Loads the clock settings and waits until they are loaded.
pub open spec fn load_ops() -> Seq<Op> {
    seq![
        Op::Modify {
            addr: PRCM_CLKLOADCTL,
            clear: PRCM_CLKLOADCTL_LOAD,
            set: PRCM_CLKLOADCTL_LOAD,
        },
        Op::WaitSet { addr: PRCM_CLKLOADCTL, mask: PRCM_CLKLOADCTL_LOAD_DONE },
    ]
}

/// The clock gates.
pub struct Clock;

impl Clock {
    fn gate(ops: &mut Vec<Op>, run: u32, sleep: u32, deep_sleep: u32, value: u32)
        ensures
            final(ops)@ == old(ops)@ + gate_ops(run, sleep, deep_sleep, value),
    {
        ops.push(Op::Write { addr: run, value });
        ops.push(Op::Write { addr: sleep, value });
        ops.push(Op::Write { addr: deep_sleep, value });
    }

    fn secdma(dma: bool, crypto: bool) -> (r: u32)
        ensures
            r == secdma_gate(dma, crypto),
    {
        let dma_bit: u32 = if dma {
            PRCM_SECDMACLKG_DMA
        } else {
            0
        };
        let crypto_bit: u32 = if crypto {
            PRCM_SECDMACLKG_CRYPTO
        } else {
            0
        };
        dma_bit + crypto_bit
    }

    fn set_gates(clocks: Clocks, value: u32, secdma: u32) -> (ops: Vec<Op>)
        ensures
            ops@ == clock_ops(clocks, value, secdma),
    {
        let mut ops: Vec<Op> = Vec::new();
        if clocks.gpio {
            Self::gate(&mut ops, PRCM_GPIOCLKGR, PRCM_GPIOCLKGS, PRCM_GPIOCLKGDS, value);
        }
        if clocks.uart {
            Self::gate(&mut ops, PRCM_UARTCLKGR, PRCM_UARTCLKGS, PRCM_UARTCLKGDS, value);
        }
        if clocks.gpt {
            Self::gate(&mut ops, PRCM_GPTCLKGR, PRCM_GPTCLKGS, PRCM_GPTCLKGDS, value);
        }
        if clocks.dma || clocks.crypto {
            Self::gate(&mut ops, PRCM_SECDMACLKGR, PRCM_SECDMACLKGS, PRCM_SECDMACLKGDS, secdma);
        }
        if clocks.rfc {
            ops.push(Op::Write { addr: PRCM_RFCCLKG, value });
        }
        if clocks.i2c {
            ops.push(Op::Write { addr: PRCM_I2CCLKGR, value });
        }
        // Load settings into CLKCTRL and wait for LOAD_DONE

        ops.push(
            Op::Modify {
                addr: PRCM_CLKLOADCTL,
                clear: PRCM_CLKLOADCTL_LOAD,
                set: PRCM_CLKLOADCTL_LOAD,
            },
        );
        ops.push(Op::WaitSet { addr: PRCM_CLKLOADCTL, mask: PRCM_CLKLOADCTL_LOAD_DONE });
        assert(ops@ =~= clock_ops(clocks, value, secdma));
        ops
    }

    /// Enables clocks. The shared gates of micro DMA controller and crypto core are
    /// set to exactly what is chosen of the two, if any of them is.
    pub fn enable_clocks(clocks: Clocks) -> (ops: Vec<Op>)
        ensures
            ops@ == clock_ops(clocks, PRCM_CLK_EN, secdma_gate(clocks.dma, clocks.crypto)),
    {
        Self::set_gates(clocks, PRCM_CLK_EN, Self::secdma(clocks.dma, clocks.crypto))
    }

    /// Disables clocks. The shared gates of micro DMA controller and crypto core are
    /// set to exactly what is not chosen of the two, if any of them is.
    pub fn disable_clocks(clocks: Clocks) -> (ops: Vec<Op>)
        ensures
            ops@ == clock_ops(clocks, 0, secdma_gate(!clocks.dma, !clocks.crypto)),
    {
        Self::set_gates(clocks, 0, Self::secdma(!clocks.dma, !clocks.crypto))
    }
}

/// The power, reset and clock manager.
pub struct Prcm;

impl Prcm {
    /// The power, reset and clock manager.
    pub fn new() -> (r: Self)
        ensures
            r == Prcm,
    {
        Self
    }

    /// Powers domains on and waits until they are.
    pub fn enable_domains(&self, domains: PowerDomains) -> (ops: Vec<Op>)
        ensures
            ops@ == seq![
                Op::Call(Call::PrcmPowerDomainOn { domains: domains.0 }),
                Op::WaitPowerOn { domains: domains.0 },
            ],
    {
        vec![
            Op::Call(Call::PrcmPowerDomainOn { domains: u32::from(domains) }),
            Op::WaitPowerOn { domains: u32::from(domains) },
        ]
    }

    /// Powers domains off.
    pub fn disable_domains(&self, domains: PowerDomains) -> (ops: Vec<Op>)
        ensures
            ops@ == seq![Op::Call(Call::PrcmPowerDomainOff { domains: domains.0 })],
    {
        vec![Op::Call(Call::PrcmPowerDomainOff { domains: u32::from(domains) })]
    }

    /// Whether domains are powered on, from the status that the driver library
    /// reports of them.
    pub fn are_enabled(status: u32) -> (r: bool)
        ensures
            r == (status & PRCM_DOMAIN_POWER_ON != 0),
    {
        status & PRCM_DOMAIN_POWER_ON != 0
    }

    /// Enables clocks.
    pub fn enable_clocks(&self, clocks: Clocks) -> (ops: Vec<Op>)
        ensures
            ops@ == clock_ops(clocks, PRCM_CLK_EN, secdma_gate(clocks.dma, clocks.crypto)),
    {
        Clock::enable_clocks(clocks)
    }

    /// Selects the mode of the radio core.
    pub fn rfc_modesel_configure(&self) -> (ops: Vec<Op>)
        ensures
            ops@ == seq![Op::Write { addr: PRCM_RFCMODESEL, value: PRCM_RFCMODESEL_MODE5 }],
    {
        vec![Op::Write { addr: PRCM_RFCMODESEL, value: PRCM_RFCMODESEL_MODE5 }]
    }
}

/// Adding a power domain adds just that one, whatever was added before and however often.
pub proof fn adding_a_domain(domains: PowerDomains, domain: u32, other: u32)
    requires
        domain & other == 0,
    ensures
        PowerDomains(domains.0 | domain).has(domain),
        PowerDomains(domains.0 | domain).has(other) == domains.has(other),
        PowerDomains((domains.0 | domain) | domain) == PowerDomains(domains.0 | domain),
        PowerDomains((domains.0 | domain) | other) == PowerDomains((domains.0 | other) | domain),
{
    let d = domains.0;
    assert((d | domain) & domain == domain && ((d | domain) & other == d & other) && (d | domain)
        | domain == d | domain && (d | domain) | other == (d | other) | domain) by (bit_vector)
        requires
            domain & other == 0,
    ;
}

/// The six power domains are different ones.
pub proof fn domains_are_disjoint()
    ensures
        PRCM_DOMAIN_RFCORE & (PRCM_DOMAIN_SERIAL | PRCM_DOMAIN_PERIPH | PRCM_DOMAIN_SYSBUS
            | PRCM_DOMAIN_VIMS | PRCM_DOMAIN_CPU) == 0,
        PRCM_DOMAIN_SERIAL & (PRCM_DOMAIN_PERIPH | PRCM_DOMAIN_SYSBUS | PRCM_DOMAIN_VIMS
            | PRCM_DOMAIN_CPU) == 0,
        PRCM_DOMAIN_PERIPH & (PRCM_DOMAIN_SYSBUS | PRCM_DOMAIN_VIMS | PRCM_DOMAIN_CPU) == 0,
        PRCM_DOMAIN_SYSBUS & (PRCM_DOMAIN_VIMS | PRCM_DOMAIN_CPU) == 0,
        PRCM_DOMAIN_VIMS & PRCM_DOMAIN_CPU == 0,
{
    assert(1u32 & (2u32 | 4u32 | 8u32 | 0x10u32 | 0x20u32) == 0 && 2u32 & (4u32 | 8u32 | 0x10u32
        | 0x20u32) == 0 && 4u32 & (8u32 | 0x10u32 | 0x20u32) == 0 && 8u32 & (0x10u32 | 0x20u32) == 0
        && 0x10u32 & 0x20u32 == 0) by (bit_vector);
}

/// What the register at `addr` holds after clocks were set, if it held `v` before.
pub open spec fn gate_after(clocks: Clocks, value: u32, secdma: u32, addr: u32, v: u32) -> u32 {
    if addr == PRCM_GPIOCLKGR || addr == PRCM_GPIOCLKGS || addr == PRCM_GPIOCLKGDS {
        if clocks.gpio {
            value
        } else {
            v
        }
    } else if addr == PRCM_UARTCLKGR || addr == PRCM_UARTCLKGS || addr == PRCM_UARTCLKGDS {
        if clocks.uart {
            value
        } else {
            v
        }
    } else if addr == PRCM_GPTCLKGR || addr == PRCM_GPTCLKGS || addr == PRCM_GPTCLKGDS {
        if clocks.gpt {
            value
        } else {
            v
        }
    } else if addr == PRCM_SECDMACLKGR || addr == PRCM_SECDMACLKGS || addr == PRCM_SECDMACLKGDS {
        if clocks.dma || clocks.crypto {
            secdma
        } else {
            v
        }
    } else if addr == PRCM_RFCCLKG {
        if clocks.rfc {
            value
        } else {
            v
        }
    } else if addr == PRCM_I2CCLKGR {
        if clocks.i2c {
            value
        } else {
            v
        }
    } else if addr == PRCM_CLKLOADCTL {
        (v & !PRCM_CLKLOADCTL_LOAD) | PRCM_CLKLOADCTL_LOAD
    } else {
        v
    }
}

proof fn lemma_gate(condition: bool, run: u32, sleep: u32, deep_sleep: u32, value: u32, addr: u32, v: u32)
    ensures
        stored(only_if(condition, gate_ops(run, sleep, deep_sleep, value)), addr, v) == if condition
            && (addr == run || addr == sleep || addr == deep_sleep) {
            value
        } else {
            v
        },
{
    reveal_with_fuel(stored, 4);
    let ops = gate_ops(run, sleep, deep_sleep, value);
    assert(ops.drop_last().drop_last().drop_last() =~= seq![]);
}

proof fn lemma_one(condition: bool, gate: u32, value: u32, addr: u32, v: u32)
    ensures
        stored(only_if(condition, seq![Op::Write { addr: gate, value }]), addr, v) == if condition
            && addr == gate {
            value
        } else {
            v
        },
{
    reveal_with_fuel(stored, 2);
}

/// Setting clocks changes the gates of the chosen clocks, in every power mode that has
/// one, and the load control; every other register keeps its value.
pub proof fn only_chosen_gates_change(clocks: Clocks, value: u32, secdma: u32, addr: u32, v: u32)
    ensures
        stored(clock_ops(clocks, value, secdma), addr, v) == gate_after(
            clocks,
            value,
            secdma,
            addr,
            v,
        ),
{
    let a = only_if(clocks.gpio, gate_ops(PRCM_GPIOCLKGR, PRCM_GPIOCLKGS, PRCM_GPIOCLKGDS, value));
    let b = only_if(clocks.uart, gate_ops(PRCM_UARTCLKGR, PRCM_UARTCLKGS, PRCM_UARTCLKGDS, value));
    let c = only_if(clocks.gpt, gate_ops(PRCM_GPTCLKGR, PRCM_GPTCLKGS, PRCM_GPTCLKGDS, value));
    let d = only_if(
        clocks.dma || clocks.crypto,
        gate_ops(PRCM_SECDMACLKGR, PRCM_SECDMACLKGS, PRCM_SECDMACLKGDS, secdma),
    );
    let e = only_if(clocks.rfc, seq![Op::Write { addr: PRCM_RFCCLKG, value }]);
    let f = only_if(clocks.i2c, seq![Op::Write { addr: PRCM_I2CCLKGR, value }]);
    let v1 = stored(a, addr, v);
    let v2 = stored(b, addr, v1);
    let v3 = stored(c, addr, v2);
    let v4 = stored(d, addr, v3);
    let v5 = stored(e, addr, v4);
    let v6 = stored(f, addr, v5);
    lemma_gate(clocks.gpio, PRCM_GPIOCLKGR, PRCM_GPIOCLKGS, PRCM_GPIOCLKGDS, value, addr, v);
    lemma_gate(clocks.uart, PRCM_UARTCLKGR, PRCM_UARTCLKGS, PRCM_UARTCLKGDS, value, addr, v1);
    lemma_gate(clocks.gpt, PRCM_GPTCLKGR, PRCM_GPTCLKGS, PRCM_GPTCLKGDS, value, addr, v2);
    lemma_gate(
        clocks.dma || clocks.crypto,
        PRCM_SECDMACLKGR,
        PRCM_SECDMACLKGS,
        PRCM_SECDMACLKGDS,
        secdma,
        addr,
        v3,
    );
    lemma_one(clocks.rfc, PRCM_RFCCLKG, value, addr, v4);
    lemma_one(clocks.i2c, PRCM_I2CCLKGR, value, addr, v5);
    stored_concat(a, b, addr, v);
    stored_concat(a + b, c, addr, v);
    stored_concat(a + b + c, d, addr, v);
    stored_concat(a + b + c + d, e, addr, v);
    stored_concat(a + b + c + d + e, f, addr, v);
    stored_concat(a + b + c + d + e + f, load_ops(), addr, v);
    reveal_with_fuel(stored, 3);
    assert(load_ops().drop_last().drop_last() =~= seq![]);
}

/// The bits of the register at `addr` that let one of the chosen clocks through.
pub open spec fn enable_bits(clocks: Clocks, addr: u32) -> u32 {
    if addr == PRCM_SECDMACLKGR || addr == PRCM_SECDMACLKGS || addr == PRCM_SECDMACLKGDS {
        secdma_gate(clocks.dma, clocks.crypto)
    } else if addr == PRCM_CLKLOADCTL {
        0
    } else {
        gate_after(clocks, PRCM_CLK_EN, 0, addr, 0)
    }
}

/// Enabling clocks lets each of them through, and disabling them stops each of them,
/// whatever the gates held before.
pub proof fn chosen_clocks_run_or_stop(clocks: Clocks, addr: u32, v: u32)
    ensures
        ({
            let on = stored(
                clock_ops(clocks, PRCM_CLK_EN, secdma_gate(clocks.dma, clocks.crypto)),
                addr,
                v,
            );
            on & enable_bits(clocks, addr) == enable_bits(clocks, addr)
        }),
        ({
            let off = stored(
                clock_ops(clocks, 0, secdma_gate(!clocks.dma, !clocks.crypto)),
                addr,
                v,
            );
            off & enable_bits(clocks, addr) == 0
        }),
{
    only_chosen_gates_change(
        clocks,
        PRCM_CLK_EN,
        secdma_gate(clocks.dma, clocks.crypto),
        addr,
        v,
    );
    only_chosen_gates_change(clocks, 0, secdma_gate(!clocks.dma, !clocks.crypto), addr, v);
    let w = (v & !PRCM_CLKLOADCTL_LOAD) | PRCM_CLKLOADCTL_LOAD;
    assert(v & 0 == 0 && w & 0 == 0 && 1u32 & 1u32 == 1 && 0u32 & 1u32 == 0 && 0x100u32 & 0x100u32
        == 0x100 && 0x101u32 & 0x101u32 == 0x101 && 0x100u32 & 1u32 == 0 && 1u32 & 0x100u32 == 0
        && 0u32 & 0x101u32 == 0 && 0x101u32 & 0u32 == 0 && 0u32 & 0u32 == 0) by (bit_vector);
}

} // verus!
