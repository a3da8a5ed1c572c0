//! The general purpose timer.
//!
//! Timer A counts up at 48 MHz. A sleep that is too long for the counter lets it overflow
//! a number of times first, and then waits for a match with the rest.
use crate::chip::{Interrupt, GPT0};
use crate::driverlib::{GPT0_BASE, TIMER_A};
use crate::hw::{stored, Call, Op, Task};
use crate::regs::{
    GPT0_CFG, GPT0_CFG_32BIT_TIMER, GPT0_CTL, GPT0_CTL_TASTALL, GPT0_ICLR, GPT0_IMR,
    GPT0_IMR_TAMIM, GPT0_IMR_TATOIM, GPT0_MIS_TAMMIS, GPT0_MIS_TATOMIS, GPT0_TAMR,
    GPT0_TAMR_TACDIR, GPT0_TAMR_TACINTD, GPT0_TAMR_TAMIE, GPT0_TAMR_TAMR, GPT0_TAMR_TAMR_PERIODIC,
    GPT0_TAV,
};
use std::marker::PhantomData;
use vstd::prelude::*;

verus! {

/// Cycles of the timer per second.
pub const CLOCK_FREQUENCY: u64 = 48_000_000;

/// How many cycles count as one overflow.
pub const OVERFLOW_CYCLES: u64 = 0xFFFF_FFFF;

/// A sleep: how often the counter overflows, and the count at which it ends after that.
#[derive(Clone, Copy, Debug, PartialEq, Eq, Structural)]
pub struct SleepTransaction {
    pub final_deadline: u32,
    pub overflow_limit: u32,
    pub overflow_count: u32,
}

impl SleepTransaction {
    /// A sleep that has not begun.
    pub fn new(final_deadline: u32, overflow_limit: u32) -> (r: Self)
        ensures
            r == (SleepTransaction { final_deadline, overflow_limit, overflow_count: 0 }),
    {
        Self { final_deadline, overflow_limit, overflow_count: 0 }
    }

    /// How many cycles the sleep takes as a whole.
    pub open spec fn cycles(self) -> int {
        self.overflow_limit * OVERFLOW_CYCLES + self.final_deadline
    }

    /// The sleep with one more overflow.
    pub open spec fn overflowed(self) -> SleepTransaction {
        SleepTransaction { overflow_count: (self.overflow_count + 1) as u32, ..self }
    }

    /// Whether the counter has overflowed often enough.
    pub open spec fn is_last_round(self) -> bool {
        self.overflow_count >= self.overflow_limit
    }

    fn for_cycles(sleep_in_hz: u64) -> (r: Self)
        requires
            sleep_in_hz < OVERFLOW_CYCLES * 0x1_0000_0000,
        ensures
            r.cycles() == sleep_in_hz,
            r.final_deadline < OVERFLOW_CYCLES,
            r.overflow_count == 0,
    {
        Self::new(
            (sleep_in_hz % OVERFLOW_CYCLES) as u32,
            (sleep_in_hz / OVERFLOW_CYCLES) as u32,
        )
    }
}

/// What the driver and its interrupt handler share.
#[derive(Clone, Copy, Debug, PartialEq, Eq, Structural)]
pub struct State {
    pub transaction_finished: bool,
    pub curr_transaction: Option<SleepTransaction>,
}

impl State {
    /// No sleep has begun.
    pub fn new() -> (r: Self)
        ensures
            r == (State { transaction_finished: false, curr_transaction: None }),
    {
        Self { transaction_finished: false, curr_transaction: None }
    }

    /// Sets the sleep.
    pub fn set_new_transaction(&mut self, transaction: SleepTransaction)
        ensures
            *final(self) == (State { curr_transaction: Some(transaction), ..*old(self) }),
    {
        self.curr_transaction = Some(transaction);
    }

    /// Forgets the sleep.
    pub fn clear_transaction(&mut self)
        ensures
            *final(self) == (State { curr_transaction: None, ..*old(self) }),
    {
        self.curr_transaction = None;
    }

    /// The sleep.
    pub fn get_curr_transaction(&self) -> (r: Option<SleepTransaction>)
        ensures
            r == self.curr_transaction,
    {
        self.curr_transaction
    }

    /// Whether the sleep is over; the next sleep starts afresh.
    pub fn take_finished(&mut self) -> (r: bool)
        ensures
            r == old(self).transaction_finished,
            *final(self) == (State { transaction_finished: false, ..*old(self) }),
    {
        let finished: bool = self.transaction_finished;
        self.transaction_finished = false;
        finished
    }
}

/// Timer peripheral instance.
pub trait Instance {
    /// Interrupt for this peripheral.
    spec fn irq() -> Interrupt;

    /// Interrupt for this peripheral.
    fn interrupt() -> (r: Interrupt)
        ensures
            r == Self::irq(),
    ;
}

impl Instance for GPT0 {
    open spec fn irq() -> Interrupt {
        Interrupt::GPT0A
    }

    fn interrupt() -> (r: Interrupt) {
        Interrupt::GPT0A
    }
}

/// Stops the timer.
pub open spec fn stop_op() -> Op {
    Op::Call(Call::TimerDisable { base: GPT0_BASE, timer: TIMER_A })
}

/// Sets the count that the timer matches.
pub open spec fn match_op(value: u32) -> Op {
    Op::Call(Call::TimerMatchSet { base: GPT0_BASE, timer: TIMER_A, value })
}

/// Turns the interrupt on match on or off.
pub open spec fn match_interrupt_op(on: bool) -> Op {
    Op::Modify {
        addr: GPT0_TAMR,
        clear: GPT0_TAMR_TAMIE,
        set: if on {
            GPT0_TAMR_TAMIE
        } else {
            0
        },
    }
}

/// What an overflow does at the count `curr_time`: state, operations, and whether the
/// sleep is over with that.
pub open spec fn after_overflow(s: State, curr_time: u32) -> (State, Seq<Op>, bool) {
    let st = (s.curr_transaction->0).overflowed();
    if !st.is_last_round() {
        (State { curr_transaction: Some(st), ..s }, seq![match_op(u32::MAX)], false)
    } else if curr_time >= st.final_deadline {
        (
            State { curr_transaction: Some(st), transaction_finished: true },
            seq![stop_op(), Op::Wake(Task::Gpt)],
            true,
        )
    } else {
        (
            State { curr_transaction: Some(st), ..s },
            seq![match_op(st.final_deadline), match_interrupt_op(true)],
            false,
        )
    }
}

/// What an interrupt does, from the interrupt status and the count `curr_time`: the
/// overflow first, then the match, which ends the sleep.
pub open spec fn after_interrupt(s: State, mis: u32, curr_time: u32) -> (State, Seq<Op>) {
    let (s1, ops, over) = if mis & GPT0_MIS_TATOMIS != 0 {
        after_overflow(s, curr_time)
    } else {
        (s, seq![], false)
    };
    if !over && mis & GPT0_MIS_TAMMIS != 0 {
        (
            State { curr_transaction: None, transaction_finished: true },
            ops + seq![stop_op(), Op::Wake(Task::Gpt)],
        )
    } else {
        (s1, ops)
    }
}

/// Interrupt handler.
pub struct InterruptHandler<T: Instance> {
    pub _phantom: PhantomData<T>,
}

impl<T: Instance> InterruptHandler<T> {
    /// The first part of handling the interrupt, once its status is read.
    pub fn acknowledge() -> (ops: Vec<Op>)
        ensures
            ops@ == seq![Op::Modify { addr: GPT0_ICLR, clear: u32::MAX, set: u32::MAX }],
    {
        vec![Op::Modify { addr: GPT0_ICLR, clear: u32::MAX, set: u32::MAX }]
    }

    /// Handles the interrupt. `mis` is the interrupt status, `curr_time` the count of the
    /// timer. Interrupts are enabled only while there is a sleep.
    pub fn on_interrupt(s: &mut State, mis: u32, curr_time: u32) -> (ops: Vec<Op>)
        requires
            old(s).curr_transaction is Some,
            mis & GPT0_MIS_TATOMIS != 0 ==> (old(s).curr_transaction->0).overflow_count < u32::MAX,
        ensures
            (*final(s), ops@) == after_interrupt(*old(s), mis, curr_time),
    {
        let mut st: SleepTransaction = s.get_curr_transaction().unwrap();
        let mut ops: Vec<Op> = Vec::new();
        if mis & GPT0_MIS_TATOMIS != 0 {
            // Overflow happened, update overflow count and check if we met the limit.
            st.overflow_count = st.overflow_count + 1;
            s.set_new_transaction(st);
            if st.overflow_count >= st.overflow_limit {
                if curr_time >= st.final_deadline {
                    s.transaction_finished = true;
                    ops.push(Op::Call(Call::TimerDisable { base: GPT0_BASE, timer: TIMER_A }));
                    ops.push(Op::Wake(Task::Gpt));
                    return ops;
                }
                ops.push(
                    Op::Call(
                        Call::TimerMatchSet {
                            base: GPT0_BASE,
                            timer: TIMER_A,
                            value: st.final_deadline,
                        },
                    ),
                );
                ops.push(
                    Op::Modify { addr: GPT0_TAMR, clear: GPT0_TAMR_TAMIE, set: GPT0_TAMR_TAMIE },
                );
            } else {
                ops.push(
                    Op::Call(
                        Call::TimerMatchSet { base: GPT0_BASE, timer: TIMER_A, value: u32::MAX },
                    ),
                );
            }
        }
        if mis & GPT0_MIS_TAMMIS != 0 {
            // Match interrupt fired, we finished the sleep transaction.
            s.clear_transaction();
            s.transaction_finished = true;
            ops.push(Op::Call(Call::TimerDisable { base: GPT0_BASE, timer: TIMER_A }));
            ops.push(Op::Wake(Task::Gpt));
        }
        ops
    }
}

/// The operations that set the timer up.
pub open spec fn setup_ops(irq: Interrupt) -> Seq<Op> {
    seq![
        stop_op(),
        Op::Write { addr: GPT0_CFG, value: GPT0_CFG_32BIT_TIMER },
        // Interrupts on time-out and match, counting up, periodic mode.
        Op::Modify { addr: GPT0_TAMR, clear: 0x1033, set: 0x32 },
        // Stop when the debugger halts the program.
        Op::Write { addr: GPT0_CTL, value: GPT0_CTL_TASTALL },
        Op::Modify { addr: GPT0_IMR, clear: 0x11, set: 0x11 },
        Op::Unpend(irq),
        Op::Enable(irq),
    ]
}

/// The operations that begin a sleep. One that overflows waits for the overflows first,
/// without an interrupt on match.
pub open spec fn sleep_ops(st: SleepTransaction) -> Seq<Op> {
    seq![
        stop_op(),
        Op::Write { addr: GPT0_TAV, value: 0 },
        match_op(
            if st.overflow_limit == 0 {
                st.final_deadline
            } else {
                u32::MAX
            },
        ),
        match_interrupt_op(st.overflow_limit == 0),
        Op::Fence,
        Op::Call(Call::TimerEnable { base: GPT0_BASE, timer: TIMER_A }),
    ]
}

/// Driver of the general purpose timer.
pub struct Gpt<T: Instance> {
    pub _peri: PhantomData<T>,
}

impl<T: Instance> Gpt<T> {
    /// Sets the timer up.
    pub fn new() -> (r: (Self, Vec<Op>))
        ensures
            r.1@ == setup_ops(T::irq()),
    {
        let mode_mask: u32 = GPT0_TAMR_TACINTD | GPT0_TAMR_TAMIE | GPT0_TAMR_TACDIR
            | GPT0_TAMR_TAMR;
        let mode: u32 = GPT0_TAMR_TAMIE | GPT0_TAMR_TACDIR | GPT0_TAMR_TAMR_PERIODIC;
        let irqs: u32 = GPT0_IMR_TAMIM | GPT0_IMR_TATOIM;
        assert(mode_mask == 0x1033 && mode == 0x32 && irqs == 0x11) by (bit_vector)
            requires
                mode_mask == 0x1000u32 | 0x20u32 | 0x10u32 | 0x3u32,
                mode == 0x20u32 | 0x10u32 | 0x2u32,
                irqs == 0x10u32 | 0x1u32,
        ;
        let ops: Vec<Op> = vec![
            Op::Call(Call::TimerDisable { base: GPT0_BASE, timer: TIMER_A }),
            Op::Write { addr: GPT0_CFG, value: GPT0_CFG_32BIT_TIMER },
            // Enable time-out event and match interrupts, count up, run in periodic mode.
            Op::Modify { addr: GPT0_TAMR, clear: mode_mask, set: mode },
            // Stop GPT when debugger halts the program.
            Op::Write { addr: GPT0_CTL, value: GPT0_CTL_TASTALL },
            // Enable match and time-out interrupts.
            Op::Modify { addr: GPT0_IMR, clear: irqs, set: irqs },
            Op::Unpend(T::interrupt()),
            Op::Enable(T::interrupt()),
        ];
        (Gpt { _peri: PhantomData }, ops)
    }

    fn sleep_internal(state: &mut State, st: SleepTransaction) -> (ops: Vec<Op>)
        ensures
            *final(state) == (State { curr_transaction: Some(st), ..*old(state) }),
            ops@ == sleep_ops(st),
    {
        // If there is overflow, we first need to sleep for u32::MAX for overflow_limit times;
        // otherwise we immediately want to sleep for the specified amount.
        let direct: bool = st.overflow_limit == 0;
        let value: u32 = if direct {
            st.final_deadline
        } else {
            u32::MAX
        };
        let set: u32 = if direct {
            GPT0_TAMR_TAMIE
        } else {
            0
        };
        state.set_new_transaction(st);
        vec![
            Op::Call(Call::TimerDisable { base: GPT0_BASE, timer: TIMER_A }),
            Op::Write { addr: GPT0_TAV, value: 0 },
            Op::Call(Call::TimerMatchSet { base: GPT0_BASE, timer: TIMER_A, value }),
            Op::Modify { addr: GPT0_TAMR, clear: GPT0_TAMR_TAMIE, set },
            Op::Fence,
            Op::Call(Call::TimerEnable { base: GPT0_BASE, timer: TIMER_A }),
        ]
    }

    /// Sleeps for the specified amount of time in seconds.
    pub fn sleep(&self, state: &mut State, seconds: u32) -> (ops: Vec<Op>)
        ensures
            final(state).curr_transaction is Some,
            begins_sleep(final(state).curr_transaction->0, seconds * CLOCK_FREQUENCY),
            final(state).transaction_finished == old(state).transaction_finished,
            ops@ == sleep_ops(final(state).curr_transaction->0),
    {
        let sleep_in_hz: u64 = (seconds as u64) * CLOCK_FREQUENCY;
        Self::sleep_internal(state, SleepTransaction::for_cycles(sleep_in_hz))
    }

    /// Sleeps for the specified amount of time in milliseconds.
    pub fn sleep_millis(&self, state: &mut State, milliseconds: u32) -> (ops: Vec<Op>)
        ensures
            final(state).curr_transaction is Some,
            begins_sleep(
                final(state).curr_transaction->0,
                milliseconds * CLOCK_FREQUENCY / 1000,
            ),
            final(state).transaction_finished == old(state).transaction_finished,
            ops@ == sleep_ops(final(state).curr_transaction->0),
    {
        let sleep_in_hz: u64 = (milliseconds as u64) * CLOCK_FREQUENCY / 1000;
        Self::sleep_internal(state, SleepTransaction::for_cycles(sleep_in_hz))
    }
}

/// Whether the sleep is one of `cycles` cycles that has not begun.
pub open spec fn begins_sleep(st: SleepTransaction, cycles: int) -> bool {
    st.cycles() == cycles && st.final_deadline < OVERFLOW_CYCLES && st.overflow_count == 0
}

/// The split into overflows and a rest is the only one.
pub proof fn sleep_split_is_unique(a: SleepTransaction, b: SleepTransaction, cycles: int)
    requires
        begins_sleep(a, cycles),
        begins_sleep(b, cycles),
    ensures
        a == b,
{
    assert(a.overflow_limit == b.overflow_limit) by (nonlinear_arith)
        requires
            a.overflow_limit * 0xFFFF_FFFF + a.final_deadline == b.overflow_limit * 0xFFFF_FFFF
                + b.final_deadline,
            0 <= a.final_deadline < 0xFFFF_FFFF,
            0 <= b.final_deadline < 0xFFFF_FFFF,
    ;
}

/// The state after a number of overflows, at the given counts of the timer.
pub open spec fn after_overflows(s: State, times: Seq<u32>) -> State
    decreases times.len(),
{
    if times.len() == 0 {
        s
    } else {
        after_overflow(after_overflows(s, times.drop_last()), times.last()).0
    }
}

/// A sleep counts its overflows, and does not end before the last of them.
pub proof fn sleep_waits_for_all_overflows(s: State, st: SleepTransaction, times: Seq<u32>)
    requires
        s == (State { transaction_finished: false, curr_transaction: Some(st) }),
        st.overflow_count == 0,
        times.len() < st.overflow_limit,
    ensures
        after_overflows(s, times) == (State {
            transaction_finished: false,
            curr_transaction: Some(
                SleepTransaction { overflow_count: times.len() as u32, ..st },
            ),
        }),
    decreases times.len(),
{
    if times.len() > 0 {
        sleep_waits_for_all_overflows(s, st, times.drop_last());
    }
}

/// The last overflow of a sleep ends it if the rest has passed already, and otherwise makes
/// the timer interrupt at the count that is left.
pub proof fn last_overflow_arms_the_rest(
    s: State,
    st: SleepTransaction,
    times: Seq<u32>,
    curr_time: u32,
)
    requires
        s == (State { transaction_finished: false, curr_transaction: Some(st) }),
        st.overflow_count == 0,
        times.len() + 1 == st.overflow_limit,
    ensures
        ({
            let (after, ops, over) = after_overflow(after_overflows(s, times), curr_time);
            if curr_time >= st.final_deadline {
                over && after.transaction_finished && ops == seq![stop_op(), Op::Wake(Task::Gpt)]
            } else {
                !over && !after.transaction_finished && ops == seq![
                    match_op(st.final_deadline),
                    match_interrupt_op(true),
                ]
            }
        }),
{
    sleep_waits_for_all_overflows(s, st, times);
}

/// Whenever an interrupt ends a sleep, it stops the timer and wakes the task as the last
/// things it does; and a match always ends the sleep.
pub proof fn finished_sleep_wakes_the_task(s: State, mis: u32, curr_time: u32)
    requires
        s.curr_transaction is Some,
        !s.transaction_finished,
    ensures
        ({
            let (after, ops) = after_interrupt(s, mis, curr_time);
            &&& after.transaction_finished ==> ops.len() >= 2 && ops[ops.len() - 2] == stop_op()
                && ops.last() == Op::Wake(Task::Gpt)
            &&& mis & GPT0_MIS_TAMMIS != 0 ==> after.transaction_finished
            &&& !after.transaction_finished ==> !ops.contains(Op::Wake(Task::Gpt))
        }),
{
}

/// Setting the timer up leaves the mode bits alone that it does not name, and a sleep
/// changes none of them but the interrupt on match.
pub proof fn mode_bits_are_kept(irq: Interrupt, st: SleepTransaction, v: u32)
    ensures
        stored(setup_ops(irq), GPT0_TAMR, v) & !0x1033 == v & !0x1033,
        stored(sleep_ops(st), GPT0_TAMR, v) & !GPT0_TAMR_TAMIE == v & !GPT0_TAMR_TAMIE,
{
    reveal_with_fuel(stored, 8);
    let a = setup_ops(irq);
    let b = sleep_ops(st);
    assert(stored(
        a.drop_last().drop_last().drop_last().drop_last().drop_last(),
        GPT0_TAMR,
        v,
    ) == v);
    assert(stored(b.drop_last().drop_last().drop_last(), GPT0_TAMR, v) == v);
    assert(((v & !0x1033u32) | 0x32u32) & !0x1033u32 == v & !0x1033u32 && ((v & !0x20u32)
        | 0x20u32) & !0x20u32 == v & !0x20u32 && ((v & !0x20u32) | 0u32) & !0x20u32 == v & !0x20u32)
        by (bit_vector);
}

} // verus!
