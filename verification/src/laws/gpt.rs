//! Laws of the general purpose timer.
use crate::gpt::{Gpt, Instance, InterruptHandler, SleepTransaction, State};
use crate::hw::{bit, stored, Call, Op, Task};
use crate::laws::bits::{bit_5_is_set_or_cleared, powers_of_two};
use crate::regs::{GPT0_CTL, GPT0_IMR, GPT0_TAMR, GPT0_TAV};
use vstd::prelude::*;

verus! {

/// Whether the operations begin a sleep of so many cycles of 48 MHz: the timer is stopped,
/// its count is set to zero, and it is started again. Where the count reaches the end of the
/// sleep without an overflow, the timer matches just that count, and interrupts there;
/// otherwise it does not interrupt on match before the overflows are over.
pub open spec fn begins(ops: Seq<Op>, cycles: int) -> bool {
    &&& ops.len() == 6
    &&& ops[0] == Op::Call(Call::TimerDisable { base: 0x4001_0000, timer: 0xFF })
    &&& forall|v: u32| #[trigger] stored(ops, GPT0_TAV, v) == 0
    &&& ops[2] matches Op::Call(Call::TimerMatchSet { base, timer, value }) && base == 0x4001_0000
        && timer == 0xFF && value == if cycles < 0xFFFF_FFFF {
        cycles
    } else {
        0xFFFF_FFFF
    }
    &&& forall|i: int|
        0 <= i < 6 && i != 2 ==> !((#[trigger] ops[i]) matches Op::Call(
            Call::TimerMatchSet { base, timer, value },
        ))
    &&& forall|v: u32| bit(#[trigger] stored(ops, GPT0_TAMR, v), 5) == (cycles < 0xFFFF_FFFF)
    &&& ops[4] == Op::Fence
    &&& ops[5] == Op::Call(Call::TimerEnable { base: 0x4001_0000, timer: 0xFF })
}

/// Whether the state holds a sleep of so many cycles that has not begun.
pub open spec fn holds(state: State, cycles: int) -> bool {
    match state.curr_transaction {
        Some(st) => st.overflow_limit * 0xFFFF_FFFF + st.final_deadline == cycles
            && st.final_deadline < 0xFFFF_FFFF && st.overflow_count == 0,
        None => false,
    }
}

proof fn sleep_begins(ops: Seq<Op>, st: SleepTransaction, cycles: int)
    requires
        ops == crate::gpt::sleep_ops(st),
        st.overflow_limit * 0xFFFF_FFFF + st.final_deadline == cycles,
        st.final_deadline < 0xFFFF_FFFF,
    ensures
        begins(ops, cycles),
{
    powers_of_two();
    let a = ops.drop_last().drop_last().drop_last();
    assert forall|v: u32|
        #[trigger] stored(ops, GPT0_TAV, v) == 0 && bit(stored(ops, GPT0_TAMR, v), 5) == (
        st.overflow_limit == 0) by {
        reveal_with_fuel(stored, 7);
        assert(a.drop_last().drop_last().drop_last() =~= seq![]);
        assert(stored(a, GPT0_TAMR, v) == v);
        bit_5_is_set_or_cleared(v);
    }
    assert forall|v: u32| bit(#[trigger] stored(ops, GPT0_TAMR, v), 5) == (cycles
        < 0xFFFF_FFFF) by {
        assert(stored(ops, GPT0_TAV, v) == 0);
    }
}

/// A sleep of seconds takes 48000000 cycles for each of them.
pub proof fn sleep_takes_its_seconds<T: Instance>(
    gpt: Gpt<T>,
    state: &mut State,
    seconds: u32,
    ops: Vec<Op>,
)
    requires
        call_ensures(Gpt::<T>::sleep, (&gpt, state, seconds), ops),
    ensures
        holds(*final(state), seconds * 48_000_000),
        begins(ops@, seconds * 48_000_000),
        final(state).transaction_finished == old(state).transaction_finished,
{
    sleep_begins(ops@, final(state).curr_transaction->0, seconds * 48_000_000);
}

/// A sleep of milliseconds takes 48000 cycles for each of them.
pub proof fn sleep_takes_its_milliseconds<T: Instance>(
    gpt: Gpt<T>,
    state: &mut State,
    milliseconds: u32,
    ops: Vec<Op>,
)
    requires
        call_ensures(Gpt::<T>::sleep_millis, (&gpt, state, milliseconds), ops),
    ensures
        holds(*final(state), milliseconds * 48_000),
        begins(ops@, milliseconds * 48_000),
        final(state).transaction_finished == old(state).transaction_finished,
{
    assert(milliseconds * 48_000_000 / 1000 == milliseconds * 48_000);
    sleep_begins(ops@, final(state).curr_transaction->0, milliseconds * 48_000);
}

/// An overflow that is not the last one is counted, and the sleep goes on.
pub proof fn early_overflow_is_counted<T: Instance>(
    s: &mut State,
    st: SleepTransaction,
    mis: u32,
    curr_time: u32,
    ops: Vec<Op>,
)
    requires
        call_ensures(InterruptHandler::<T>::on_interrupt, (s, mis, curr_time), ops),
        old(s).curr_transaction == Some(st),
        bit(mis, 0),
        !bit(mis, 4),
        st.overflow_count + 1 < st.overflow_limit,
    ensures
        final(s).curr_transaction == Some(
            SleepTransaction {
                final_deadline: st.final_deadline,
                overflow_limit: st.overflow_limit,
                overflow_count: (st.overflow_count + 1) as u32,
            },
        ),
        final(s).transaction_finished == old(s).transaction_finished,
        ops@.len() == 1,
        ops@[0] == Op::Call(
            Call::TimerMatchSet { base: 0x4001_0000, timer: 0xFF, value: 0xFFFF_FFFF },
        ),
{
    powers_of_two();
}

/// The last overflow makes the timer interrupt at the count that is left, or, where that
/// count has been reached, ends the sleep: the timer is stopped and the task is woken.
pub proof fn last_overflow_leads_to_the_end<T: Instance>(
    s: &mut State,
    st: SleepTransaction,
    mis: u32,
    curr_time: u32,
    ops: Vec<Op>,
)
    requires
        call_ensures(InterruptHandler::<T>::on_interrupt, (s, mis, curr_time), ops),
        old(s).curr_transaction == Some(st),
        bit(mis, 0),
        !bit(mis, 4),
        st.overflow_limit <= st.overflow_count + 1 <= u32::MAX,
    ensures
        final(s).curr_transaction is Some,
        final(s).curr_transaction->0.overflow_count == st.overflow_count + 1,
        final(s).curr_transaction->0.final_deadline == st.final_deadline,
        final(s).curr_transaction->0.overflow_limit == st.overflow_limit,
        ops@.len() == 2,
        curr_time < st.final_deadline ==> {
            &&& final(s).transaction_finished == old(s).transaction_finished
            &&& ops@[0] == Op::Call(
                Call::TimerMatchSet {
                    base: 0x4001_0000,
                    timer: 0xFF,
                    value: st.final_deadline,
                },
            )
            &&& forall|v: u32| bit(#[trigger] stored(ops@, GPT0_TAMR, v), 5)
        },
        curr_time >= st.final_deadline ==> {
            &&& final(s).transaction_finished
            &&& ops@[0] == Op::Call(Call::TimerDisable { base: 0x4001_0000, timer: 0xFF })
            &&& ops@[1] == Op::Wake(Task::Gpt)
        },
{
    powers_of_two();
    if curr_time < st.final_deadline {
        assert forall|v: u32| bit(#[trigger] stored(ops@, GPT0_TAMR, v), 5) by {
            reveal_with_fuel(stored, 3);
            bit_5_is_set_or_cleared(v);
        }
    }
}

/// A match ends the sleep: the timer is stopped, the task is woken, and there is no sleep any
/// more. Without a match or an overflow nothing happens.
pub proof fn match_ends_the_sleep<T: Instance>(
    s: &mut State,
    mis: u32,
    curr_time: u32,
    ops: Vec<Op>,
)
    requires
        call_ensures(InterruptHandler::<T>::on_interrupt, (s, mis, curr_time), ops),
        !bit(mis, 0),
    ensures
        bit(mis, 4) ==> {
            &&& final(s).curr_transaction is None
            &&& final(s).transaction_finished
            &&& ops@.len() == 2
            &&& ops@[0] == Op::Call(Call::TimerDisable { base: 0x4001_0000, timer: 0xFF })
            &&& ops@[1] == Op::Wake(Task::Gpt)
        },
        !bit(mis, 4) ==> *final(s) == *old(s) && ops@.len() == 0,
{
    powers_of_two();
}

/// A match that comes together with an overflow ends the sleep as well, unless the overflow
/// has ended it.
pub proof fn match_ends_the_sleep_after_an_overflow<T: Instance>(
    s: &mut State,
    st: SleepTransaction,
    mis: u32,
    curr_time: u32,
    ops: Vec<Op>,
)
    requires
        call_ensures(InterruptHandler::<T>::on_interrupt, (s, mis, curr_time), ops),
        old(s).curr_transaction == Some(st),
        bit(mis, 0),
        bit(mis, 4),
        st.overflow_count < u32::MAX,
    ensures
        final(s).transaction_finished,
        final(s).curr_transaction is None <==> st.overflow_count + 1 < st.overflow_limit
            || curr_time < st.final_deadline,
        ops@.len() >= 2,
        ops@[ops@.len() - 2] == Op::Call(
            Call::TimerDisable { base: 0x4001_0000, timer: 0xFF },
        ),
        ops@.last() == Op::Wake(Task::Gpt),
        forall|i: int|
            0 <= i < ops@.len() - 1 ==> #[trigger] ops@[i] != Op::Wake(Task::Gpt),
{
    powers_of_two();
}

/// A sleep that was set is the one that is there, until it is cleared.
pub proof fn sleep_is_there_until_cleared(
    a: &mut State,
    b: &mut State,
    st: SleepTransaction,
    held: Option<SleepTransaction>,
    left: Option<SleepTransaction>,
)
    requires
        call_ensures(State::set_new_transaction, (a, st), ()),
        call_ensures(State::get_curr_transaction, (final(a),), held),
        call_ensures(State::clear_transaction, (b,), ()),
        call_ensures(State::get_curr_transaction, (final(b),), left),
    ensures
        held == Some(st),
        left is None,
        final(a).transaction_finished == old(a).transaction_finished,
        final(b).transaction_finished == old(b).transaction_finished,
{
}

/// The end of a sleep is told once.
pub proof fn end_is_told_once(a: &mut State, b: &mut State, first: bool, second: bool)
    requires
        call_ensures(State::take_finished, (a,), first),
        call_ensures(State::take_finished, (b,), second),
        *old(b) == *final(a),
    ensures
        first == old(a).transaction_finished,
        !second,
        final(b).curr_transaction == old(a).curr_transaction,
{
}

/// Once it is set up the timer counts up in periodic mode, as one timer of 32 bits, stops with
/// the debugger, and interrupts on match and on overflow; the interrupt is let through last.
pub proof fn timer_is_set_up<T: Instance>(r: (Gpt<T>, Vec<Op>), v: u32)
    requires
        call_ensures(Gpt::<T>::new, (), r),
    ensures
        r.1@.len() == 7,
        r.1@[0] == Op::Call(Call::TimerDisable { base: 0x4001_0000, timer: 0xFF }),
        stored(r.1@, crate::regs::GPT0_CFG, v) == 0,
        stored(r.1@, GPT0_TAMR, v) & 0x1033 == 0x32,
        stored(r.1@, GPT0_CTL, v) == 2,
        stored(r.1@, GPT0_IMR, v) & 0x11 == 0x11,
        r.1@[5] == Op::Unpend(T::irq()),
        r.1@[6] == Op::Enable(T::irq()),
{
    let ops = r.1@;
    let e = ops.drop_last().drop_last();
    assert(ops.drop_last() =~= ops.take(6) && e =~= ops.take(5) && e.drop_last() =~= ops.take(4)
        && e.drop_last().drop_last() =~= ops.take(3) && ops.take(3).drop_last() =~= ops.take(2)
        && ops.take(2).drop_last() =~= ops.take(1) && ops.take(1).drop_last() =~= seq![]);
    reveal_with_fuel(stored, 8);
    assert(((v & !0x1033u32) | 0x32u32) & 0x1033 == 0x32 && ((v & !0x11u32) | 0x11u32) & 0x11
        == 0x11) by (bit_vector);
}

/// A sleep begins with no overflow counted.
pub proof fn sleep_begins_without_overflows(deadline: u32, limit: u32, st: SleepTransaction)
    requires
        call_ensures(SleepTransaction::new, (deadline, limit), st),
    ensures
        st.final_deadline == deadline,
        st.overflow_limit == limit,
        st.overflow_count == 0,
{
}

} // verus!
