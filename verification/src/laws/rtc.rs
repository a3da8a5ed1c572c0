//! Laws of the real-time clock.
use crate::chip::Interrupt;
use crate::hw::{stored, stored_by, Call, Op, Task};
use crate::regs::{AON_RTC_SEC, AON_RTC_SUBSEC};
use crate::rtc::{
    alarm_value, combine_time, compare_value, rearm_value, setup, Deadline, Instance,
    InterruptHandler, Rtc, Sleep, State,
};
use vstd::prelude::*;

verus! {

/// A point in time in 2^32ths of a second.
pub open spec fn instant(secs: u32, subsecs: u32) -> int {
    secs * 0x1_0000_0000 + subsecs
}

/// A point in time in whole 2^16ths of a second.
pub open spec fn steps(secs: u32, subsecs: u32) -> int {
    instant(secs, subsecs) / 0x1_0000
}

/// The operation that sets the compare value of the alarm's channel.
pub open spec fn compare_with(value: int) -> Op {
    Op::Call(Call::AonRtcCompareValueSet { channel: 1, value: value as u32 })
}

/// The value with which the alarm comes at a time: the 2^16ths of a second, of which the
/// compare register holds the low 32 bits, where the time lies ahead in the same 2^16 seconds;
/// otherwise the last value before the compare value starts over.
pub open spec fn alarm_for(now_secs: u32, secs: u32, subsecs: u32) -> int {
    if now_secs <= secs && now_secs / 0x1_0000 == secs / 0x1_0000 {
        steps(secs, subsecs) % 0x1_0000_0000
    } else {
        0xFFFF_FFFF
    }
}

/// Joining seconds and fraction loses nothing.
pub proof fn joined_time_can_be_split(secs: u32, subsecs: u32, r: u64)
    requires
        call_ensures(combine_time, (secs, subsecs), r),
    ensures
        r == instant(secs, subsecs),
        r / 0x1_0000_0000 == secs,
        r % 0x1_0000_0000 == subsecs,
{
}

/// The compare value of a time is the low 32 bits of its 2^16ths of a second.
pub proof fn compare_value_counts_steps(secs: u32, subsecs: u32, r: u32)
    requires
        call_ensures(compare_value, (secs, subsecs), r),
    ensures
        r == steps(secs, subsecs) % 0x1_0000_0000,
{
    assert(steps(secs, subsecs) == secs * 0x1_0000 + subsecs as int / 0x1_0000);
}

/// The compare value that waits for a time ahead: where the time is in the same 2^16 seconds,
/// the compare value gets there in as many steps as are left; where it is not, the interrupt
/// comes at the end of these 2^16 seconds.
pub proof fn alarm_waits_for_its_time(
    now_secs: u32,
    now_subsecs: u32,
    secs: u32,
    subsecs: u32,
    r: u32,
    now: u32,
)
    requires
        call_ensures(alarm_value, (now_secs, secs, subsecs), r),
        call_ensures(compare_value, (now_secs, now_subsecs), now),
    ensures
        r == alarm_for(now_secs, secs, subsecs),
        now_secs <= secs && now_secs / 0x1_0000 == secs / 0x1_0000 ==> r - now == steps(
            secs,
            subsecs,
        ) - steps(now_secs, now_subsecs),
{
    compare_value_counts_steps(now_secs, now_subsecs, now);
    assert(steps(secs, subsecs) == secs * 0x1_0000 + subsecs as int / 0x1_0000);
    assert(steps(now_secs, now_subsecs) == now_secs * 0x1_0000 + now_subsecs as int / 0x1_0000);
}

/// The compare value with which the interrupt handler goes on waiting.
pub proof fn rearmed_alarm_waits_for_its_time(deadline: Deadline, now_secs: u32, r: u32)
    requires
        call_ensures(rearm_value, (deadline, now_secs), r),
    ensures
        r == if deadline.secs < now_secs + 0x1_0000 {
            steps(deadline.secs, deadline.subsecs) % 0x1_0000_0000
        } else {
            0xFFFF_FFFF
        },
{
    assert(steps(deadline.secs, deadline.subsecs) == deadline.secs * 0x1_0000
        + deadline.subsecs as int / 0x1_0000);
}

/// The interrupt handler wakes the task just when the deadline is passed, and forgets the
/// deadline then; before that it waits on, and keeps the deadline.
pub proof fn handler_wakes_after_the_deadline<T: Instance>(
    s: &mut State,
    deadline: Deadline,
    secs: u32,
    subsecs: u32,
    ops: Vec<Op>,
)
    requires
        call_ensures(InterruptHandler::<T>::on_interrupt, (s, secs, subsecs), ops),
        old(s).next_deadline == Some(deadline),
    ensures
        ops@.len() == 1,
        ops@[0] == Op::Wake(Task::Rtc) <==> secs > deadline.secs || (secs == deadline.secs
            && subsecs > deadline.subsecs),
        ops@[0] == Op::Wake(Task::Rtc) ==> final(s).next_deadline is None,
        ops@[0] != Op::Wake(Task::Rtc) ==> *final(s) == *old(s) && ops@[0] == compare_with(
            if deadline.secs < secs + 0x1_0000 {
                steps(deadline.secs, deadline.subsecs) % 0x1_0000_0000
            } else {
                0xFFFF_FFFF
            },
        ),
{
    assert(steps(deadline.secs, deadline.subsecs) == deadline.secs * 0x1_0000
        + deadline.subsecs as int / 0x1_0000);
}

/// Without a deadline the interrupt handler wakes the task at any time but the first.
pub proof fn handler_without_a_deadline_wakes<T: Instance>(
    s: &mut State,
    secs: u32,
    subsecs: u32,
    ops: Vec<Op>,
)
    requires
        call_ensures(InterruptHandler::<T>::on_interrupt, (s, secs, subsecs), ops),
        old(s).next_deadline is None,
    ensures
        final(s).next_deadline is None,
        ops@.len() == 1,
        ops@[0] == if secs == 0 && subsecs == 0 {
            compare_with(0)
        } else {
            Op::Wake(Task::Rtc)
        },
{
}

/// Whether a sleep has begun that ends at a time: the deadline is that time, it is the one
/// that the interrupt handler knows, and the alarm waits for it.
pub open spec fn sleeps_until(
    sleep: Option<Sleep>,
    state: State,
    now_secs: u32,
    until: int,
) -> bool {
    match sleep {
        Some(s) => {
            &&& instant(s.deadline.secs, s.deadline.subsecs) == until
            &&& state.next_deadline == Some(s.deadline)
            &&& s.ops@.len() == 2
            &&& s.ops@[0] == Op::Fence
            &&& s.ops@[1] == compare_with(
                alarm_for(now_secs, s.deadline.secs, s.deadline.subsecs),
            )
        },
        None => false,
    }
}

/// The value that a sleep sets is the one with which the alarm comes at its deadline.
pub proof fn sleep_waits(now_secs: u32, deadline: Deadline)
    ensures
        crate::rtc::alarm_point(now_secs, deadline.secs, deadline.subsecs) == alarm_for(
            now_secs,
            deadline.secs,
            deadline.subsecs,
        ),
        0 <= alarm_for(now_secs, deadline.secs, deadline.subsecs) <= 0xFFFF_FFFF,
        now_secs / 0x1_0000 == deadline.secs / 0x1_0000 && now_secs <= deadline.secs ==> alarm_for(
            now_secs,
            deadline.secs,
            deadline.subsecs,
        ) == (deadline.secs as int % 0x1_0000) * 0x1_0000 + deadline.subsecs as int / 0x1_0000,
{
    assert(steps(deadline.secs, deadline.subsecs) == deadline.secs * 0x1_0000
        + deadline.subsecs as int / 0x1_0000);
}

/// A sleep of seconds ends just so many seconds after it began; one of no seconds is none.
pub proof fn sleep_takes_its_seconds<T: Instance>(
    rtc: Rtc<T>,
    state: &mut State,
    seconds: u32,
    secs: u32,
    subsecs: u32,
    r: Option<Sleep>,
)
    requires
        call_ensures(Rtc::<T>::sleep, (&rtc, state, seconds, secs, subsecs), r),
        secs + seconds <= u32::MAX,
    ensures
        seconds == 0 ==> r is None && *final(state) == *old(state),
        seconds > 0 ==> sleeps_until(
            r,
            *final(state),
            secs,
            instant(secs, subsecs) + seconds * 0x1_0000_0000,
        ),
{
    if seconds > 0 {
        sleep_waits(secs, r->0.deadline);
    }
}

/// A sleep of milliseconds ends so many whole seconds after it began, and for each
/// millisecond beside them a 1024th of a second later; one of no milliseconds is none.
pub proof fn sleep_takes_its_milliseconds<T: Instance>(
    rtc: Rtc<T>,
    state: &mut State,
    millis: u32,
    secs: u32,
    subsecs: u32,
    r: Option<Sleep>,
    length: int,
)
    requires
        call_ensures(Rtc::<T>::sleep_millis, (&rtc, state, millis, secs, subsecs), r),
        1024 * length == (millis as int / 1000) * 1024 * 0x1_0000_0000 + (millis as int % 1000)
            * 0x1_0000_0000,
    ensures
        millis == 0 ==> r is None && *final(state) == *old(state),
        millis > 0 ==> sleeps_until(r, *final(state), secs, instant(secs, subsecs) + length),
{
    if millis > 0 {
        sleep_waits(secs, r->0.deadline);
    }
}

/// The longer sleep does not end before the shorter one.
pub proof fn longer_sleep_ends_later<T: Instance>(
    rtc: Rtc<T>,
    s: &mut State,
    t: &mut State,
    short: u32,
    long: u32,
    secs: u32,
    subsecs: u32,
    a: Option<Sleep>,
    b: Option<Sleep>,
)
    requires
        call_ensures(Rtc::<T>::sleep_millis, (&rtc, s, short, secs, subsecs), a),
        call_ensures(Rtc::<T>::sleep_millis, (&rtc, t, long, secs, subsecs), b),
        0 < short < long,
    ensures
        a is Some && b is Some,
        instant(a->0.deadline.secs, a->0.deadline.subsecs) < instant(
            b->0.deadline.secs,
            b->0.deadline.subsecs,
        ),
{
}

/// A task that is to wake up at a time sleeps until the first instant that is not before it,
/// unless that has come.
pub proof fn wake_up_is_at_its_time<T: Instance>(
    rtc: Rtc<T>,
    state: &mut State,
    seconds: u32,
    millis: u32,
    secs: u32,
    subsecs: u32,
    r: Option<Sleep>,
    until: int,
)
    requires
        call_ensures(Rtc::<T>::wakeup_at, (&rtc, state, seconds, millis, secs, subsecs), r),
        (until - 1) * 1000 < (seconds * 1000 + millis) * 0x1_0000_0000 <= until * 1000,
    ensures
        instant(secs, subsecs) >= until ==> r is None && *final(state) == *old(state),
        instant(secs, subsecs) < until ==> sleeps_until(r, *final(state), secs, until),
{
    if r is Some {
        sleep_waits(secs, r->0.deadline);
    }
}

/// A sleep is over from its deadline on.
pub proof fn sleep_is_over_from_its_deadline<T: Instance>(
    deadline: Deadline,
    secs: u32,
    subsecs: u32,
    r: bool,
)
    requires
        call_ensures(Rtc::<T>::is_over, (deadline, secs, subsecs), r),
    ensures
        r <==> secs > deadline.secs || (secs == deadline.secs && subsecs >= deadline.subsecs),
{
}

/// The current time is told in seconds and whole milliseconds.
pub proof fn current_time_is_in_milliseconds<T: Instance>(
    rtc: Rtc<T>,
    secs: u32,
    subsecs: u32,
    r: (u32, u32),
)
    requires
        call_ensures(Rtc::<T>::get_current_time, (&rtc, secs, subsecs), r),
    ensures
        r.0 == secs,
        r.1 * 0x1_0000_0000 <= subsecs * 1000 < (r.1 + 1) * 0x1_0000_0000,
{
}

/// A deadline that was set is the one that is there, until it is cleared.
pub proof fn deadline_is_there_until_cleared(
    a: &mut State,
    b: &mut State,
    deadline: Deadline,
    held: Option<Deadline>,
    left: Option<Deadline>,
)
    requires
        call_ensures(State::set_next_deadline, (a, deadline), ()),
        call_ensures(State::get_next_deadline, (final(a),), held),
        call_ensures(State::clear_next_deadline, (b,), ()),
        call_ensures(State::get_next_deadline, (final(b),), left),
    ensures
        held == Some(deadline),
        left is None,
{
}

/// Whether the operations set up the clock. It is stopped first, and started again with
/// both counters at zero; the events of its three channels are cleared while it is stopped,
/// and wake up the processor by the three lines; channel 0 alone is in the combined event.
pub open spec fn sets_up(ops: Seq<Op>, masked: bool, channel: bool, irq: Interrupt) -> bool {
    let start = if channel {
        11int
    } else {
        10int
    };
    &&& ops.len() == start + if masked {
        3int
    } else {
        4int
    }
    &&& ops[0] == Op::Call(Call::AonRtcDisable)
    &&& forall|k: int|
        0 <= k < 3 ==> (#[trigger] ops[1 + k] matches Op::Call(Call::AonRtcEventClear { channel: c })
            && c == if k == 0 {
            1int
        } else {
            2 * k
        })
    &&& forall|k: int|
        0 <= k < 3 ==> (#[trigger] ops[4 + k] matches Op::Call(
            Call::AonEventMcuWakeUpSet { wake_up, event },
        ) && wake_up == k && event == 35 + k)
    &&& ops[7] == Op::Call(Call::AonRtcCombinedEventConfig { channels: 1 })
    &&& forall|v: u32| #[trigger] stored(ops, AON_RTC_SEC, v) == 0
    &&& forall|v: u32| #[trigger] stored(ops, AON_RTC_SUBSEC, v) == 0
    &&& channel ==> ops[10] == Op::Call(Call::AonRtcChannelEnable { channel: 1 })
    &&& ops[start] == Op::Call(Call::AonRtcEnable)
    &&& !masked ==> ops[start + 1] == Op::Call(Call::IntMasterEnable)
    &&& ops[ops.len() - 2] == Op::Unpend(irq)
    &&& ops.last() == Op::Enable(irq)
}

/// Setting up the clock is what it is, whatever was off before.
pub proof fn clock_is_set_up(masked: bool, channel: bool, irq: Interrupt, ops: Vec<Op>)
    requires
        call_ensures(setup, (masked, channel, irq), ops),
    ensures
        sets_up(ops@, masked, channel, irq),
{
    counters_start_at_zero(masked, channel, irq);
}

/// Setting up the clock leaves both its counters at zero.
pub proof fn counters_start_at_zero(masked: bool, channel: bool, irq: Interrupt)
    ensures
        forall|v: u32|
            #[trigger] stored(crate::rtc::setup_ops(masked, channel, irq), AON_RTC_SEC, v) == 0,
        forall|v: u32|
            #[trigger] stored(crate::rtc::setup_ops(masked, channel, irq), AON_RTC_SUBSEC, v) == 0,
{
    let all = crate::rtc::setup_ops(masked, channel, irq);
    assert forall|v: u32| #[trigger] stored(all, AON_RTC_SEC, v) == 0 by {
        stores_stay(all, 8, all.len() as int, AON_RTC_SEC, v);
        assert(all.take(all.len() as int) =~= all);
    }
    assert forall|v: u32| #[trigger] stored(all, AON_RTC_SUBSEC, v) == 0 by {
        stores_stay(all, 9, all.len() as int, AON_RTC_SUBSEC, v);
        assert(all.take(all.len() as int) =~= all);
    }
}

/// What is written to a register stays there until something else is.
pub proof fn stores_stay(ops: Seq<Op>, at: int, n: int, addr: u32, v: u32)
    requires
        0 <= at < n <= ops.len(),
        ops[at] matches Op::Write { addr: a, value } && a == addr,
        forall|i: int, x: u32| at < i < n ==> #[trigger] stored_by(ops[i], addr, x) == x,
    ensures
        stored(ops.take(n), addr, v) == (ops[at]->Write_value),
    decreases n,
{
    assert(ops.take(n).last() == ops[n - 1]);
    assert(ops.take(n).drop_last() =~= ops.take(n - 1));
    if n - 1 > at {
        stores_stay(ops, at, n - 1, addr, v);
    }
}

/// The driver of the clock sets it up with the alarm's channel on.
pub proof fn driver_sets_up_the_clock<T: Instance>(masked: bool, r: (Rtc<T>, Vec<Op>))
    requires
        call_ensures(Rtc::<T>::new, (masked,), r),
    ensures
        sets_up(r.1@, masked, true, T::irq()),
{
    counters_start_at_zero(masked, true, T::irq());
}

} // verus!
