//! The real-time clock of the always-on domain.
//!
//! The clock counts seconds and 2^32ths of a second. Its compare register holds the
//! low 16 bits of the seconds and the high 16 bits of the fraction.
use crate::chip::{Interrupt, AON_RTC};
use crate::driverlib::{
    AON_EVENT_MCU_WU0, AON_EVENT_MCU_WU1, AON_EVENT_MCU_WU2, AON_EVENT_RTC_CH0, AON_EVENT_RTC_CH1,
    AON_EVENT_RTC_CH2, AON_RTC_CH0, AON_RTC_CH1, AON_RTC_CH2,
};
use crate::hw::{Call, Op, Task};
use crate::regs::{AON_RTC_SEC, AON_RTC_SUBSEC, AON_RTC_SYNC};
use std::marker::PhantomData;
use vstd::prelude::*;

verus! {

/// How many units of the fraction make a second.
pub const SUBSECS: u64 = 0x1_0000_0000;

/// How many seconds it takes until the compare value starts over.
pub const COMPARE_WRAP: u32 = 0x1_0000;

/// A time as a number of 2^32ths of a second.
pub open spec fn combined(secs: u32, subsecs: u32) -> int {
    secs * SUBSECS + subsecs
}

/// A time as a number of 2^32ths of a second.
pub fn combine_time(secs: u32, subsecs: u32) -> (r: u64)
    ensures
        r == combined(secs, subsecs),
{
    assert(((secs as u64) << 32) | (subsecs as u64) == secs as u64 * 0x1_0000_0000 + subsecs as u64)
        by (bit_vector);
    ((secs as u64) << 32) | (subsecs as u64)
}

/// A time as the compare register holds it: 2^16ths of a second, modulo 2^16 seconds.
pub open spec fn compare_point(secs: u32, subsecs: u32) -> int {
    (secs as int % 0x1_0000) * 0x1_0000 + subsecs as int / 0x1_0000
}

/// A time as the compare register holds it.
pub fn compare_value(secs: u32, subsecs: u32) -> (r: u32)
    ensures
        r == compare_point(secs, subsecs),
{
    assert((secs << 16) | (subsecs >> 16) == (secs % 0x1_0000) * 0x1_0000 + subsecs / 0x1_0000)
        by (bit_vector);
    (secs << 16) | (subsecs >> 16)
}

/// Whether the compare value of a time in second `next_secs` can be waited for in second
/// `curr_secs` without the compare value starting over.
pub open spec fn in_reach(curr_secs: u32, next_secs: u32) -> bool {
    (next_secs - curr_secs) % 0x1_0000_0000 < COMPARE_WRAP && curr_secs % COMPARE_WRAP <= next_secs
        % COMPARE_WRAP
}

/// The compare value to wait for in second `curr_secs`: that of the time, if it is in
/// reach, else the last one before the compare value starts over.
pub open spec fn alarm_point(curr_secs: u32, next_secs: u32, next_subsecs: u32) -> int {
    if in_reach(curr_secs, next_secs) {
        compare_point(next_secs, next_subsecs)
    } else {
        u32::MAX as int
    }
}

/// The compare value to wait for in second `curr_secs`.
pub fn alarm_value(curr_secs: u32, next_secs: u32, next_subsecs: u32) -> (r: u32)
    ensures
        r == alarm_point(curr_secs, next_secs, next_subsecs),
{
    assert(curr_secs & 0xFFFF == curr_secs % 0x1_0000 && next_secs & 0xFFFF == next_secs
        % 0x1_0000) by (bit_vector);
    if next_secs.wrapping_sub(curr_secs) >= COMPARE_WRAP || (curr_secs & 0xFFFF) > (next_secs
        & 0xFFFF) {
        u32::MAX
    } else {
        compare_value(next_secs, next_subsecs)
    }
}

/// The fraction of a second that has begun when `milliseconds` of it have passed: the
/// first one that is not before that.
pub open spec fn millis_point(milliseconds: int) -> int {
    (milliseconds * SUBSECS + 999) / 1000
}

/// A point in time.
#[derive(Clone, Copy, Debug, PartialEq, Eq, Structural)]
pub struct Deadline {
    pub secs: u32,
    pub subsecs: u32,
}

impl Deadline {
    /// The point in time as a number of 2^32ths of a second.
    pub open spec fn combined(self) -> int {
        combined(self.secs, self.subsecs)
    }
}

/// What the driver and its interrupt handler share.
#[derive(Clone, Copy, Debug, PartialEq, Eq, Structural)]
pub struct State {
    pub next_deadline: Option<Deadline>,
}

impl State {
    /// No deadline is set.
    pub fn new() -> (r: Self)
        ensures
            r.next_deadline is None,
    {
        Self { next_deadline: None }
    }

    /// Sets the deadline.
    pub fn set_next_deadline(&mut self, deadline: Deadline)
        ensures
            final(self).next_deadline == Some(deadline),
    {
        self.next_deadline = Some(deadline);
    }

    /// Forgets the deadline.
    pub fn clear_next_deadline(&mut self)
        ensures
            final(self).next_deadline is None,
    {
        self.next_deadline = None;
    }

    /// The deadline.
    pub fn get_next_deadline(&self) -> (r: Option<Deadline>)
        ensures
            r == self.next_deadline,
    {
        self.next_deadline
    }
}

/// AON_RTC peripheral instance.
pub trait Instance {
    /// Interrupt for this peripheral.
    spec fn irq() -> Interrupt;

    /// Interrupt for this peripheral.
    fn interrupt() -> (r: Interrupt)
        ensures
            r == Self::irq(),
    ;
}

impl Instance for AON_RTC {
    open spec fn irq() -> Interrupt {
        Interrupt::AON_RTC
    }

    fn interrupt() -> (r: Interrupt) {
        Interrupt::AON_RTC
    }
}

/// The operations that set up the clock, once interrupts are off: the clock restarts at
/// zero, its channel 0 raises the interrupt, and interrupts are on again if they were before.
pub open spec fn setup_ops(
    interrupts_disabled: bool,
    channel_enable: bool,
    irq: Interrupt,
) -> Seq<Op> {
    seq![
        Op::Call(Call::AonRtcDisable),
        Op::Call(Call::AonRtcEventClear { channel: AON_RTC_CH0 }),
        Op::Call(Call::AonRtcEventClear { channel: AON_RTC_CH1 }),
        Op::Call(Call::AonRtcEventClear { channel: AON_RTC_CH2 }),
        Op::Call(
            Call::AonEventMcuWakeUpSet { wake_up: AON_EVENT_MCU_WU0, event: AON_EVENT_RTC_CH0 },
        ),
        Op::Call(
            Call::AonEventMcuWakeUpSet { wake_up: AON_EVENT_MCU_WU1, event: AON_EVENT_RTC_CH1 },
        ),
        Op::Call(
            Call::AonEventMcuWakeUpSet { wake_up: AON_EVENT_MCU_WU2, event: AON_EVENT_RTC_CH2 },
        ),
        Op::Call(Call::AonRtcCombinedEventConfig { channels: AON_RTC_CH0 }),
        Op::Write { addr: AON_RTC_SEC, value: 0 },
        Op::Write { addr: AON_RTC_SUBSEC, value: 0 },
    ] + (if channel_enable {
        seq![Op::Call(Call::AonRtcChannelEnable { channel: AON_RTC_CH0 })]
    } else {
        seq![]
    }) + seq![Op::Call(Call::AonRtcEnable)] + (if interrupts_disabled {
        seq![]
    } else {
        seq![Op::Call(Call::IntMasterEnable)]
    }) + seq![Op::Unpend(irq), Op::Enable(irq)]
}

/// Sets up the clock, once interrupts are off; `interrupts_disabled` tells whether they
/// had been off before.
pub fn setup(interrupts_disabled: bool, channel_enable: bool, irq: Interrupt) -> (ops: Vec<Op>)
    ensures
        ops@ == setup_ops(interrupts_disabled, channel_enable, irq),
{
    let mut ops: Vec<Op> = vec![
        Op::Call(Call::AonRtcDisable),
        // Setup wake-up (WU) events
        Op::Call(Call::AonRtcEventClear { channel: AON_RTC_CH0 }),
        Op::Call(Call::AonRtcEventClear { channel: AON_RTC_CH1 }),
        Op::Call(Call::AonRtcEventClear { channel: AON_RTC_CH2 }),
        Op::Call(
            Call::AonEventMcuWakeUpSet { wake_up: AON_EVENT_MCU_WU0, event: AON_EVENT_RTC_CH0 },
        ),
        Op::Call(
            Call::AonEventMcuWakeUpSet { wake_up: AON_EVENT_MCU_WU1, event: AON_EVENT_RTC_CH1 },
        ),
        Op::Call(
            Call::AonEventMcuWakeUpSet { wake_up: AON_EVENT_MCU_WU2, event: AON_EVENT_RTC_CH2 },
        ),
        Op::Call(Call::AonRtcCombinedEventConfig { channels: AON_RTC_CH0 }),
        Op::Write { addr: AON_RTC_SEC, value: 0 },
        Op::Write { addr: AON_RTC_SUBSEC, value: 0 },
    ];
    if channel_enable {
        ops.push(Op::Call(Call::AonRtcChannelEnable { channel: AON_RTC_CH0 }));
    }
    ops.push(Op::Call(Call::AonRtcEnable));
    if !interrupts_disabled {
        ops.push(Op::Call(Call::IntMasterEnable));
    }
    ops.push(Op::Unpend(irq));
    ops.push(Op::Enable(irq));
    assert(ops@ =~= setup_ops(interrupts_disabled, channel_enable, irq));
    ops
}

/// The operations that answer the clock's event: the read waits for at least one tick of
/// 32 kHz.
pub open spec fn acknowledge_ops() -> Seq<Op> {
    seq![
        Op::Call(Call::AonRtcEventClear { channel: AON_RTC_CH0 }),
        Op::Read { addr: AON_RTC_SYNC },
    ]
}

/// Clears the clock's event and waits for at least one tick of 32 kHz.
pub fn acknowledge() -> (ops: Vec<Op>)
    ensures
        ops@ == acknowledge_ops(),
{
    vec![
        Op::Call(Call::AonRtcEventClear { channel: AON_RTC_CH0 }),
        Op::Read { addr: AON_RTC_SYNC },
    ]
}

/// The compare value with which to go on waiting for a deadline that is not passed.
pub open spec fn rearm_point(deadline: Deadline, curr_secs: u32) -> int {
    if deadline.secs < curr_secs + COMPARE_WRAP {
        compare_point(deadline.secs, deadline.subsecs)
    } else {
        u32::MAX as int
    }
}

/// The compare value with which to go on waiting for a deadline that is not passed.
pub fn rearm_value(deadline: Deadline, curr_secs: u32) -> (r: u32)
    requires
        curr_secs + COMPARE_WRAP <= u32::MAX,
    ensures
        r == rearm_point(deadline, curr_secs),
{
    if deadline.secs < curr_secs + COMPARE_WRAP {
        // There won't be any more overflows
        compare_value(deadline.secs, deadline.subsecs)
    } else {
        u32::MAX
    }
}

/// The deadline that the interrupt handler goes by; without one, the start of time.
pub open spec fn effective_deadline(state: State) -> Deadline {
    match state.next_deadline {
        Some(deadline) => deadline,
        None => Deadline { secs: 0, subsecs: 0 },
    }
}

/// Interrupt handler.
pub struct InterruptHandler<T: Instance> {
    pub _phantom: PhantomData<T>,
}

impl<T: Instance> InterruptHandler<T> {
    /// The first part of handling the interrupt, before the time is read.
    pub fn acknowledge() -> (ops: Vec<Op>)
        ensures
            ops@ == acknowledge_ops(),
    {
        acknowledge()
    }

    /// Handles the interrupt at the given time: wakes the task whose deadline is passed,
    /// or goes on waiting.
    pub fn on_interrupt(s: &mut State, curr_secs: u32, curr_subsecs: u32) -> (ops: Vec<Op>)
        requires
            combined(curr_secs, curr_subsecs) <= effective_deadline(*old(s)).combined() ==> curr_secs
                + COMPARE_WRAP <= u32::MAX,
        ensures
            combined(curr_secs, curr_subsecs) > effective_deadline(*old(s)).combined() ==> ops@
                == seq![Op::Wake(Task::Rtc)] && final(s).next_deadline is None,
            combined(curr_secs, curr_subsecs) <= effective_deadline(*old(s)).combined() ==> ops@
                == seq![
                Op::Call(
                    Call::AonRtcCompareValueSet {
                        channel: AON_RTC_CH0,
                        value: rearm_point(effective_deadline(*old(s)), curr_secs) as u32,
                    },
                ),
            ] && *final(s) == *old(s),
    {
        let next_deadline: Deadline = match s.get_next_deadline() {
            Some(deadline) => deadline,
            None => Deadline { secs: 0, subsecs: 0 },
        };
        let combined_deadline: u64 = combine_time(next_deadline.secs, next_deadline.subsecs);
        let combined_time: u64 = combine_time(curr_secs, curr_subsecs);
        if combined_time > combined_deadline {
            s.clear_next_deadline();
            vec![Op::Wake(Task::Rtc)]
        } else {
            let value: u32 = rearm_value(next_deadline, curr_secs);
            vec![Op::Call(Call::AonRtcCompareValueSet { channel: AON_RTC_CH0, value })]
        }
    }
}

/// The operations that make the interrupt come at a deadline, from second `curr_secs` on.
pub open spec fn sleep_ops(curr_secs: u32, deadline: Deadline) -> Seq<Op> {
    seq![
        Op::Fence,
        Op::Call(
            Call::AonRtcCompareValueSet {
                channel: AON_RTC_CH0,
                value: alarm_point(curr_secs, deadline.secs, deadline.subsecs) as u32,
            },
        ),
    ]
}

/// A sleep that has begun: when it ends, and what makes the interrupt come.
pub struct Sleep {
    pub deadline: Deadline,
    pub ops: Vec<Op>,
}

/// Driver of the real-time clock.
pub struct Rtc<T: Instance> {
    pub _peri: PhantomData<T>,
}

impl<T: Instance> Rtc<T> {
    /// Sets up the clock, once interrupts are off; `interrupts_disabled` tells whether
    /// they had been off before.
    pub fn new(interrupts_disabled: bool) -> (r: (Self, Vec<Op>))
        ensures
            r.1@ == setup_ops(interrupts_disabled, true, T::irq()),
    {
        (Rtc { _peri: PhantomData }, setup(interrupts_disabled, true, T::interrupt()))
    }

    fn internal_sleep(state: &mut State, curr_secs: u32, next_deadline: Deadline) -> (r: Sleep)
        ensures
            final(state).next_deadline == Some(next_deadline),
            r.deadline == next_deadline,
            r.ops@ == sleep_ops(curr_secs, next_deadline),
    {
        state.set_next_deadline(next_deadline);
        let value: u32 = alarm_value(curr_secs, next_deadline.secs, next_deadline.subsecs);
        Sleep {
            deadline: next_deadline,
            ops: vec![
                Op::Fence,
                Op::Call(Call::AonRtcCompareValueSet { channel: AON_RTC_CH0, value }),
            ],
        }
    }

    /// Whether a sleep is over at the given time.
    pub fn is_over(deadline: Deadline, new_secs: u32, new_subsecs: u32) -> (r: bool)
        ensures
            r == (deadline.combined() <= combined(new_secs, new_subsecs)),
    {
        combine_time(deadline.secs, deadline.subsecs) <= combine_time(new_secs, new_subsecs)
    }

    /// Returns seconds and milliseconds passed since boot, from what the clock reads.
    pub fn get_current_time(&self, curr_secs: u32, curr_subsecs: u32) -> (r: (u32, u32))
        ensures
            r.0 == curr_secs,
            r.1 == curr_subsecs * 1000 / (SUBSECS as int),
            r.1 < 1000,
    {
        let millis: u64 = curr_subsecs as u64 * 1000 / SUBSECS;
        (curr_secs, millis as u32)
    }

    /// Sleeps for the specified amount of time in seconds, from the given time on.
    pub fn sleep(
        &self,
        state: &mut State,
        seconds: u32,
        curr_secs: u32,
        curr_subsecs: u32,
    ) -> (r: Option<Sleep>)
        requires
            curr_secs + seconds <= u32::MAX,
        ensures
            seconds == 0 ==> r is None && *final(state) == *old(state),
            seconds != 0 ==> {
                let deadline = Deadline {
                    secs: (curr_secs + seconds) as u32,
                    subsecs: curr_subsecs,
                };
                &&& r is Some
                &&& (r->0).deadline == deadline
                &&& (r->0).ops@ == sleep_ops(curr_secs, deadline)
                &&& final(state).next_deadline == Some(deadline)
            },
    {
        if seconds == 0 {
            return None;
        }
        let deadline: Deadline = Deadline { secs: curr_secs + seconds, subsecs: curr_subsecs };
        Some(Self::internal_sleep(state, curr_secs, deadline))
    }

    /// Sleeps for the specified amount of time in milliseconds, from the given time on.
    /// A millisecond of what is left beside whole seconds counts as a 2^10th of a second.
    pub fn sleep_millis(
        &self,
        state: &mut State,
        milliseconds: u32,
        curr_secs: u32,
        curr_subsecs: u32,
    ) -> (r: Option<Sleep>)
        requires
            combined(curr_secs, curr_subsecs) + sleep_length(milliseconds) <= u64::MAX,
        ensures
            milliseconds == 0 ==> r is None && *final(state) == *old(state),
            milliseconds != 0 ==> {
                &&& r is Some
                &&& (r->0).deadline.combined() == combined(curr_secs, curr_subsecs) + sleep_length(
                    milliseconds,
                )
                &&& (r->0).ops@ == sleep_ops(curr_secs, (r->0).deadline)
                &&& final(state).next_deadline == Some((r->0).deadline)
            },
    {
        if milliseconds == 0 {
            return None;
        }
        let millis: u32 = milliseconds % 1000;
        assert(millis < 1000 ==> millis << 22 == millis * 0x40_0000) by (bit_vector);
        let mut next_secs: u32 = curr_secs + (milliseconds / 1000);
        // 1000 ~ 2^10; curr_subsecs are 32bit, so we need to shift by 22
        let next_subsecs: u32 = curr_subsecs.wrapping_add(millis << 22);
        if next_subsecs < curr_subsecs {
            // Overflow
            next_secs = next_secs + 1;
        }
        Some(
            Self::internal_sleep(
                state,
                curr_secs,
                Deadline { secs: next_secs, subsecs: next_subsecs },
            ),
        )
    }

    /// Wake up at the specified time.
    /// Time starts at zero from boot.
    pub fn wakeup_at(
        &self,
        state: &mut State,
        seconds: u32,
        milliseconds: u32,
        curr_secs: u32,
        curr_subsecs: u32,
    ) -> (r: Option<Sleep>)
        requires
            seconds + milliseconds / 1000 <= u32::MAX,
        ensures
            combined(curr_secs, curr_subsecs) >= wake_time(seconds, milliseconds) ==> r is None
                && *final(state) == *old(state),
            combined(curr_secs, curr_subsecs) < wake_time(seconds, milliseconds) ==> {
                &&& r is Some
                &&& (r->0).deadline.combined() == wake_time(seconds, milliseconds)
                &&& (r->0).ops@ == sleep_ops(curr_secs, (r->0).deadline)
                &&& final(state).next_deadline == Some((r->0).deadline)
            },
    {
        let subsecs: u64 = ((milliseconds % 1000) as u64 * SUBSECS + 999) / 1000;
        let deadline: Deadline = Deadline {
            secs: seconds + milliseconds / 1000,
            subsecs: subsecs as u32,
        };
        if combine_time(curr_secs, curr_subsecs) >= combine_time(deadline.secs, deadline.subsecs) {
            return None;
        }
        Some(Self::internal_sleep(state, curr_secs, deadline))
    }
}

/// How long a sleep of `milliseconds` takes, in 2^32ths of a second.
pub open spec fn sleep_length(milliseconds: u32) -> int {
    (milliseconds / 1000) * SUBSECS + (milliseconds % 1000) * 0x40_0000
}

/// The first point in time that is not before `seconds` and `milliseconds` after boot, in
/// 2^32ths of a second.
pub open spec fn wake_time(seconds: u32, milliseconds: u32) -> int {
    seconds * SUBSECS + millis_point(milliseconds as int)
}

/// Combined times are equal just for equal times, and are ordered as the times are: by
/// the seconds first, then by the fraction.
pub proof fn combined_times_are_ordered(secs1: u32, subsecs1: u32, secs2: u32, subsecs2: u32)
    ensures
        combined(secs1, subsecs1) == combined(secs2, subsecs2) <==> secs1 == secs2 && subsecs1
            == subsecs2,
        combined(secs1, subsecs1) < combined(secs2, subsecs2) <==> secs1 < secs2 || (secs1 == secs2
            && subsecs1 < subsecs2),
        0 <= combined(secs1, subsecs1) <= u64::MAX,
{
}

/// A time that lies ahead is in reach just when it falls into the same 2^16 seconds.
pub proof fn in_reach_means_same_block(curr_secs: u32, next_secs: u32)
    requires
        curr_secs <= next_secs,
    ensures
        in_reach(curr_secs, next_secs) <==> curr_secs / COMPARE_WRAP == next_secs / COMPARE_WRAP,
{
}

/// Until a deadline in reach, the compare value counts up without starting over, and it
/// takes as many of its steps as 2^16ths of a second are left.
pub proof fn alarm_comes_at_the_deadline(secs: u32, subsecs: u32, deadline: Deadline)
    requires
        combined(secs, subsecs) <= deadline.combined(),
        in_reach(secs, deadline.secs),
    ensures
        alarm_point(secs, deadline.secs, deadline.subsecs) - compare_point(secs, subsecs)
            == deadline.combined() / 0x1_0000 - combined(secs, subsecs) / 0x1_0000,
        alarm_point(secs, deadline.secs, deadline.subsecs) >= compare_point(secs, subsecs),
        alarm_point(secs, deadline.secs, deadline.subsecs) <= u32::MAX,
{
    in_reach_means_same_block(secs, deadline.secs);
    assert(deadline.combined() / 0x1_0000 == deadline.secs * 0x1_0000 + deadline.subsecs as int
        / 0x1_0000);
    assert(combined(secs, subsecs) / 0x1_0000 == secs * 0x1_0000 + subsecs as int / 0x1_0000);
}

/// A deadline out of reach is not missed: the interrupt comes before the compare value
/// starts over, while the deadline is still ahead.
pub proof fn distant_alarm_comes_before_the_deadline(secs: u32, subsecs: u32, deadline: Deadline)
    requires
        combined(secs, subsecs) <= deadline.combined(),
        !in_reach(secs, deadline.secs),
    ensures
        alarm_point(secs, deadline.secs, deadline.subsecs) - compare_point(secs, subsecs)
            < deadline.combined() / 0x1_0000 - combined(secs, subsecs) / 0x1_0000,
{
    in_reach_means_same_block(secs, deadline.secs);
    assert(deadline.combined() / 0x1_0000 == deadline.secs * 0x1_0000 + deadline.subsecs as int
        / 0x1_0000);
    assert(combined(secs, subsecs) / 0x1_0000 == secs * 0x1_0000 + subsecs as int / 0x1_0000);
}

/// Once a deadline is less than 2^16 seconds ahead there are no more overflows to wait for:
/// to the value that the interrupt handler sets, the compare value, which starts over at
/// 2^32, takes as many steps as 2^16ths of a second are left.
pub proof fn rearmed_alarm_comes_at_the_deadline(secs: u32, subsecs: u32, deadline: Deadline)
    requires
        combined(secs, subsecs) <= deadline.combined(),
        deadline.secs < secs + COMPARE_WRAP,
    ensures
        (rearm_point(deadline, secs) - compare_point(secs, subsecs)) % 0x1_0000_0000
            == deadline.combined() / 0x1_0000 - combined(secs, subsecs) / 0x1_0000,
{
    assert(deadline.combined() / 0x1_0000 == deadline.secs * 0x1_0000 + deadline.subsecs as int
        / 0x1_0000);
    assert(combined(secs, subsecs) / 0x1_0000 == secs * 0x1_0000 + subsecs as int / 0x1_0000);
}

/// When the interrupt handler wakes the task that sleeps until a deadline, the sleep is over.
pub proof fn no_early_wake(state: State, deadline: Deadline, secs: u32, subsecs: u32)
    requires
        state.next_deadline == Some(deadline),
        combined(secs, subsecs) > effective_deadline(state).combined(),
    ensures
        deadline.combined() <= combined(secs, subsecs),
{
}

/// The time that the clock reports as current is never one to wait for.
pub proof fn current_time_has_come(curr_secs: u32, curr_subsecs: u32, milliseconds: u32)
    requires
        milliseconds == curr_subsecs * 1000 / (SUBSECS as int),
    ensures
        combined(curr_secs, curr_subsecs) >= wake_time(curr_secs, milliseconds),
{
}

/// A sleep of whole seconds takes as many seconds, whichever way it is asked for.
pub proof fn whole_seconds_are_exact(seconds: u32, milliseconds: u32)
    requires
        milliseconds == seconds * 1000,
    ensures
        sleep_length(milliseconds) == seconds * SUBSECS,
        wake_time(0, milliseconds) == seconds * SUBSECS,
{
}

} // verus!
