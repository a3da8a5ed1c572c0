//! Time driver on the real-time clock.
//!
//! Time is counted in ticks of 32768 Hz. The tasks that wait for a time stand in the timer
//! queue of `embassy_time_queue_utils`; the alarm is set to the earliest of them.
use crate::chip::Interrupt;
use crate::driverlib::AON_RTC_CH0;
use crate::hw::{Call, Op};
use crate::rtc::{
    acknowledge, acknowledge_ops, alarm_point, alarm_value, rearm_point, rearm_value, setup,
    setup_ops, Deadline, COMPARE_WRAP,
};
use core::task::Waker;
use embassy_time_queue_utils::Queue;
use vstd::multiset::Multiset;
use vstd::prelude::*;

verus! {

/// The timer queue of `embassy_time_queue_utils`.
#[verifier::external_type_specification]
#[verifier::external_body]
pub struct ExQueue(Queue);

/// The handle by which the executor lets a task be woken.
#[verifier::external_type_specification]
#[verifier::external_body]
pub struct ExWaker(Waker);

/// The times for which tasks stand in the queue.
pub uninterp spec fn queued(queue: Queue) -> Multiset<u64>;

/// How many tasks the queue holds.
pub const QUEUE_SIZE: usize = 64;

/// `Queue::new`: nobody stands in a new queue.
#[verifier::external_body]
fn new_queue() -> (r: Queue)
    ensures
        queued(r) == Multiset::<u64>::empty(),
{
    Queue::new()
}

/// `Queue::schedule_wake`: the task of the waker is put into the queue. If it stands
/// there for a later time already, it moves to `at`; if it stands there for a time that
/// is not later, nothing changes and the result is false. If it is new and the queue is
/// full, one task leaves the queue (and is woken). Which task a waker belongs to, and so
/// which of these cases it is, only the waker knows.
pub assume_specification[ Queue::schedule_wake ](queue: &mut Queue, at: u64, waker: &Waker) -> (r:
    bool)
    ensures
        !r ==> queued(*final(queue)) == queued(*old(queue)) && exists|t: u64|
            t <= at && #[trigger] queued(*old(queue)).contains(t),
        r ==> (queued(*old(queue)).len() < QUEUE_SIZE && queued(*final(queue)) == queued(
            *old(queue),
        ).insert(at)) || exists|t: u64| #[trigger]
            queued(*old(queue)).contains(t) && (t > at || queued(*old(queue)).len() == QUEUE_SIZE)
                && queued(*final(queue)) == queued(*old(queue)).remove(t).insert(at),
;

/// `Queue::next_expiration`: those whose time has come by `now` leave the queue (and are
/// woken). The result is the earliest time for which somebody still stands there, or
/// `u64::MAX` if nobody does.
pub assume_specification[ Queue::next_expiration ](queue: &mut Queue, now: u64) -> (r: u64)
    ensures
        queued(*final(queue)) == queued(*old(queue)).filter(|t: u64| t > now),
        forall|t: u64| #[trigger] queued(*final(queue)).contains(t) ==> r <= t,
        queued(*final(queue)).contains(r) || (r == u64::MAX && queued(*final(queue)).len() == 0),
;

/// Ticks per second.
pub const CLOCK_FREQUENCY: u64 = 32768;

/// The last fraction of a second.
pub const LAST_SUBSEC: u64 = 0xFFFF_FFFF;

/// A time of the clock in ticks.
pub open spec fn ticks(secs: u32, subsecs: u32) -> int {
    secs * CLOCK_FREQUENCY + subsecs * CLOCK_FREQUENCY / (LAST_SUBSEC as int)
}

/// A time of the clock in ticks.
pub fn combine_time(secs: u32, subsecs: u32) -> (r: u64)
    ensures
        r == ticks(secs, subsecs),
{
    (secs as u64) * CLOCK_FREQUENCY + ((subsecs as u64) * CLOCK_FREQUENCY) / LAST_SUBSEC
}

/// The seconds of a time in ticks, as far as the clock counts them.
pub open spec fn tick_secs(timestamp: u64) -> u32 {
    ((timestamp as int / CLOCK_FREQUENCY as int) % 0x1_0000_0000) as u32
}

/// The fraction of a second of a time in ticks.
pub open spec fn tick_subsecs(timestamp: u64) -> u32 {
    ((timestamp as int % CLOCK_FREQUENCY as int) * LAST_SUBSEC / (CLOCK_FREQUENCY as int)) as u32
}

/// The time of the clock that belongs to a time in ticks.
pub fn decombine_time(timestamp: u64) -> (r: (u32, u32))
    ensures
        r.0 == tick_secs(timestamp),
        r.1 == tick_subsecs(timestamp),
{
    let secs: u64 = timestamp / CLOCK_FREQUENCY;
    assert(secs as u32 == secs % 0x1_0000_0000) by (bit_vector);
    (
        #[verifier::truncate] (secs as u32),
        ((timestamp % CLOCK_FREQUENCY) * LAST_SUBSEC / CLOCK_FREQUENCY) as u32,
    )
}

/// Driver that wakes tasks at given times.
pub struct RtcTimeDriver {
    pub queue: Queue,
    pub next_deadline: Deadline,
}

/// The deadline of an alarm at a time in ticks.
pub open spec fn alarm_deadline(at: u64) -> Deadline {
    Deadline { secs: tick_secs(at), subsecs: tick_subsecs(at) }
}

/// Whether the deadline is passed at a time in ticks.
pub open spec fn is_passed(deadline: Deadline, curr_time: u64) -> bool {
    curr_time > ticks(deadline.secs, deadline.subsecs)
}

/// The operations that set the alarm, at a time in ticks.
pub open spec fn set_alarm_ops(at: u64, curr_time: u64) -> Seq<Op> {
    if at <= curr_time {
        seq![Op::Call(Call::AonRtcChannelDisable { channel: AON_RTC_CH0 })]
    } else {
        seq![
            Op::Call(Call::AonRtcChannelEnable { channel: AON_RTC_CH0 }),
            Op::Call(
                Call::AonRtcCompareValueSet {
                    channel: AON_RTC_CH0,
                    value: alarm_point(tick_secs(curr_time), tick_secs(at), tick_subsecs(at)) as u32,
                },
            ),
        ]
    }
}

impl RtcTimeDriver {
    /// A driver with an empty queue.
    pub fn new() -> (r: Self)
        ensures
            queued(r.queue) == Multiset::<u64>::empty(),
            r.next_deadline == (Deadline { secs: 0, subsecs: 0 }),
    {
        Self { queue: new_queue(), next_deadline: Deadline { secs: 0, subsecs: 0 } }
    }

    /// Sets up the clock, once interrupts are off; `interrupts_disabled` tells whether
    /// they had been off before. The alarm's channel stays off until an alarm is set.
    pub fn init(&self, interrupts_disabled: bool) -> (ops: Vec<Op>)
        ensures
            ops@ == setup_ops(interrupts_disabled, false, Interrupt::AON_RTC),
    {
        setup(interrupts_disabled, false, Interrupt::AON_RTC)
    }

    /// The current time in ticks, from what the clock reads.
    pub fn now(secs: u32, subsecs: u32) -> (r: u64)
        ensures
            r == ticks(secs, subsecs),
    {
        combine_time(secs, subsecs)
    }

    /// The first part of handling the interrupt, before the time is read.
    pub fn acknowledge() -> (ops: Vec<Op>)
        ensures
            ops@ == acknowledge_ops(),
    {
        acknowledge()
    }

    /// Handles the interrupt at the given time. If the deadline is passed the result is
    /// true, and the alarm is to be set anew, by [`expire`](Self::expire) and
    /// [`set_alarm`](Self::set_alarm) until it is set; otherwise
    /// the driver goes on waiting.
    pub fn on_interrupt(&mut self, curr_time: u64) -> (r: (bool, Vec<Op>))
        requires
            !is_passed(old(self).next_deadline, curr_time) ==> tick_secs(curr_time) + COMPARE_WRAP
                <= u32::MAX,
        ensures
            r.0 == is_passed(old(self).next_deadline, curr_time),
            queued(final(self).queue) == queued(old(self).queue),
            r.0 ==> r.1@.len() == 0 && final(self).next_deadline == (Deadline {
                secs: 0,
                subsecs: 0,
            }),
            !r.0 ==> r.1@ == seq![
                Op::Call(
                    Call::AonRtcCompareValueSet {
                        channel: AON_RTC_CH0,
                        value: rearm_point(
                            old(self).next_deadline,
                            tick_secs(curr_time),
                        ) as u32,
                    },
                ),
            ] && final(self).next_deadline == old(self).next_deadline,
    {
        let next_deadline: Deadline = self.next_deadline;
        let (curr_secs, _) = decombine_time(curr_time);
        let combined_deadline: u64 = combine_time(next_deadline.secs, next_deadline.subsecs);
        if curr_time > combined_deadline {
            self.next_deadline = Deadline { secs: 0, subsecs: 0 };
            (true, Vec::new())
        } else {
            let value: u32 = rearm_value(next_deadline, curr_secs);
            (
                false,
                vec![Op::Call(Call::AonRtcCompareValueSet { channel: AON_RTC_CH0, value })],
            )
        }
    }

    /// Sets the alarm, if its time is still ahead; otherwise the alarm is off.
    pub fn set_alarm(&mut self, at: u64, curr_time: u64) -> (r: (bool, Vec<Op>))
        ensures
            r.0 == (at > curr_time),
            r.1@ == set_alarm_ops(at, curr_time),
            queued(final(self).queue) == queued(old(self).queue),
            r.0 ==> final(self).next_deadline == alarm_deadline(at),
            !r.0 ==> final(self).next_deadline == old(self).next_deadline,
    {
        if at <= curr_time {
            // In theory, the clock should fire an event for timestamps that are at most 1 second
            // past. However, there is no benefit from scheduling "past" events. It's better to
            // cancel "past" events as the events that are now "future" might become "past" by the
            // time we exit critical section.
            return (false, vec![Op::Call(Call::AonRtcChannelDisable { channel: AON_RTC_CH0 })]);
        }
        let (new_secs, new_subsecs) = decombine_time(at);
        self.next_deadline = Deadline { secs: new_secs, subsecs: new_subsecs };
        let (curr_secs, _) = decombine_time(curr_time);
        let value: u32 = alarm_value(curr_secs, new_secs, new_subsecs);
        (
            true,
            vec![
                Op::Call(Call::AonRtcChannelEnable { channel: AON_RTC_CH0 }),
                Op::Call(Call::AonRtcCompareValueSet { channel: AON_RTC_CH0, value }),
            ],
        )
    }

    /// Lets those go whose time has come by `now`. The result is the earliest time that is
    /// left, to which the alarm is to be set, by [`set_alarm`](Self::set_alarm).
    pub fn expire(&mut self, now: u64) -> (next: u64)
        ensures
            queued(final(self).queue) == queued(old(self).queue).filter(|t: u64| t > now),
            is_earliest(queued(final(self).queue), next),
            final(self).next_deadline == old(self).next_deadline,
    {
        self.queue.next_expiration(now)
    }

    /// Lets those go whose time has come by `queue_time`, and sets the alarm to the
    /// earliest time that is left, at the time `alarm_time`. The result is false if that
    /// time has come meanwhile: then this is to be done once more.
    pub fn arm_next(&mut self, queue_time: u64, alarm_time: u64) -> (r: (bool, Vec<Op>))
        ensures
            queued(final(self).queue) == queued(old(self).queue).filter(|t: u64| t > queue_time),
            exists|next: u64| #[trigger]
                is_earliest(queued(final(self).queue), next) && r.0 == (next > alarm_time)
                    && r.1@ == set_alarm_ops(next, alarm_time) && final(self).next_deadline
                    == if r.0 {
                    alarm_deadline(next)
                } else {
                    old(self).next_deadline
                },
    {
        let next: u64 = self.expire(queue_time);
        self.set_alarm(next, alarm_time)
    }

    /// Puts a task into the queue. If the result is true the alarm is to be set anew, by
    /// [`expire`](Self::expire) and [`set_alarm`](Self::set_alarm) until it is set.
    pub fn schedule_wake(&mut self, at: u64, waker: &Waker) -> (r: bool)
        ensures
            final(self).next_deadline == old(self).next_deadline,
            !r ==> queued(final(self).queue) == queued(old(self).queue),
            r ==> (queued(old(self).queue).len() < QUEUE_SIZE && queued(final(self).queue)
                == queued(old(self).queue).insert(at)) || exists|t: u64| #[trigger]
                queued(old(self).queue).contains(t) && (t > at || queued(old(self).queue).len()
                    == QUEUE_SIZE) && queued(final(self).queue) == queued(
                    old(self).queue,
                ).remove(t).insert(at),
            // Either way somebody is woken at `at`, or before.
            exists|t: u64| t <= at && #[trigger] queued(final(self).queue).contains(t),
    {
        let r: bool = self.queue.schedule_wake(at, waker);
        proof {
            if r {
                assert(queued(self.queue).contains(at));
            }
        }
        r
    }
}

/// Sets up the clock for the time driver, once interrupts are off.
pub fn init(driver: &RtcTimeDriver, interrupts_disabled: bool) -> (ops: Vec<Op>)
    ensures
        ops@ == setup_ops(interrupts_disabled, false, Interrupt::AON_RTC),
{
    driver.init(interrupts_disabled)
}

/// Whether `next` is the earliest of the times, or the end of time if there are none.
pub open spec fn is_earliest(times: Multiset<u64>, next: u64) -> bool {
    &&& forall|t: u64| #[trigger] times.contains(t) ==> next <= t
    &&& times.contains(next) || (next == u64::MAX && times.len() == 0)
}

/// Ticks of a later time are not fewer: time never runs backwards.
pub proof fn ticks_are_monotonic(secs1: u32, subsecs1: u32, secs2: u32, subsecs2: u32)
    requires
        secs1 < secs2 || (secs1 == secs2 && subsecs1 <= subsecs2),
    ensures
        ticks(secs1, subsecs1) <= ticks(secs2, subsecs2),
        0 <= ticks(secs1, subsecs1) <= u64::MAX,
{
}

/// Within the range of the clock, turning ticks into a time of the clock and back loses
/// nothing at full seconds and one tick otherwise.
pub proof fn round_trip_loses_at_most_a_tick(timestamp: u64)
    requires
        timestamp < 0x1_0000_0000 * CLOCK_FREQUENCY,
    ensures
        ticks(tick_secs(timestamp), tick_subsecs(timestamp)) == if timestamp % CLOCK_FREQUENCY == 0 {
            timestamp as int
        } else {
            timestamp - 1
        },
{
    let r = timestamp as int % CLOCK_FREQUENCY as int;
    let s = r * LAST_SUBSEC / (CLOCK_FREQUENCY as int);
    assert(s == tick_subsecs(timestamp));
    // s * 32768 lies in (r * LAST - 32768, r * LAST], and is a multiple of LAST only for r == 0
    let x = s * CLOCK_FREQUENCY;
    assert(r * LAST_SUBSEC - CLOCK_FREQUENCY < x <= r * LAST_SUBSEC);
    if r != 0 {
        assert(x != r * LAST_SUBSEC) by {
            assert(r * LAST_SUBSEC == r * 0x1_0000_0000 - r);
            assert((r * 0x1_0000_0000 - r) % 32768 != 0);
        }
        assert((r - 1) * LAST_SUBSEC <= x < r * LAST_SUBSEC);
        assert(x / (LAST_SUBSEC as int) == r - 1);
    } else {
        assert(x / (LAST_SUBSEC as int) == 0);
    }
}

/// When the interrupt handler finds the deadline of an alarm passed, the alarm's time has
/// come; and once the time is later than the alarm's, the handler finds it passed.
pub proof fn alarm_is_neither_early_nor_lost(at: u64, curr_time: u64)
    requires
        at < 0x1_0000_0000 * CLOCK_FREQUENCY,
    ensures
        is_passed(alarm_deadline(at), curr_time) ==> at <= curr_time,
        at < curr_time ==> is_passed(alarm_deadline(at), curr_time),
{
    round_trip_loses_at_most_a_tick(at);
}

/// Setting the alarm anew makes progress: if the earliest time in the queue came before
/// the alarm was set, the next attempt finds fewer tasks in the queue.
pub proof fn arming_makes_progress(times: Multiset<u64>, next: u64, alarm_time: u64, later: u64)
    requires
        is_earliest(times, next),
        next <= alarm_time <= later,
        times.len() > 0,
    ensures
        times.filter(|t: u64| t > later).len() < times.len(),
{
    let f = |t: u64| t > later;
    let rest = times.filter(f);
    assert(times.count(next) > 0);
    assert(rest.count(next) == 0);
    assert forall|v: u64| rest.count(v) <= times.remove(next).count(v) by {
        if v == next {
            assert(rest.count(v) == 0);
        }
    }
    assert(rest.subset_of(times.remove(next)));
    lemma_subset_len(rest, times.remove(next));
}

proof fn lemma_subset_len(a: Multiset<u64>, b: Multiset<u64>)
    requires
        a.subset_of(b),
    ensures
        a.len() <= b.len(),
{
    let d = b.sub(a);
    assert(a.add(d) =~= b);
}

/// With nobody in the queue the alarm can be set at once, unless time has run out.
pub proof fn empty_queue_arms(times: Multiset<u64>, next: u64, alarm_time: u64)
    requires
        is_earliest(times, next),
        times.len() == 0,
        alarm_time < u64::MAX,
    ensures
        next > alarm_time,
{
    if times.contains(next) {
        assert(times.count(next) <= times.len());
    }
}

/// The alarm is never set later than a task in the queue waits for.
pub proof fn alarm_serves_the_earliest(times: Multiset<u64>, next: u64, at: u64)
    requires
        is_earliest(times, next),
        times.contains(at),
    ensures
        next <= at,
{
}

} // verus!
