//! Laws of the time driver.
use crate::chip::Interrupt;
use crate::hw::{Call, Op};
use crate::laws::rtc::{
    alarm_for, compare_with, counters_start_at_zero, sets_up, sleep_waits, steps,
};
use crate::rtc::Deadline;
use crate::time_driver::{
    alarm_deadline, combine_time, decombine_time, init, is_earliest, queued, set_alarm_ops,
    tick_secs, tick_subsecs, RtcTimeDriver, QUEUE_SIZE,
};
use core::task::Waker;
use vstd::multiset::Multiset;
use vstd::prelude::*;

verus! {

/// The clock's time is counted in whole ticks of 32768 Hz, with the last fraction counted as
/// a full second.
pub proof fn time_is_counted_in_ticks(secs: u32, subsecs: u32, r: u64, now: u64)
    requires
        call_ensures(combine_time, (secs, subsecs), r),
        call_ensures(RtcTimeDriver::now, (secs, subsecs), now),
    ensures
        r == now,
        (r - secs * 32768) * 0xFFFF_FFFF <= subsecs * 32768,
        subsecs * 32768 < (r - secs * 32768 + 1) * 0xFFFF_FFFF,
{
}

/// Whether the seconds and the fraction are those of a time in ticks, as far as the clock
/// counts seconds.
pub open spec fn is_time_of(timestamp: u64, secs: u32, subsecs: u32) -> bool {
    &&& secs == (timestamp as int / 32768) % 0x1_0000_0000
    &&& subsecs * 32768 <= (timestamp as int % 32768) * 0xFFFF_FFFF
    &&& (timestamp as int % 32768) * 0xFFFF_FFFF < (subsecs + 1) * 32768
}

/// Ticks are turned into whole seconds and the fraction that is left.
pub proof fn ticks_are_split(timestamp: u64, r: (u32, u32))
    requires
        call_ensures(decombine_time, (timestamp,), r),
    ensures
        is_time_of(timestamp, r.0, r.1),
{
}

/// A time in ticks has one time of the clock.
pub proof fn time_of_ticks_is_unique(timestamp: u64, s1: u32, f1: u32, s2: u32, f2: u32)
    requires
        is_time_of(timestamp, s1, f1),
        is_time_of(timestamp, s2, f2),
    ensures
        s1 == s2,
        f1 == f2,
{
}

/// An alarm is set just when its time is ahead. It makes the clock interrupt at that time: the
/// compare value is that of the time, where the time lies in the same 2^16 seconds as the
/// current one, and the last before the compare value starts over otherwise. The driver keeps
/// the time. An alarm that is not set is off, and the driver keeps what it had.
pub proof fn alarm_is_set_to_its_time(
    driver: &mut RtcTimeDriver,
    at: u64,
    now: u64,
    r: (bool, Vec<Op>),
    secs: u32,
    subsecs: u32,
    now_secs: u32,
    now_subsecs: u32,
)
    requires
        call_ensures(RtcTimeDriver::set_alarm, (driver, at, now), r),
        is_time_of(at, secs, subsecs),
        is_time_of(now, now_secs, now_subsecs),
    ensures
        r.0 <==> now < at,
        queued(final(driver).queue) == queued(old(driver).queue),
        !r.0 ==> {
            &&& r.1@.len() == 1
            &&& r.1@[0] == Op::Call(Call::AonRtcChannelDisable { channel: 1 })
            &&& final(driver).next_deadline == old(driver).next_deadline
        },
        r.0 ==> {
            &&& r.1@.len() == 2
            &&& r.1@[0] == Op::Call(Call::AonRtcChannelEnable { channel: 1 })
            &&& r.1@[1] == compare_with(alarm_for(now_secs, secs, subsecs))
            &&& final(driver).next_deadline.secs == secs
            &&& final(driver).next_deadline.subsecs == subsecs
        },
        // Within the same 2^16 seconds the clock gets there in as many steps as are left.
        r.0 && now_secs <= secs && now_secs / 0x1_0000 == secs / 0x1_0000 ==> (
        r.1@[1] matches Op::Call(Call::AonRtcCompareValueSet { channel, value }) && channel == 1
            && value == (secs as int % 0x1_0000) * 0x1_0000 + subsecs as int / 0x1_0000 && value
            - steps(now_secs, now_subsecs) % 0x1_0000_0000 == steps(secs, subsecs) - steps(
            now_secs,
            now_subsecs,
        )),
{
    clock_time_of(at);
    clock_time_of(now);
    time_of_ticks_is_unique(at, secs, subsecs, tick_secs(at), tick_subsecs(at));
    time_of_ticks_is_unique(now, now_secs, now_subsecs, tick_secs(now), tick_subsecs(now));
    sleep_waits(now_secs, Deadline { secs, subsecs });
    if now_secs / 0x1_0000 == secs / 0x1_0000 {
        assert(steps(secs, subsecs) == secs * 0x1_0000 + subsecs as int / 0x1_0000);
        assert(steps(now_secs, now_subsecs) == now_secs * 0x1_0000 + now_subsecs as int
            / 0x1_0000);
        assert(steps(now_secs, now_subsecs) % 0x1_0000_0000 == (now_secs as int % 0x1_0000)
            * 0x1_0000 + now_subsecs as int / 0x1_0000);
    }
}

proof fn clock_time_of(timestamp: u64)
    ensures
        is_time_of(timestamp, tick_secs(timestamp), tick_subsecs(timestamp)),
{
}

/// The interrupt handler finds an alarm expired just when the time is later than the
/// deadline's, in ticks; it forgets the deadline then, and otherwise waits on.
pub proof fn interrupt_tells_an_expired_alarm(
    driver: &mut RtcTimeDriver,
    now: u64,
    r: (bool, Vec<Op>),
    deadline: Deadline,
    deadline_ticks: int,
)
    requires
        call_ensures(RtcTimeDriver::on_interrupt, (driver, now), r),
        old(driver).next_deadline == deadline,
        (deadline_ticks - deadline.secs * 32768) * 0xFFFF_FFFF <= deadline.subsecs * 32768 < (
        deadline_ticks - deadline.secs * 32768 + 1) * 0xFFFF_FFFF,
    ensures
        r.0 <==> now > deadline_ticks,
        queued(final(driver).queue) == queued(old(driver).queue),
        r.0 ==> r.1@.len() == 0,
        r.0 ==> final(driver).next_deadline == (Deadline { secs: 0, subsecs: 0 }),
        !r.0 ==> {
            &&& final(driver).next_deadline == deadline
            &&& r.1@.len() == 1
            &&& r.1@[0] == compare_with(
                if deadline.secs < (now as int / 32768) % 0x1_0000_0000 + 0x1_0000 {
                    steps(deadline.secs, deadline.subsecs) % 0x1_0000_0000
                } else {
                    0xFFFF_FFFF
                },
            )
        },
{
    assert(steps(deadline.secs, deadline.subsecs) == deadline.secs * 0x1_0000
        + deadline.subsecs as int / 0x1_0000);
}

/// Those whose time has come leave the queue, all others stay, and the time that is given
/// back is the first for which somebody still waits.
pub proof fn expiry_leaves_the_later_ones(driver: &mut RtcTimeDriver, now: u64, next: u64, t: u64)
    requires
        call_ensures(RtcTimeDriver::expire, (driver, now), next),
    ensures
        queued(final(driver).queue).count(t) == if t <= now {
            0
        } else {
            queued(old(driver).queue).count(t)
        },
        queued(final(driver).queue).count(t) > 0 ==> next <= t,
        next != 0xFFFF_FFFF_FFFF_FFFF ==> queued(final(driver).queue).count(next) > 0,
        final(driver).next_deadline == old(driver).next_deadline,
{
    if queued(final(driver).queue).count(t) > 0 {
        assert(queued(final(driver).queue).contains(t));
    }
}

/// Arming is expiry followed by setting the alarm to the time that it gave back.
pub proof fn arming_is_expiry_and_alarm(
    driver: &mut RtcTimeDriver,
    queue_time: u64,
    alarm_time: u64,
    r: (bool, Vec<Op>),
)
    requires
        call_ensures(RtcTimeDriver::arm_next, (driver, queue_time, alarm_time), r),
    ensures
        forall|t: u64|
            #[trigger] queued(final(driver).queue).count(t) == if t <= queue_time {
                0
            } else {
                queued(old(driver).queue).count(t)
            },
        r.0 ==> forall|t: u64|
            #[trigger] queued(final(driver).queue).count(t) > 0 ==> alarm_time < t,
        r.0 ==> exists|next: u64|
            {
                &&& next > alarm_time
                &&& #[trigger] is_time_of(
                    next,
                    final(driver).next_deadline.secs,
                    final(driver).next_deadline.subsecs,
                )
                &&& next == 0xFFFF_FFFF_FFFF_FFFF || queued(final(driver).queue).count(next) > 0
                &&& forall|t: u64|
                    #[trigger] queued(final(driver).queue).count(t) > 0 ==> next <= t
                &&& r.1@.len() == 2
                &&& r.1@[0] == Op::Call(Call::AonRtcChannelEnable { channel: 1 })
                &&& r.1@[1] == compare_with(
                    alarm_for(
                        ((alarm_time as int / 32768) % 0x1_0000_0000) as u32,
                        final(driver).next_deadline.secs,
                        final(driver).next_deadline.subsecs,
                    ),
                )
            },
        !r.0 ==> {
            &&& r.1@.len() == 1
            &&& r.1@[0] == Op::Call(Call::AonRtcChannelDisable { channel: 1 })
            &&& final(driver).next_deadline == old(driver).next_deadline
        },
{
    let times = queued(final(driver).queue);
    let next = choose|next: u64| #[trigger]
        is_earliest(times, next) && r.0 == (next > alarm_time) && r.1@
            == set_alarm_ops(next, alarm_time) && final(driver).next_deadline
            == if r.0 {
            alarm_deadline(next)
        } else {
            old(driver).next_deadline
        };
    let d = final(driver).next_deadline;
    assert(is_earliest(times, next) && r.1@ == set_alarm_ops(next, alarm_time));
    assert forall|t: u64| #[trigger] times.count(t) > 0 implies next <= t by {
        assert(times.contains(t));
    }
    if r.0 {
        clock_time_of(next);
        assert(is_time_of(next, d.secs, d.subsecs));
        sleep_waits(tick_secs(alarm_time), d);
    }
}

/// Putting a task into the queue puts its time there, or moves an earlier entry forward to
/// it, or lets one task of a full queue go for it; no time but one leaves, and none but the
/// new one comes. When nothing changes, somebody is woken at the time or before.
pub proof fn scheduling_adds_one_time(
    driver: &mut RtcTimeDriver,
    at: u64,
    waker: &Waker,
    r: bool,
)
    requires
        call_ensures(RtcTimeDriver::schedule_wake, (driver, at, waker), r),
    ensures
        final(driver).next_deadline == old(driver).next_deadline,
        !r ==> queued(final(driver).queue) == queued(old(driver).queue),
        r ==> queued(final(driver).queue).count(at) > 0,
        r ==> queued(final(driver).queue).len() - queued(old(driver).queue).len() == 1
            || queued(final(driver).queue).len() == queued(old(driver).queue).len(),
        r && queued(final(driver).queue).len() > queued(old(driver).queue).len()
            ==> queued(final(driver).queue) == queued(old(driver).queue).insert(at),
        r && queued(final(driver).queue).len() == queued(old(driver).queue).len()
            ==> exists|t: u64| #[trigger]
            queued(old(driver).queue).contains(t) && (t > at || queued(old(driver).queue).len()
                == 64) && queued(final(driver).queue) == queued(old(driver).queue).remove(t).insert(
                at,
            ),
        exists|t: u64| t <= at && #[trigger] queued(final(driver).queue).count(t) > 0,
{
    let before = queued(old(driver).queue);
    let after = queued(final(driver).queue);
    if r && !(after == before.insert(at)) {
        let t = choose|t: u64| #[trigger]
            before.contains(t) && (t > at || before.len() == QUEUE_SIZE) && after
                == before.remove(t).insert(at);
        assert(before.count(t) > 0);
        assert(before =~= before.remove(t).insert(t));
        assert(before.remove(t).insert(t).len() == before.remove(t).len() + 1);
    }
    let t = choose|t: u64| t <= at && #[trigger] after.contains(t);
    assert(after.count(t) > 0);
}

/// The time driver sets the clock up with the alarm's channel off.
pub proof fn driver_sets_up_the_clock(driver: RtcTimeDriver, masked: bool, a: Vec<Op>, b: Vec<Op>)
    requires
        call_ensures(RtcTimeDriver::init, (&driver, masked), a),
        call_ensures(init, (&driver, masked), b),
    ensures
        sets_up(a@, masked, false, Interrupt::AON_RTC),
        b@ == a@,
{
    counters_start_at_zero(masked, false, Interrupt::AON_RTC);
}

/// A new driver knows no task.
pub proof fn new_driver_is_empty(driver: RtcTimeDriver)
    requires
        call_ensures(RtcTimeDriver::new, (), driver),
    ensures
        queued(driver.queue) == Multiset::<u64>::empty(),
        driver.next_deadline.secs == 0,
        driver.next_deadline.subsecs == 0,
{
}

} // verus!
