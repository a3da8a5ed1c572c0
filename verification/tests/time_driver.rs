use embassy_ti_cc2650::hw::{Call, Op};
use embassy_ti_cc2650::rtc::Deadline;
use embassy_ti_cc2650::time_driver::{combine_time, decombine_time, init, RtcTimeDriver};
use std::sync::atomic::{AtomicUsize, Ordering};
use std::sync::Arc;
use std::task::{Wake, Waker};

/// A task that counts how often it is woken.
struct Sleeper(AtomicUsize);

impl Wake for Sleeper {
    fn wake(self: Arc<Self>) {
        self.0.fetch_add(1, Ordering::SeqCst);
    }
}

fn sleeper() -> (Arc<Sleeper>, Waker) {
    let sleeper = Arc::new(Sleeper(AtomicUsize::new(0)));
    (sleeper.clone(), Waker::from(sleeper))
}

fn woken(sleeper: &Arc<Sleeper>) -> usize {
    sleeper.0.load(Ordering::SeqCst)
}

fn compare_op(value: u32) -> Op {
    Op::Call(Call::AonRtcCompareValueSet { channel: 1, value })
}

const ENABLE: Op = Op::Call(Call::AonRtcChannelEnable { channel: 1 });
const DISABLE: Op = Op::Call(Call::AonRtcChannelDisable { channel: 1 });

#[test]
fn time_in_ticks() {
    assert_eq!(combine_time(0, 0), 0);
    assert_eq!(combine_time(2, 0), 65_536);
    assert_eq!(combine_time(2, 0x8000_0000), 65_536 + 16_384);
    assert_eq!(combine_time(2, u32::MAX), 3 * 32_768);
    assert_eq!(combine_time(u32::MAX, u32::MAX), 0x1_0000_0000 * 32_768);
    assert_eq!(RtcTimeDriver::now(2, 0x8000_0000), 65_536 + 16_384);
}

#[test]
fn ticks_in_time() {
    assert_eq!(decombine_time(0), (0, 0));
    assert_eq!(decombine_time(65_536), (2, 0));
    assert_eq!(decombine_time(65_536 + 16_384), (2, 0x7FFF_FFFF));
    assert_eq!(decombine_time(0x1_0000_0000 * 32_768 + 5 * 32_768), (5, 0));
}

#[test]
fn round_trip() {
    for at in [0, 32_768, 1_000 * 32_768] {
        let (secs, subsecs) = decombine_time(at);
        assert_eq!(combine_time(secs, subsecs), at);
    }
    for at in [1, 2, 16_384, 32_767, 32_769, 65_535, 1_234_567] {
        let (secs, subsecs) = decombine_time(at);
        assert_eq!(combine_time(secs, subsecs), at - 1);
    }
}

#[test]
fn driver_is_set_up() {
    let driver = RtcTimeDriver::new();
    let ops = init(&driver, false);
    assert_eq!(ops.len(), 14);
    assert!(!ops.contains(&ENABLE));
    assert!(ops.contains(&Op::Call(Call::IntMasterEnable)));
    assert!(!driver.init(true).contains(&Op::Call(Call::IntMasterEnable)));
    assert_eq!(RtcTimeDriver::acknowledge().len(), 2);
}

#[test]
fn alarm_ahead_is_set() {
    let mut driver = RtcTimeDriver::new();
    assert_eq!(driver.set_alarm(32_769, 32_768), (true, vec![ENABLE, compare_op(0x0001_0001)]));
    assert_eq!(driver.next_deadline, Deadline { secs: 1, subsecs: 0x1_FFFF });
    let far = 0x2_0000 * 32_768;
    assert_eq!(driver.set_alarm(far, 32_768), (true, vec![ENABLE, compare_op(u32::MAX)]));
    assert_eq!(driver.next_deadline, Deadline { secs: 0x2_0000, subsecs: 0 });
}

#[test]
fn alarm_that_has_come_is_off() {
    let mut driver = RtcTimeDriver::new();
    driver.set_alarm(50, 10);
    let deadline = driver.next_deadline;
    assert_eq!(driver.set_alarm(100, 100), (false, vec![DISABLE]));
    assert_eq!(driver.set_alarm(99, 100), (false, vec![DISABLE]));
    assert_eq!(driver.next_deadline, deadline);
}

#[test]
fn the_first_task_sets_the_alarm() {
    let (task, waker) = sleeper();
    let mut driver = RtcTimeDriver::new();
    assert!(driver.schedule_wake(3 * 32_768, &waker));
    assert_eq!(driver.arm_next(0, 0), (true, vec![ENABLE, compare_op(0x0003_0000)]));
    assert_eq!(driver.next_deadline, Deadline { secs: 3, subsecs: 0 });
    assert_eq!(woken(&task), 0);
}

#[test]
fn the_earliest_task_sets_the_alarm() {
    let (_, first) = sleeper();
    let (_, second) = sleeper();
    let mut driver = RtcTimeDriver::new();
    assert!(driver.schedule_wake(5 * 32_768, &first));
    assert!(driver.schedule_wake(3 * 32_768, &second));
    driver.arm_next(0, 0);
    assert_eq!(driver.next_deadline, Deadline { secs: 3, subsecs: 0 });
}

#[test]
fn a_task_moves_forward_only() {
    let (_, waker) = sleeper();
    let mut driver = RtcTimeDriver::new();
    assert!(driver.schedule_wake(5 * 32_768, &waker));
    assert!(!driver.schedule_wake(5 * 32_768, &waker));
    assert!(!driver.schedule_wake(7 * 32_768, &waker));
    driver.arm_next(0, 0);
    assert_eq!(driver.next_deadline, Deadline { secs: 5, subsecs: 0 });
    assert!(driver.schedule_wake(4 * 32_768, &waker));
    driver.arm_next(0, 0);
    assert_eq!(driver.next_deadline, Deadline { secs: 4, subsecs: 0 });
    driver.arm_next(4 * 32_768, 4 * 32_768);
    let (armed, _) = driver.arm_next(4 * 32_768, u64::MAX);
    assert!(!armed);
}

#[test]
fn tasks_whose_time_has_come_are_woken() {
    let (early, first) = sleeper();
    let (late, second) = sleeper();
    let mut driver = RtcTimeDriver::new();
    driver.schedule_wake(100, &first);
    driver.schedule_wake(2 * 32_768, &second);
    assert_eq!(driver.arm_next(100, 100).0, true);
    assert_eq!(woken(&early), 1);
    assert_eq!(woken(&late), 0);
    assert_eq!(driver.next_deadline, Deadline { secs: 2, subsecs: 0 });
    // Time goes on between the queue and the alarm.
    assert_eq!(driver.arm_next(100, 3 * 32_768), (false, vec![DISABLE]));
    assert_eq!(driver.arm_next(3 * 32_768, 3 * 32_768).0, true);
    assert_eq!(woken(&early), 1);
    assert_eq!(woken(&late), 1);
}

#[test]
fn tasks_expire_before_the_alarm_is_set() {
    let (early, first) = sleeper();
    let (late, second) = sleeper();
    let mut driver = RtcTimeDriver::new();
    driver.schedule_wake(100, &first);
    driver.schedule_wake(2 * 32_768, &second);
    assert_eq!(driver.expire(99), 100);
    assert_eq!(woken(&early), 0);
    assert_eq!(driver.expire(100), 2 * 32_768);
    assert_eq!((woken(&early), woken(&late)), (1, 0));
    assert_eq!(driver.next_deadline, Deadline { secs: 0, subsecs: 0 });
    assert_eq!(driver.set_alarm(2 * 32_768, 2 * 32_768), (false, vec![DISABLE]));
    assert_eq!(driver.expire(2 * 32_768), u64::MAX);
    assert_eq!((woken(&early), woken(&late)), (1, 1));
}

#[test]
fn an_empty_queue_waits_for_the_end_of_time() {
    let mut driver = RtcTimeDriver::new();
    assert_eq!(driver.arm_next(5, 5).0, true);
    let (secs, subsecs) = decombine_time(u64::MAX);
    assert_eq!(driver.next_deadline, Deadline { secs, subsecs });
}

#[test]
fn a_full_queue_lets_one_task_go() {
    let mut driver = RtcTimeDriver::new();
    let mut tasks = Vec::new();
    for i in 0..64 {
        let (task, waker) = sleeper();
        assert!(driver.schedule_wake(1_000 + i, &waker));
        tasks.push(task);
    }
    assert_eq!(tasks.iter().map(woken).sum::<usize>(), 0);
    let (_, waker) = sleeper();
    assert!(driver.schedule_wake(5_000, &waker));
    assert_eq!(tasks.iter().map(woken).sum::<usize>(), 1);
}

#[test]
fn interrupt_after_the_deadline() {
    let (task, waker) = sleeper();
    let mut driver = RtcTimeDriver::new();
    driver.schedule_wake(3 * 32_768, &waker);
    driver.arm_next(0, 0);
    assert_eq!(driver.on_interrupt(3 * 32_768 + 1), (true, vec![]));
    assert_eq!(driver.next_deadline, Deadline { secs: 0, subsecs: 0 });
    driver.arm_next(3 * 32_768 + 1, 3 * 32_768 + 1);
    assert_eq!(woken(&task), 1);
}

#[test]
fn interrupt_before_the_deadline() {
    let mut driver = RtcTimeDriver::new();
    driver.set_alarm(0x1_0005 * 32_768, 0);
    let deadline = driver.next_deadline;
    assert_eq!(driver.on_interrupt(5 * 32_768), (false, vec![compare_op(u32::MAX)]));
    assert_eq!(driver.on_interrupt(6 * 32_768), (false, vec![compare_op(0x0005_0000)]));
    assert_eq!(driver.on_interrupt(0x1_0005 * 32_768), (false, vec![compare_op(0x0005_0000)]));
    assert_eq!(driver.next_deadline, deadline);
}
