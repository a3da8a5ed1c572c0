use embassy_ti_cc2650::chip::{Interrupt, AON_RTC};
use embassy_ti_cc2650::hw::{Call, Op, Task};
use embassy_ti_cc2650::rtc::{
    alarm_value, combine_time, compare_value, rearm_value, Deadline, InterruptHandler, Rtc, State,
};

type Handler = InterruptHandler<AON_RTC>;

fn rtc() -> Rtc<AON_RTC> {
    Rtc::<AON_RTC>::new(false).0
}

fn compare_op(value: u32) -> Op {
    Op::Call(Call::AonRtcCompareValueSet { channel: 1, value })
}

#[test]
fn combined_time() {
    assert_eq!(combine_time(0, 0), 0);
    assert_eq!(combine_time(1, 0), 1 << 32);
    assert_eq!(combine_time(3, 7), (3 << 32) + 7);
    assert_eq!(combine_time(u32::MAX, u32::MAX), u64::MAX);
}

#[test]
fn compare_values() {
    assert_eq!(compare_value(1, 0), 0x0001_0000);
    assert_eq!(compare_value(1, 0x8000_0000), 0x0001_8000);
    assert_eq!(compare_value(0x1_2345, 0xFFFF_FFFF), 0x2345_FFFF);
}

#[test]
fn alarm_of_a_deadline_in_reach() {
    assert_eq!(alarm_value(5, 6, 0x1234_5678), 0x0006_1234);
    assert_eq!(alarm_value(0x1_0000, 0x1_FFFF, 0), 0xFFFF_0000);
}

#[test]
fn alarm_of_a_deadline_out_of_reach() {
    assert_eq!(alarm_value(0, 0x1_0000, 0), u32::MAX);
    assert_eq!(alarm_value(0xFFFF, 0x1_0000, 0), u32::MAX);
    assert_eq!(alarm_value(5, 0x2_0006, 0), u32::MAX);
}

#[test]
fn alarm_set_anew() {
    let deadline = Deadline { secs: 0x2_0001, subsecs: 0x8000_0000 };
    assert_eq!(rearm_value(deadline, 0x2_0000), 0x0001_8000);
    assert_eq!(rearm_value(deadline, 0x1_0002), 0x0001_8000);
    assert_eq!(rearm_value(deadline, 0x1_0001), u32::MAX);
}

#[test]
fn alarm_set_anew_comes_at_the_deadline() {
    let deadline = Deadline { secs: 0x2_0001, subsecs: 0x8000_0000 };
    for (secs, subsecs) in [(0x1_0002, 0), (0x1_FFFF, 0x1234_5678), (0x2_0001, 0x8000_0000)] {
        let steps = rearm_value(deadline, secs).wrapping_sub(compare_value(secs, subsecs));
        let left = (combine_time(deadline.secs, deadline.subsecs) >> 16)
            - (combine_time(secs, subsecs) >> 16);
        assert_eq!(steps as u64, left);
    }
}

#[test]
fn set_up() {
    let (_, ops) = Rtc::<AON_RTC>::new(false);
    let expected = vec![
        Op::Call(Call::AonRtcDisable),
        Op::Call(Call::AonRtcEventClear { channel: 1 }),
        Op::Call(Call::AonRtcEventClear { channel: 2 }),
        Op::Call(Call::AonRtcEventClear { channel: 4 }),
        Op::Call(Call::AonEventMcuWakeUpSet { wake_up: 0, event: 35 }),
        Op::Call(Call::AonEventMcuWakeUpSet { wake_up: 1, event: 36 }),
        Op::Call(Call::AonEventMcuWakeUpSet { wake_up: 2, event: 37 }),
        Op::Call(Call::AonRtcCombinedEventConfig { channels: 1 }),
        Op::Write { addr: 0x4009_2008, value: 0 },
        Op::Write { addr: 0x4009_200C, value: 0 },
        Op::Call(Call::AonRtcChannelEnable { channel: 1 }),
        Op::Call(Call::AonRtcEnable),
        Op::Call(Call::IntMasterEnable),
        Op::Unpend(Interrupt::AON_RTC),
        Op::Enable(Interrupt::AON_RTC),
    ];
    assert_eq!(ops, expected);
}

#[test]
fn set_up_keeps_interrupts_off() {
    let (_, ops) = Rtc::<AON_RTC>::new(true);
    assert_eq!(ops.len(), 14);
    assert!(!ops.contains(&Op::Call(Call::IntMasterEnable)));
}

#[test]
fn event_is_acknowledged() {
    assert_eq!(
        Handler::acknowledge(),
        vec![
            Op::Call(Call::AonRtcEventClear { channel: 1 }),
            Op::Read { addr: 0x4009_202C },
        ]
    );
}

#[test]
fn handler_wakes_after_the_deadline() {
    let mut state = State::new();
    state.set_next_deadline(Deadline { secs: 10, subsecs: 5 });
    assert_eq!(Handler::on_interrupt(&mut state, 10, 6), vec![Op::Wake(Task::Rtc)]);
    assert_eq!(state.get_next_deadline(), None);
}

#[test]
fn handler_waits_on_before_the_deadline() {
    let deadline = Deadline { secs: 10, subsecs: 0x5_0000 };
    let mut state = State::new();
    state.set_next_deadline(deadline);
    assert_eq!(Handler::on_interrupt(&mut state, 10, 0x5_0000), vec![compare_op(0x000A_0005)]);
    assert_eq!(state.get_next_deadline(), Some(deadline));
    let far = Deadline { secs: 0x2_0000, subsecs: 0 };
    state.set_next_deadline(far);
    assert_eq!(Handler::on_interrupt(&mut state, 1, 0), vec![compare_op(u32::MAX)]);
    assert_eq!(state.get_next_deadline(), Some(far));
}

#[test]
fn handler_without_a_deadline() {
    let mut state = State::new();
    assert_eq!(Handler::on_interrupt(&mut state, 0, 1), vec![Op::Wake(Task::Rtc)]);
    assert_eq!(Handler::on_interrupt(&mut state, 0, 0), vec![compare_op(0)]);
    assert_eq!(state.get_next_deadline(), None);
}

#[test]
fn current_time_is_in_milliseconds() {
    let rtc = rtc();
    assert_eq!(rtc.get_current_time(7, 0), (7, 0));
    assert_eq!(rtc.get_current_time(7, 0x8000_0000), (7, 500));
    assert_eq!(rtc.get_current_time(7, u32::MAX), (7, 999));
}

#[test]
fn sleep_of_seconds() {
    let mut state = State::new();
    let sleep = rtc().sleep(&mut state, 3, 10, 0x4000_0000).unwrap();
    let deadline = Deadline { secs: 13, subsecs: 0x4000_0000 };
    assert_eq!(sleep.deadline, deadline);
    assert_eq!(sleep.ops, vec![Op::Fence, compare_op(0x000D_4000)]);
    assert_eq!(state.get_next_deadline(), Some(deadline));
    assert!(!Rtc::<AON_RTC>::is_over(deadline, 13, 0x3FFF_FFFF));
    assert!(Rtc::<AON_RTC>::is_over(deadline, 13, 0x4000_0000));
    assert!(Rtc::<AON_RTC>::is_over(deadline, 14, 0));
}

#[test]
fn long_sleep_of_seconds() {
    let mut state = State::new();
    let sleep = rtc().sleep(&mut state, 0x2_0000, 10, 0).unwrap();
    assert_eq!(sleep.deadline, Deadline { secs: 0x2_000A, subsecs: 0 });
    assert_eq!(sleep.ops, vec![Op::Fence, compare_op(u32::MAX)]);
}

#[test]
fn no_sleep() {
    let mut state = State::new();
    assert!(rtc().sleep(&mut state, 0, 10, 0).is_none());
    assert!(rtc().sleep_millis(&mut state, 0, 10, 0).is_none());
    assert_eq!(state.get_next_deadline(), None);
}

#[test]
fn sleep_of_milliseconds() {
    let mut state = State::new();
    let sleep = rtc().sleep_millis(&mut state, 2250, 10, 0x1000).unwrap();
    assert_eq!(sleep.deadline, Deadline { secs: 12, subsecs: 250 * 0x40_0000 + 0x1000 });
    assert_eq!(sleep.ops, vec![Op::Fence, compare_op(0x000C_3E80)]);
    assert_eq!(state.get_next_deadline(), Some(sleep.deadline));
}

#[test]
fn sleep_of_milliseconds_into_the_next_second() {
    let mut state = State::new();
    let sleep = rtc().sleep_millis(&mut state, 512, 10, 0x8000_0000).unwrap();
    assert_eq!(sleep.deadline, Deadline { secs: 11, subsecs: 0 });
}

#[test]
fn wake_up_at_a_time() {
    let mut state = State::new();
    let sleep = rtc().wakeup_at(&mut state, 12, 500, 10, 0).unwrap();
    assert_eq!(sleep.deadline, Deadline { secs: 12, subsecs: 0x8000_0000 });
    assert_eq!(sleep.ops, vec![Op::Fence, compare_op(0x000C_8000)]);
    let sleep = rtc().wakeup_at(&mut state, 12, 1, 10, 0).unwrap();
    assert_eq!(sleep.deadline, Deadline { secs: 12, subsecs: 4_294_968 });
    let sleep = rtc().wakeup_at(&mut state, 12, 3500, 10, 0).unwrap();
    assert_eq!(sleep.deadline, Deadline { secs: 15, subsecs: 0x8000_0000 });
}

#[test]
fn wake_up_at_a_time_that_has_come() {
    let mut state = State::new();
    assert!(rtc().wakeup_at(&mut state, 12, 500, 12, 0x8000_0000).is_none());
    assert!(rtc().wakeup_at(&mut state, 12, 500, 13, 0).is_none());
    assert!(rtc().wakeup_at(&mut state, 0, 0, 0, 0).is_none());
    assert!(rtc().wakeup_at(&mut state, 12, 500, 12, 0x7FFF_FFFF).is_some());
}

#[test]
fn the_current_time_has_come() {
    let rtc = rtc();
    for subsecs in [0, 1, 4_294_967, 4_294_968, 0x1234_5678, u32::MAX] {
        let (secs, millis) = rtc.get_current_time(9, subsecs);
        assert!(rtc.wakeup_at(&mut State::new(), secs, millis, 9, subsecs).is_none());
    }
}
