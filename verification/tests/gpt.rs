use embassy_ti_cc2650::chip::{Interrupt, GPT0};
use embassy_ti_cc2650::gpt::{Gpt, InterruptHandler, SleepTransaction, State};
use embassy_ti_cc2650::hw::{Call, Op, Task};

type Handler = InterruptHandler<GPT0>;

const BASE: u32 = 0x4001_0000;
const OVERFLOW: u32 = 0x01;
const MATCH: u32 = 0x10;

fn gpt() -> Gpt<GPT0> {
    Gpt::<GPT0>::new().0
}

fn stop() -> Op {
    Op::Call(Call::TimerDisable { base: BASE, timer: 0xFF })
}

fn match_at(value: u32) -> Op {
    Op::Call(Call::TimerMatchSet { base: BASE, timer: 0xFF, value })
}

fn sleeping(final_deadline: u32, overflow_limit: u32) -> State {
    let mut state = State::new();
    state.set_new_transaction(SleepTransaction::new(final_deadline, overflow_limit));
    state
}

#[test]
fn timer_is_set_up() {
    let (_, ops) = Gpt::<GPT0>::new();
    assert_eq!(
        ops,
        vec![
            stop(),
            Op::Write { addr: 0x4001_0000, value: 0 },
            Op::Modify { addr: 0x4001_0004, clear: 0x1033, set: 0x32 },
            Op::Write { addr: 0x4001_000C, value: 2 },
            Op::Modify { addr: 0x4001_0018, clear: 0x11, set: 0x11 },
            Op::Unpend(Interrupt::GPT0A),
            Op::Enable(Interrupt::GPT0A),
        ]
    );
}

#[test]
fn short_sleep() {
    let mut state = State::new();
    let ops = gpt().sleep(&mut state, 2);
    assert_eq!(state.get_curr_transaction(), Some(SleepTransaction::new(96_000_000, 0)));
    assert_eq!(
        ops,
        vec![
            stop(),
            Op::Write { addr: 0x4001_0050, value: 0 },
            match_at(96_000_000),
            Op::Modify { addr: 0x4001_0004, clear: 0x20, set: 0x20 },
            Op::Fence,
            Op::Call(Call::TimerEnable { base: BASE, timer: 0xFF }),
        ]
    );
}

#[test]
fn long_sleep() {
    let mut state = State::new();
    let ops = gpt().sleep(&mut state, 100);
    // 4_800_000_000 = 0xFFFF_FFFF + 505_032_705
    assert_eq!(state.get_curr_transaction(), Some(SleepTransaction::new(505_032_705, 1)));
    assert_eq!(ops[2], match_at(u32::MAX));
    assert_eq!(ops[3], Op::Modify { addr: 0x4001_0004, clear: 0x20, set: 0 });
}

#[test]
fn timer_sleep_of_milliseconds() {
    let mut state = State::new();
    gpt().sleep_millis(&mut state, 1500);
    assert_eq!(state.get_curr_transaction(), Some(SleepTransaction::new(72_000_000, 0)));
    gpt().sleep_millis(&mut state, 0);
    assert_eq!(state.get_curr_transaction(), Some(SleepTransaction::new(0, 0)));
    gpt().sleep_millis(&mut state, u32::MAX);
    assert_eq!(state.get_curr_transaction(), Some(SleepTransaction::new(0, 48_000)));
}

#[test]
fn timer_interrupt_is_acknowledged() {
    assert_eq!(
        Handler::acknowledge(),
        vec![Op::Modify { addr: 0x4001_0024, clear: u32::MAX, set: u32::MAX }]
    );
}

#[test]
fn a_match_ends_the_sleep() {
    let mut state = sleeping(1000, 0);
    assert_eq!(
        Handler::on_interrupt(&mut state, MATCH, 1000),
        vec![stop(), Op::Wake(Task::Gpt)]
    );
    assert_eq!(state.get_curr_transaction(), None);
    assert!(state.take_finished());
    assert!(!state.take_finished());
}

#[test]
fn overflows_are_counted() {
    let mut state = sleeping(1000, 3);
    assert_eq!(Handler::on_interrupt(&mut state, OVERFLOW, 5000), vec![match_at(u32::MAX)]);
    assert_eq!(Handler::on_interrupt(&mut state, OVERFLOW, 5000), vec![match_at(u32::MAX)]);
    assert_eq!(state.get_curr_transaction().unwrap().overflow_count, 2);
    assert!(!state.take_finished());
    assert_eq!(
        Handler::on_interrupt(&mut state, OVERFLOW, 999),
        vec![match_at(1000), Op::Modify { addr: 0x4001_0004, clear: 0x20, set: 0x20 }]
    );
    assert!(!state.take_finished());
    assert_eq!(
        Handler::on_interrupt(&mut state, MATCH, 1000),
        vec![stop(), Op::Wake(Task::Gpt)]
    );
    assert!(state.take_finished());
}

#[test]
fn the_last_overflow_can_end_the_sleep() {
    let mut state = sleeping(1000, 1);
    assert_eq!(
        Handler::on_interrupt(&mut state, OVERFLOW | MATCH, 1000),
        vec![stop(), Op::Wake(Task::Gpt)]
    );
    assert!(state.take_finished());
}

#[test]
fn overflow_and_match_at_once() {
    let mut state = sleeping(1000, 1);
    assert_eq!(
        Handler::on_interrupt(&mut state, OVERFLOW | MATCH, 10),
        vec![
            match_at(1000),
            Op::Modify { addr: 0x4001_0004, clear: 0x20, set: 0x20 },
            stop(),
            Op::Wake(Task::Gpt),
        ]
    );
    assert_eq!(state.get_curr_transaction(), None);
}

#[test]
fn an_interrupt_without_a_cause_does_nothing() {
    let mut state = sleeping(1000, 1);
    assert_eq!(Handler::on_interrupt(&mut state, !(OVERFLOW | MATCH), 10), vec![]);
    assert_eq!(state, sleeping(1000, 1));
}

#[test]
fn a_sleep_can_be_cleared() {
    let mut state = sleeping(1, 1);
    state.clear_transaction();
    assert_eq!(state, State::new());
}
