use embassy_ti_cc2650::debug_print::{
    debug_print, report_len, BufferFull, DebugState, LostBytesWriter, Transmission,
};

fn state(fifo_max_count: u32, bytes_lost: u32, remaining_byte: u8) -> DebugState {
    DebugState { fifo_max_count, bytes_lost, remaining_byte }
}

fn print(state: &mut DebugState, message: &[u8], slots: u32) -> Transmission {
    debug_print(state, message, slots, slots, &mut [0; 32])
}

const SILENCE: Transmission = Transmission { pair: None, start: 0, count: 0 };

#[test]
fn text_is_written_behind_text() {
    let mut buf = [0; 8];
    let mut writer = LostBytesWriter::new(&mut buf);
    assert_eq!(writer.write_str("abc"), Ok(()));
    assert_eq!(writer.write_str("de"), Ok(()));
    assert_eq!(writer.written_so_far(), 5);
    assert_eq!(writer.write_str("fghi"), Err(BufferFull));
    assert_eq!(writer.written_so_far(), 5);
    assert_eq!(writer.write_bytes(b"fgh"), Ok(()));
    assert_eq!(writer.write_str("x"), Err(BufferFull));
    assert_eq!(writer.write_str(""), Ok(()));
    assert_eq!(&buf, b"abcdefgh");
}

#[test]
fn losses_are_reported_in_decimal() {
    let reports: [(u32, &[u8]); 4] = [
        (0, b"\nLOST:0\n"),
        (7, b"\nLOST:7\n"),
        (1203, b"\nLOST:1203\n"),
        (u32::MAX, b"\nLOST:4294967295\n"),
    ];
    for (lost, report) in reports {
        let mut buf = [0xAA; 20];
        let mut writer = LostBytesWriter::new(&mut buf);
        writer.write_lost_report(lost);
        assert_eq!(writer.written_so_far(), report.len());
        assert_eq!(report_len(lost), report.len());
        assert_eq!(&buf[..report.len()], report);
        assert!(buf[report.len()..].iter().all(|b| *b == 0xAA));
    }
}

#[test]
fn an_even_message_is_sent_whole() {
    let mut state = state(16, 0, 0);
    let sent = print(&mut state, b"hell", 0);
    assert_eq!(sent, Transmission { pair: None, start: 0, count: 4 });
    assert_eq!(state.remaining_byte, 0);
}

#[test]
fn an_odd_character_waits() {
    let mut state = state(16, 0, 0);
    let sent = print(&mut state, b"hello", 0);
    assert_eq!(sent, Transmission { pair: None, start: 0, count: 4 });
    assert_eq!(state.remaining_byte, b'o');
    let sent = print(&mut state, b"!?.", 0);
    assert_eq!(sent, Transmission { pair: Some((b'o', b'!')), start: 1, count: 2 });
    assert_eq!(state.remaining_byte, 0);
    assert_eq!(state.bytes_lost, 0);
}

#[test]
fn a_line_end_does_not_wait() {
    let mut state = state(16, 0, 0);
    let sent = print(&mut state, b"hell\n", 0);
    assert_eq!(sent, Transmission { pair: None, start: 0, count: 5 });
    assert_eq!(state.remaining_byte, 0);
}

#[test]
fn a_waiting_character_goes_with_a_single_one() {
    let mut state = state(16, 0, b'x');
    let sent = print(&mut state, b"\n", 0);
    assert_eq!(sent, Transmission { pair: Some((b'x', b'\n')), start: 1, count: 0 });
    assert_eq!(state.remaining_byte, 0);
}

#[test]
fn an_empty_message_changes_nothing() {
    let mut state = state(16, 0, b'x');
    assert_eq!(print(&mut state, b"", 0), SILENCE);
    assert_eq!(state.remaining_byte, b'x');
}

#[test]
fn what_does_not_fit_is_lost() {
    let mut state = state(2, 0, 0);
    let sent = print(&mut state, b"hello!", 0);
    assert_eq!(sent, Transmission { pair: None, start: 0, count: 4 });
    assert_eq!(state.bytes_lost, 2);
    assert_eq!(state.remaining_byte, 0);
}

#[test]
fn what_does_not_fit_with_a_waiting_character_is_lost() {
    let mut state = state(2, 0, b'x');
    let sent = print(&mut state, b"hello!", 0);
    assert_eq!(sent, Transmission { pair: Some((b'x', b'h')), start: 1, count: 2 });
    assert_eq!(state.bytes_lost, 3);
    assert_eq!(state.remaining_byte, 0);
}

#[test]
fn after_a_loss_the_fifo_has_to_empty_first() {
    let mut state = state(16, 5, 0);
    assert_eq!(print(&mut state, b"hello!", 25), SILENCE);
    assert_eq!(state.bytes_lost, 11);
    let sent = print(&mut state, b"hello!", 23);
    assert_eq!(sent, Transmission { pair: None, start: 0, count: 6 });
    assert_eq!(state.bytes_lost, 11);
}

#[test]
fn after_a_loss_a_report_has_to_fit() {
    let mut state = state(4, 5, 0);
    let mut buf = [0; 17];
    assert_eq!(debug_print(&mut state, b"ab", 1, 1, &mut buf), SILENCE);
    assert_eq!(state.bytes_lost, 7);
    assert_eq!(&buf[..8], b"\nLOST:5\n");
    assert_eq!(buf[8..], [0; 9]);
    let sent = debug_print(&mut state, b"ab", 0, 0, &mut buf);
    assert_eq!(sent, Transmission { pair: None, start: 0, count: 2 });
}

#[test]
fn messages_are_accepted_or_not() {
    assert!(state(16, 0, 0).is_accepted(32));
    assert!(state(16, 5, 0).is_accepted(24));
    assert!(!state(16, 5, 0).is_accepted(25));
    assert!(!state(16, 11, 0).is_accepted(24));
}

#[test]
fn printing_can_be_asked_about() {
    assert!(state(16, 0, 0).can_print(b"abc", 0, 0, 0));
    // A report that does not fit into the buffer.
    assert!(state(16, 5, 0).can_print(b"abc", 0, 0, 8));
    assert!(!state(16, 5, 0).can_print(b"abc", 0, 0, 7));
    // More slots than there are.
    assert!(!state(16, 0, 0).can_print(b"abc", 33, 0, 17));
    assert!(!state(16, 0, 0).can_print(b"abc", 0, 33, 17));
    assert!(!state(0x8000_0000, 0, 0).can_print(b"abc", 0, 0, 17));
    // No room for a waiting character and its partner.
    assert!(!state(16, 0, b'x').can_print(b"abc", 0, 31, 17));
    assert!(state(16, 0, b'x').can_print(b"", 0, 31, 17));
    // More losses than can be counted.
    assert!(!state(16, u32::MAX, 0).can_print(b"abc", 32, 32, 17));
    assert!(state(16, u32::MAX - 3, 0).can_print(b"abc", 32, 32, 17));
    assert!(state(16, u32::MAX, 0).can_print(b"abc", 0, 0, 17));
}
