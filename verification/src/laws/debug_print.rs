//! Laws of the debug output.
use crate::debug_print::{
    debug_print, decimal, lost_report, report_head, report_len, BufferFull, DebugState,
    LostBytesWriter, Transmission,
};
use vstd::prelude::*;

verus! {

/// The characters that a message puts into the FIFO, in order.
pub open spec fn put(t: Transmission, message: Seq<u8>) -> Seq<u8> {
    (match t.pair {
        Some(pair) => seq![pair.0, pair.1],
        None => Seq::empty(),
    }) + message.subrange(t.start as int, t.start + t.count)
}

/// The characters that there are to send: the one that waits, and those of the message.
pub open spec fn to_send(state: DebugState, message: Seq<u8>) -> Seq<u8> {
    if state.remaining_byte != 0 {
        seq![state.remaining_byte] + message
    } else {
        message
    }
}

/// The room in the FIFO.
pub open spec fn room(state: DebugState, slots: u32) -> int {
    2 * state.fifo_max_count - slots
}

/// How many of the characters have room.
pub open spec fn fitting(state: DebugState, message: Seq<u8>, slots: u32) -> int {
    if to_send(state, message).len() <= room(state, slots) {
        to_send(state, message).len() as int
    } else {
        room(state, slots)
    }
}

/// Whether a transmission and the state after it are those of a message. The characters go
/// out in order, from the first one on, as many as have room, and two at a time; one that
/// would go alone does so only at the end of a line, and otherwise the last character of the
/// message waits for the next message. What has no room is counted as lost. The character that
/// waited goes out with the first one of the message.
pub open spec fn is_sent(
    before: DebugState,
    message: Seq<u8>,
    slots: u32,
    t: Transmission,
    after: DebugState,
) -> bool {
    let n = fitting(before, message, slots);
    let waits = n % 2 == 1 && message.last() != 10;
    &&& put(t, message).len() == n - if waits {
        1int
    } else {
        0
    }
    &&& put(t, message) == to_send(before, message).take(put(t, message).len() as int)
    &&& t.pair is Some <==> before.remaining_byte != 0
    &&& t.start + t.count <= message.len()
    &&& after.remaining_byte == if waits {
        message.last()
    } else {
        0
    }
    &&& after.bytes_lost - before.bytes_lost == to_send(before, message).len() - n
    &&& after.fifo_max_count == before.fifo_max_count
}

/// Whether the numbers that sending a message involves are representable, and a character
/// that waits has room together with another one.
pub open spec fn can_be_sent(state: DebugState, message: Seq<u8>, slots: u32) -> bool {
    &&& 2 * state.fifo_max_count <= u32::MAX
    &&& slots <= 2 * state.fifo_max_count
    &&& 0 < message.len()
    &&& to_send(state, message).len() <= u32::MAX
    &&& to_send(state, message).len() > room(state, slots) ==> state.bytes_lost + to_send(
        state,
        message,
    ).len() <= u32::MAX
    &&& state.remaining_byte != 0 ==> room(state, slots) >= 2
}

proof fn message_is_sent(before: DebugState, message: Seq<u8>, slots: u32)
    requires
        can_be_sent(before, message, slots),
    ensures
        is_sent(
            before,
            message,
            slots,
            before.transmission(message, slots),
            before.after(message, slots),
        ),
{
    let t = before.transmission(message, slots);
    let p = put(t, message);
    assert(p =~= to_send(before, message).take(p.len() as int));
}

/// A message goes out from its first character on, as far as there is room, and the rest is
/// counted as lost.
pub proof fn message_goes_out_in_order(
    state: &mut DebugState,
    message: &[u8],
    slots: u32,
    t: Transmission,
)
    requires
        call_ensures(DebugState::transmit, (state, message, slots), t),
        can_be_sent(*old(state), message@, slots),
    ensures
        is_sent(*old(state), message@, slots, t, *final(state)),
{
    message_is_sent(*old(state), message@, slots);
}

/// How many decimal digits a number has.
pub open spec fn digits(n: nat) -> nat
    decreases n,
{
    if n < 10 {
        1
    } else {
        1 + digits(n / 10)
    }
}

/// The number that decimal digits stand for.
pub open spec fn number(text: Seq<u8>) -> int
    decreases text.len(),
{
    if text.len() == 0 {
        0
    } else {
        10 * number(text.drop_last()) + (text.last() - 48)
    }
}

/// Whether text is a number in decimal, written the usual way.
pub open spec fn is_numeral(text: Seq<u8>, n: nat) -> bool {
    &&& number(text) == n
    &&& text.len() == digits(n)
    &&& forall|i: int| 0 <= i < text.len() ==> 48 <= #[trigger] text[i] <= 57
}

/// Decimal digits stand for the number that they were made of.
pub proof fn decimal_is_a_numeral(n: nat)
    ensures
        is_numeral(decimal(n), n),
    decreases n,
{
    if n < 10 {
        assert(decimal(n).drop_last() =~= Seq::<u8>::empty());
        assert(number(decimal(n).drop_last()) == 0);
    } else {
        decimal_is_a_numeral(n / 10);
        assert(decimal(n).drop_last() =~= decimal(n / 10));
    }
}

/// Whether text is a report of lost bytes: on a line of its own, `LOST:` and the number.
pub open spec fn is_report(text: Seq<u8>, lost: u32) -> bool {
    &&& text.len() == digits(lost as nat) + 7
    &&& text[0] == 10
    &&& text[1] == 'L' as u8
    &&& text[2] == 'O' as u8
    &&& text[3] == 'S' as u8
    &&& text[4] == 'T' as u8
    &&& text[5] == ':' as u8
    &&& is_numeral(text.subrange(6, text.len() - 1), lost as nat)
    &&& text.last() == 10
}

/// A report of lost bytes tells how many there were.
pub proof fn report_tells_the_number(lost: u32)
    ensures
        is_report(lost_report(lost), lost),
{
    decimal_is_a_numeral(lost as nat);
    let text = lost_report(lost);
    assert(text.subrange(6, text.len() - 1) =~= decimal(lost as nat));
    assert(text[0] == report_head()[0]);
}

/// How long a report is depends on the number of digits alone.
pub proof fn report_length_is_that_of_its_number(lost: u32, r: usize)
    requires
        call_ensures(report_len, (lost,), r),
    ensures
        r == digits(lost as nat) + 7,
{
    report_tells_the_number(lost);
}

/// Whether a message is sent at all: as long as nothing was lost, and after a loss where a
/// quarter of the FIFO is free and a report of the loss has room.
pub open spec fn is_let_through(state: DebugState, slots: u32) -> bool {
    state.bytes_lost == 0 || (room(state, slots) >= state.fifo_max_count / 2 && room(state, slots)
        >= digits(state.bytes_lost as nat) + 7)
}

/// Whether a report is laid out, and so needs space in the buffer.
pub open spec fn is_reported(state: DebugState, slots: u32) -> bool {
    state.bytes_lost > 0 && room(state, slots) >= state.fifo_max_count / 2
}

/// What becomes of the buffer: a report at its front, or nothing.
pub open spec fn is_laid_out(
    state: DebugState,
    slots: u32,
    before: Seq<u8>,
    after: Seq<u8>,
) -> bool {
    &&& after.len() == before.len()
    &&& is_reported(state, slots) ==> {
        let n = (digits(state.bytes_lost as nat) + 7) as int;
        is_report(after.take(n), state.bytes_lost) && after.skip(n) == before.skip(n)
    }
    &&& !is_reported(state, slots) ==> after == before
}

proof fn report_is_laid_out(state: DebugState, slots: u32, before: Seq<u8>, after: Seq<u8>)
    requires
        is_reported(state, slots),
        lost_report(state.bytes_lost).len() <= before.len(),
        after == lost_report(state.bytes_lost) + before.skip(
            lost_report(state.bytes_lost).len() as int,
        ),
    ensures
        is_laid_out(state, slots, before, after),
{
    report_tells_the_number(state.bytes_lost);
    let n = lost_report(state.bytes_lost).len() as int;
    assert(after.take(n) =~= lost_report(state.bytes_lost));
    assert(after.skip(n) =~= before.skip(n));
}

/// A message is let through or counted as lost, whole.
pub proof fn message_is_let_through_or_lost(
    state: &mut DebugState,
    len: u32,
    slots: u32,
    buffer: &mut [u8],
    r: bool,
    asked: bool,
)
    requires
        call_ensures(DebugState::accept, (state, len, slots, buffer), r),
        call_ensures(DebugState::is_accepted, (old(state), slots), asked),
        2 * old(state).fifo_max_count <= u32::MAX,
        slots <= 2 * old(state).fifo_max_count,
        is_reported(*old(state), slots) ==> digits(old(state).bytes_lost as nat) + 7 <= old(
            buffer,
        )@.len(),
        old(state).bytes_lost + len <= u32::MAX,
    ensures
        r <==> is_let_through(*old(state), slots),
        asked == r,
        final(state).fifo_max_count == old(state).fifo_max_count,
        final(state).remaining_byte == old(state).remaining_byte,
        final(state).bytes_lost - old(state).bytes_lost == if r {
            0int
        } else {
            len as int
        },
        is_laid_out(*old(state), slots, old(buffer)@, final(buffer)@),
{
    report_tells_the_number(old(state).bytes_lost);
    if is_reported(*old(state), slots) {
        report_is_laid_out(*old(state), slots, old(buffer)@, final(buffer)@);
    }
}

/// Printing a message sends it, counts it as lost, or does nothing where it is empty.
pub proof fn message_is_printed(
    state: &mut DebugState,
    message: &[u8],
    slots_before: u32,
    slots: u32,
    buffer: &mut [u8],
    t: Transmission,
    ok: bool,
)
    requires
        call_ensures(debug_print, (state, message, slots_before, slots, buffer), t),
        call_ensures(
            DebugState::can_print,
            (old(state), message, slots_before, slots, old(buffer)@.len() as usize),
            ok,
        ),
        old(buffer)@.len() <= usize::MAX,
        ok,
    ensures
        !is_let_through(*old(state), slots_before) ==> {
            &&& put(t, message@).len() == 0
            &&& t.pair is None
            &&& final(state).bytes_lost - old(state).bytes_lost == message@.len()
            &&& final(state).remaining_byte == old(state).remaining_byte
        },
        is_let_through(*old(state), slots_before) && message@.len() == 0 ==> put(
            t,
            message@,
        ).len() == 0 && *final(state) == *old(state),
        is_let_through(*old(state), slots_before) && message@.len() > 0 ==> is_sent(
            *old(state),
            message@,
            slots,
            t,
            *final(state),
        ),
        final(state).fifo_max_count == old(state).fifo_max_count,
        is_laid_out(*old(state), slots_before, old(buffer)@, final(buffer)@),
{
    report_tells_the_number(old(state).bytes_lost);
    if is_let_through(*old(state), slots_before) && message@.len() > 0 {
        message_is_sent(*old(state), message@, slots);
    }
    if is_reported(*old(state), slots_before) {
        report_is_laid_out(*old(state), slots_before, old(buffer)@, final(buffer)@);
    }
}

/// A message can be printed just when the numbers make sense.
pub proof fn printing_is_possible_within_the_limits(
    state: DebugState,
    message: &[u8],
    slots_before: u32,
    slots: u32,
    buffer_len: usize,
    r: bool,
)
    requires
        call_ensures(
            DebugState::can_print,
            (&state, message, slots_before, slots, buffer_len),
            r,
        ),
    ensures
        r <==> {
            &&& 2 * state.fifo_max_count <= u32::MAX
            &&& slots_before <= 2 * state.fifo_max_count
            &&& slots <= 2 * state.fifo_max_count
            &&& message@.len() <= u32::MAX
            &&& is_reported(state, slots_before) ==> digits(state.bytes_lost as nat) + 7
                <= buffer_len
            &&& if is_let_through(state, slots_before) {
                message@.len() == 0 || can_be_sent(state, message@, slots)
            } else {
                state.bytes_lost + message@.len() <= u32::MAX
            }
        },
{
    report_tells_the_number(state.bytes_lost);
}

/// Bytes are written behind what was written before, all of them or none.
pub proof fn bytes_are_written_behind<'a>(
    w: &mut LostBytesWriter<'a>,
    bytes: &[u8],
    r: Result<(), BufferFull>,
    i: int,
)
    requires
        call_ensures(LostBytesWriter::<'a>::write_bytes, (w, bytes), r),
        old(w).offset <= old(w).buf@.len(),
        0 <= i < old(w).buf@.len(),
    ensures
        r is Ok <==> old(w).offset + bytes@.len() <= old(w).buf@.len(),
        final(w).buf@.len() == old(w).buf@.len(),
        final(w).offset - old(w).offset == if r is Ok {
            bytes@.len() as int
        } else {
            0
        },
        final(w).buf@[i] == if r is Ok && old(w).offset <= i < old(w).offset + bytes@.len() {
            bytes@[i - old(w).offset]
        } else {
            old(w).buf@[i]
        },
{
    if r is Ok {
        let a = old(w).written();
        let n = final(w).offset as int;
        assert(final(w).written().len() == n);
        assert(a.len() == old(w).offset);
        if i < n {
            assert(final(w).buf@[i] == final(w).written()[i]);
            if i < old(w).offset {
                assert(a[i] == old(w).buf@[i]);
            }
        } else {
            assert(final(w).buf@[i] == final(w).buf@.skip(n)[i - n]);
            assert(old(w).buf@[i] == old(w).buf@.skip(n)[i - n]);
        }
    }
}

/// A report is written behind what was written before, and nothing else changes.
pub proof fn report_is_written_behind<'a>(
    w: &mut LostBytesWriter<'a>,
    lost: u32,
    i: int,
    wrote: usize,
)
    requires
        call_ensures(LostBytesWriter::<'a>::write_lost_report, (w, lost), ()),
        call_ensures(LostBytesWriter::<'a>::written_so_far, (final(w),), wrote),
        old(w).offset + digits(lost as nat) + 7 <= old(w).buf@.len(),
        0 <= i < old(w).buf@.len(),
    ensures
        wrote == old(w).offset + digits(lost as nat) + 7,
        final(w).buf@.len() == old(w).buf@.len(),
        is_report(final(w).buf@.subrange(old(w).offset as int, wrote as int), lost),
        i < old(w).offset || i >= wrote ==> final(w).buf@[i] == old(w).buf@[i],
{
    report_tells_the_number(lost);
    let a = old(w).written();
    let from = old(w).offset as int;
    let n = final(w).offset as int;
    assert(a.len() == from);
    assert(final(w).buf@.subrange(from, n) =~= final(w).written().skip(from));
    assert(final(w).written().skip(from) =~= lost_report(lost));
    if i < from {
        assert(final(w).buf@[i] == final(w).written()[i]);
        assert(a[i] == old(w).buf@[i]);
    } else if i >= n {
        assert(final(w).buf@[i] == final(w).buf@.skip(n)[i - n]);
        assert(old(w).buf@[i] == old(w).buf@.skip(n)[i - n]);
    }
}

/// A string is written as the bytes that encode it.
pub proof fn string_is_written_as_its_bytes<'a>(
    a: &mut LostBytesWriter<'a>,
    b: &mut LostBytesWriter<'a>,
    text: &str,
    bytes: &[u8],
    r: Result<(), BufferFull>,
    s: Result<(), BufferFull>,
)
    requires
        call_ensures(LostBytesWriter::<'a>::write_str, (a, text), r),
        call_ensures(LostBytesWriter::<'a>::write_bytes, (b, bytes), s),
        bytes@ == vstd::utf8::encode_utf8(text@),
        old(a).offset <= old(a).buf@.len(),
        old(b).offset == old(a).offset,
        old(b).buf@ == old(a).buf@,
    ensures
        r is Ok <==> s is Ok,
        final(a).buf@ == final(b).buf@,
        r is Ok ==> final(a).offset == old(a).offset + bytes@.len(),
        r is Err ==> final(a).offset == old(a).offset,
{
    let n = old(a).offset + bytes@.len();
    assert(old(a).written() =~= old(b).written());
    if r is Ok {
        assert(final(a).written().len() == n && final(b).written().len() == n);
        assert(final(a).buf@ =~= final(a).written() + final(a).buf@.skip(n));
        assert(final(b).buf@ =~= final(b).written() + final(b).buf@.skip(n));
    }
}

} // verus!
