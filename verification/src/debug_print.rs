//! Debug output through the UART that the Sensor Controller emulates.
//!
//! The emulated UART takes two characters at a time. A character without a
//! partner is kept for the next message, unless it ends a line. Characters for
//! which there is no room are counted as lost.
use vstd::prelude::*;

verus! {

/// The character that ends a line.
pub const LF: u8 = 10;

/// The text in front of the number in a report of lost bytes: a line feed and `LOST:`.
pub open spec fn report_head() -> Seq<u8> {
    seq![10u8, 76u8, 79u8, 83u8, 84u8, 58u8]
}

/// The decimal digits of a number as ASCII characters.
pub open spec fn decimal(n: nat) -> Seq<u8>
    decreases n,
{
    if n < 10 {
        seq![(48 + n) as u8]
    } else {
        decimal(n / 10).push((48 + n % 10) as u8)
    }
}

/// A report of lost bytes.
pub open spec fn lost_report(bytes_lost: u32) -> Seq<u8> {
    report_head() + decimal(bytes_lost as nat) + seq![LF]
}

/// The text does not fit into the rest of the buffer.
#[derive(Clone, Copy, Debug, PartialEq, Eq, Structural)]
pub struct BufferFull;

/// Writes text into a buffer, one piece behind the other.
pub struct LostBytesWriter<'a> {
    pub buf: &'a mut [u8],
    pub offset: usize,
}

impl<'a> LostBytesWriter<'a> {
    /// Whether what was written lies in the buffer.
    pub open spec fn wf(&self) -> bool {
        self.offset <= self.buf@.len()
    }

    /// What was written so far.
    pub open spec fn written(&self) -> Seq<u8> {
        self.buf@.take(self.offset as int)
    }

    /// A writer that starts at the front of the buffer.
    pub fn new(buf: &'a mut [u8]) -> (r: Self)
        ensures
            r.wf(),
            r.offset == 0,
            r.buf@ == old(buf)@,
            final(r.buf)@ == final(buf)@,
    {
        LostBytesWriter { buf, offset: 0 }
    }

    /// How many bytes were written so far.
    pub fn written_so_far(&self) -> (r: usize)
        ensures
            r == self.offset,
    {
        self.offset
    }

    /// Writes bytes behind what was written so far, all of them or, where the
    /// rest of the buffer is too short, none.
    pub fn write_bytes(&mut self, bytes: &[u8]) -> (r: Result<(), BufferFull>)
        requires
            old(self).wf(),
        ensures
            final(self).wf(),
            final(self).buf@.len() == old(self).buf@.len(),
            final(final(self).buf)@ == final(old(self).buf)@,
            r is Ok <==> old(self).offset + bytes@.len() <= old(self).buf@.len(),
            r is Ok ==> final(self).written() == old(self).written() + bytes@
                && final(self).buf@.skip(final(self).offset as int) == old(self).buf@.skip(
                final(self).offset as int,
            ),
            r is Err ==> final(self).offset == old(self).offset && final(self).buf@ == old(
                self,
            ).buf@,
    {
        // Check if there is space remaining
        if self.buf.len() - self.offset < bytes.len() {
            return Err(BufferFull);
        }
        let start: usize = self.offset;
        let mut i: usize = 0;
        while i < bytes.len()
            invariant
                i <= bytes@.len(),
                self.offset == start,
                start == old(self).offset,
                self.buf@.len() == old(self).buf@.len(),
                start + bytes@.len() <= self.buf@.len(),
                start + bytes@.len() <= usize::MAX,
                final(self.buf)@ == final(old(self).buf)@,
                forall|j: int|
                    0 <= j < self.buf@.len() ==> #[trigger] self.buf@[j] == if start <= j < start
                        + i {
                        bytes@[j - start]
                    } else {
                        old(self).buf@[j]
                    },
            decreases bytes@.len() - i,
        {
            self.buf[start + i] = bytes[i];
            i = i + 1;
        }
        // Update offset to avoid overwriting
        self.offset = start + bytes.len();
        assert(self.written() =~= old(self).written() + bytes@);
        assert(self.buf@.skip(self.offset as int) =~= old(self).buf@.skip(self.offset as int));
        Ok(())
    }

    /// Writes a string behind what was written so far, all of it or, where the
    /// rest of the buffer is too short, nothing.
    pub fn write_str(&mut self, s: &str) -> (r: Result<(), BufferFull>)
        requires
            old(self).wf(),
        ensures
            final(self).wf(),
            final(self).buf@.len() == old(self).buf@.len(),
            final(final(self).buf)@ == final(old(self).buf)@,
            r is Ok <==> old(self).offset + vstd::utf8::encode_utf8(s@).len() <= old(self).buf@.len(),
            r is Ok ==> final(self).written() == old(self).written() + vstd::utf8::encode_utf8(s@)
                && final(self).buf@.skip(final(self).offset as int) == old(self).buf@.skip(
                final(self).offset as int,
            ),
            r is Err ==> final(self).offset == old(self).offset && final(self).buf@ == old(
                self,
            ).buf@,
    {
        self.write_bytes(s.as_bytes())
    }

    /// Writes a number in decimal behind what was written so far.
    fn write_decimal(&mut self, n: u32)
        requires
            old(self).wf(),
            old(self).offset + decimal(n as nat).len() <= old(self).buf@.len(),
        ensures
            final(self).wf(),
            final(self).buf@.len() == old(self).buf@.len(),
            final(final(self).buf)@ == final(old(self).buf)@,
            final(self).written() == old(self).written() + decimal(n as nat),
            final(self).buf@.skip(final(self).offset as int) == old(self).buf@.skip(
                final(self).offset as int,
            ),
        decreases n,
    {
        proof {
            reveal_with_fuel(decimal, 2);
        }
        let ghost before = self.written();
        let ghost all = self.buf@;
        if n >= 10 {
            self.write_decimal(n / 10);
            assert(self.written().len() == self.offset);
        }
        let ghost middle = self.buf@;
        let ghost at = self.offset as int;
        let digit: u8 = 48 + (n % 10) as u8;
        let _ = self.write_bytes(&[digit]);
        assert(self.written() =~= before + decimal(n as nat));
        proof {
            lemma_rest_is_kept(all, middle, self.buf@, at, self.offset as int);
        }
    }

    /// Writes a report of lost bytes behind what was written so far.
    pub fn write_lost_report(&mut self, bytes_lost: u32)
        requires
            old(self).wf(),
            old(self).offset + lost_report(bytes_lost).len() <= old(self).buf@.len(),
        ensures
            final(self).wf(),
            final(self).buf@.len() == old(self).buf@.len(),
            final(final(self).buf)@ == final(old(self).buf)@,
            final(self).written() == old(self).written() + lost_report(bytes_lost),
            final(self).offset == old(self).offset + lost_report(bytes_lost).len(),
            final(self).buf@.skip(final(self).offset as int) == old(self).buf@.skip(
                final(self).offset as int,
            ),
    {
        let ghost before = self.written();
        let ghost all = self.buf@;
        let head: [u8; 6] = [10u8, 76u8, 79u8, 83u8, 84u8, 58u8];
        let end: [u8; 1] = [LF];
        let _ = self.write_bytes(&head);
        assert(head@ =~= report_head());
        assert(self.written().len() == self.offset);
        let ghost headed = self.buf@;
        let ghost head_end = self.offset as int;
        self.write_decimal(bytes_lost);
        assert(self.written().len() == self.offset);
        let ghost numbered = self.buf@;
        let ghost number_end = self.offset as int;
        let _ = self.write_bytes(&end);
        assert(self.written().len() == self.offset);
        assert(end@ =~= seq![LF]);
        assert(self.written() =~= before + lost_report(bytes_lost));
        proof {
            lemma_rest_is_kept(all, headed, numbered, head_end, number_end);
            lemma_rest_is_kept(all, numbered, self.buf@, number_end, self.offset as int);
        }
    }
}

/// What two steps leave alone behind the end of the first and of the second is left alone
/// behind the end of both.
proof fn lemma_rest_is_kept(a: Seq<u8>, b: Seq<u8>, c: Seq<u8>, i: int, j: int)
    requires
        0 <= i <= j <= a.len(),
        a.len() == b.len(),
        b.len() == c.len(),
        b.skip(i) == a.skip(i),
        c.skip(j) == b.skip(j),
    ensures
        c.skip(j) == a.skip(j),
{
    assert(b.skip(j) =~= b.skip(i).skip(j - i));
    assert(a.skip(j) =~= a.skip(i).skip(j - i));
}

/// State of the debug output between messages.
#[derive(Clone, Copy, Debug, PartialEq, Eq, Structural)]
pub struct DebugState {
    /// How many pairs of characters the FIFO of the emulated UART holds.
    pub fifo_max_count: u32,
    /// How many characters were lost.
    pub bytes_lost: u32,
    /// The character that waits for a partner, or zero.
    pub remaining_byte: u8,
}

/// What a message sends to the emulated UART.
#[derive(Clone, Copy, Debug, PartialEq, Eq)]
pub struct Transmission {
    /// The two characters to put first.
    pub pair: Option<(u8, u8)>,
    /// Index of the first character of the message to put after that.
    pub start: usize,
    /// How many characters of the message to put, from `start` on.
    pub count: u32,
}

/// Nothing to send.
pub open spec fn silence() -> Transmission {
    Transmission { pair: None, start: 0, count: 0 }
}

impl DebugState {
    /// Whether the FIFO's capacity, in characters, is representable.
    pub open spec fn wf(self) -> bool {
        2 * self.fifo_max_count <= u32::MAX
    }

    /// One if a character waits for a partner.
    pub open spec fn waiting(self) -> int {
        if self.remaining_byte != 0 {
            1
        } else {
            0
        }
    }

    /// The room in the FIFO, from what the emulated UART reports.
    pub open spec fn room(self, slots: u32) -> int {
        2 * self.fifo_max_count - slots
    }

    /// How much room there must be for output after a loss.
    pub open spec fn threshold(self) -> int {
        2 * self.fifo_max_count as int / 4
    }

    /// Whether a message is sent. After a loss it is sent only where the FIFO has
    /// emptied to the threshold and could take a report of the loss.
    pub open spec fn accepts(self, slots: u32) -> bool {
        self.bytes_lost == 0 || (self.room(slots) >= self.threshold() && self.room(slots)
            >= lost_report(self.bytes_lost).len())
    }

    /// How many characters of the message and the waiting one do not fit.
    pub open spec fn excess(self, message: Seq<u8>, slots: u32) -> int {
        if self.room(slots) < message.len() + self.waiting() {
            message.len() + self.waiting() - self.room(slots)
        } else {
            0
        }
    }

    /// How many characters of the message are left once those that do not fit and
    /// the partner of the waiting one are taken away.
    pub open spec fn rest(self, message: Seq<u8>, slots: u32) -> int {
        message.len() - self.excess(message, slots) - self.waiting()
    }

    /// Whether the last character of the message is kept for the next message.
    pub open spec fn keeps_last(self, message: Seq<u8>, slots: u32) -> bool {
        self.rest(message, slots) % 2 == 1 && message.last() != LF
    }

    /// What a message that is sent puts into the FIFO.
    pub open spec fn transmission(self, message: Seq<u8>, slots: u32) -> Transmission {
        Transmission {
            pair: if self.waiting() == 1 {
                Some((self.remaining_byte, message[0]))
            } else {
                None
            },
            start: self.waiting() as usize,
            count: (self.rest(message, slots) - if self.keeps_last(message, slots) {
                1int
            } else {
                0int
            }) as u32,
        }
    }

    /// The state after a message that is sent.
    pub open spec fn after(self, message: Seq<u8>, slots: u32) -> DebugState {
        DebugState {
            fifo_max_count: self.fifo_max_count,
            bytes_lost: (self.bytes_lost + self.excess(message, slots)) as u32,
            remaining_byte: if self.keeps_last(message, slots) {
                message.last()
            } else {
                0
            },
        }
    }

    /// Whether the numbers involved in sending a message are representable, and a
    /// waiting character finds room together with its partner.
    pub open spec fn transmits(self, message: Seq<u8>, slots: u32) -> bool {
        &&& message.len() + self.waiting() <= u32::MAX
        &&& self.excess(message, slots) > 0 ==> self.bytes_lost + message.len() + self.waiting()
            <= u32::MAX
        &&& self.waiting() == 1 ==> self.room(slots) >= 2
    }

    /// Whether a message can be printed: the numbers that the emulated UART reports make
    /// sense, those involved are representable, and a report that is laid out fits into a
    /// buffer of `buffer_len` bytes.
    pub open spec fn prints(
        self,
        message: Seq<u8>,
        slots_before: u32,
        slots: u32,
        buffer_len: nat,
    ) -> bool {
        &&& self.wf()
        &&& slots_before <= 2 * self.fifo_max_count
        &&& slots <= 2 * self.fifo_max_count
        &&& message.len() <= u32::MAX
        &&& !self.accepts(slots_before) ==> self.bytes_lost + message.len() <= u32::MAX
        &&& self.accepts(slots_before) && message.len() > 0 ==> self.transmits(message, slots)
        &&& self.bytes_lost > 0 && self.room(slots_before) >= self.threshold() ==> lost_report(
            self.bytes_lost,
        ).len() <= buffer_len
    }

    /// Whether a message is sent, from what the emulated UART reports.
    pub fn is_accepted(&self, slots: u32) -> (r: bool)
        requires
            self.wf(),
            slots <= 2 * self.fifo_max_count,
        ensures
            r == self.accepts(slots),
    {
        let free: u32 = 2 * self.fifo_max_count - slots;
        self.bytes_lost == 0 || (free >= 2 * self.fifo_max_count / 4 && free as usize
            >= report_len(self.bytes_lost))
    }

    /// Whether a message can be printed.
    pub fn can_print(
        &self,
        debug_message: &[u8],
        slots_before: u32,
        slots: u32,
        buffer_len: usize,
    ) -> (r: bool)
        ensures
            r == self.prints(debug_message@, slots_before, slots, buffer_len as nat),
    {
        if self.fifo_max_count > u32::MAX / 2 || debug_message.len() > u32::MAX as usize {
            return false;
        }
        let capacity: u32 = 2 * self.fifo_max_count;
        if slots_before > capacity || slots > capacity {
            return false;
        }
        let len: u64 = debug_message.len() as u64;
        let lost: u64 = self.bytes_lost as u64;
        let waiting: u64 = if self.remaining_byte != 0 {
            1
        } else {
            0
        };
        let free: u64 = (capacity - slots) as u64;
        if self.bytes_lost > 0 && capacity - slots_before >= capacity / 4 && report_len(
            self.bytes_lost,
        ) > buffer_len {
            return false;
        }
        if !self.is_accepted(slots_before) {
            return lost + len <= u32::MAX as u64;
        }
        len == 0 || (len + waiting <= u32::MAX as u64 && (free >= len + waiting || lost + len
            + waiting <= u32::MAX as u64) && (waiting == 0 || free >= 2))
    }

    /// Decides whether a message of `msg_len` characters is sent; one that is not
    /// counts as lost. A report of earlier losses is laid out in `lost_buffer`.
    pub fn accept(&mut self, msg_len: u32, slots: u32, lost_buffer: &mut [u8]) -> (r: bool)
        requires
            old(self).wf(),
            slots <= 2 * old(self).fifo_max_count,
            old(self).bytes_lost > 0 && old(self).room(slots) >= old(self).threshold()
                ==> lost_report(old(self).bytes_lost).len() <= old(lost_buffer)@.len(),
            !old(self).accepts(slots) ==> old(self).bytes_lost + msg_len <= u32::MAX,
        ensures
            r == old(self).accepts(slots),
            r ==> *final(self) == *old(self),
            !r ==> *final(self) == (DebugState {
                bytes_lost: (old(self).bytes_lost + msg_len) as u32,
                ..*old(self)
            }),
            final(lost_buffer)@.len() == old(lost_buffer)@.len(),
            old(self).bytes_lost > 0 && old(self).room(slots) >= old(self).threshold()
                ==> final(lost_buffer)@ == lost_report(old(self).bytes_lost) + old(
                lost_buffer,
            )@.skip(lost_report(old(self).bytes_lost).len() as int),
            !(old(self).bytes_lost > 0 && old(self).room(slots) >= old(self).threshold())
                ==> final(lost_buffer)@ == old(lost_buffer)@,
    {
        let bytes_lost: u32 = self.bytes_lost;
        if bytes_lost == 0 {
            return true;
        }
        let free: u32 = 2 * self.fifo_max_count - slots;
        if free < 2 * self.fifo_max_count / 4 {
            self.bytes_lost = bytes_lost + msg_len;
            return false;
        }
        let mut writer: LostBytesWriter = LostBytesWriter::new(lost_buffer);
        writer.write_lost_report(bytes_lost);
        let report_len: usize = writer.written_so_far();
        proof {
            report_length_is_bounded(bytes_lost);
            assert(writer.written() =~= lost_report(bytes_lost));
            assert(writer.buf@ =~= writer.buf@.take(report_len as int) + writer.buf@.skip(
                report_len as int,
            ));
        }
        if free < report_len as u32 {
            self.bytes_lost = bytes_lost + msg_len;
            return false;
        }
        true
    }

    /// Splits a message into what is put into the FIFO now and what waits for a
    /// partner; what does not fit counts as lost.
    pub fn transmit(&mut self, debug_message: &[u8], slots: u32) -> (r: Transmission)
        requires
            old(self).wf(),
            slots <= 2 * old(self).fifo_max_count,
            0 < debug_message@.len(),
            old(self).transmits(debug_message@, slots),
        ensures
            r == old(self).transmission(debug_message@, slots),
            *final(self) == old(self).after(debug_message@, slots),
            r.start + r.count <= debug_message@.len(),
    {
        let is_remaining: u32 = if self.remaining_byte != 0 {
            1
        } else {
            0
        };
        let mut len: u32 = debug_message.len() as u32;
        let free: u32 = 2 * self.fifo_max_count - slots;
        if free < len + is_remaining {
            self.bytes_lost = self.bytes_lost + len + is_remaining - free;
            len = free - is_remaining;
        }
        let mut pair: Option<(u8, u8)> = None;
        let mut start: usize = 0;
        if is_remaining != 0 {
            pair = Some((self.remaining_byte, debug_message[0]));
            self.remaining_byte = 0;
            start = 1;
            len = len - 1;
        }
        let last: u8 = debug_message[debug_message.len() - 1];
        if len % 2 == 1 && last != LF {
            self.remaining_byte = last;
            len = len - 1;
        }
        Transmission { pair, start, count: len }
    }
}

proof fn lemma_decimal_bound(n: nat, k: nat)
    requires
        n < vstd::arithmetic::power::pow(10, k),
        k >= 1,
    ensures
        decimal(n).len() <= k,
    decreases k,
{
    reveal(vstd::arithmetic::power::pow);
    if n >= 10 {
        if k == 1 {
            reveal_with_fuel(vstd::arithmetic::power::pow, 2);
        }
        lemma_decimal_bound(n / 10, (k - 1) as nat);
    }
}

/// A report is at most 17 characters long.
pub proof fn report_length_is_bounded(bytes_lost: u32)
    ensures
        lost_report(bytes_lost).len() <= 17,
{
    assert(vstd::arithmetic::power::pow(10, 10) == 10_000_000_000) by {
        reveal_with_fuel(vstd::arithmetic::power::pow, 11);
    }
    lemma_decimal_bound(bytes_lost as nat, 10);
}

/// How long a report is.
pub fn report_len(bytes_lost: u32) -> (r: usize)
    ensures
        r == lost_report(bytes_lost).len(),
{
    let mut rest: u32 = bytes_lost;
    let mut digits: usize = 1;
    proof {
        report_length_is_bounded(bytes_lost);
    }
    while rest >= 10
        invariant
            1 <= digits,
            digits - 1 + decimal(rest as nat).len() == decimal(bytes_lost as nat).len(),
            decimal(bytes_lost as nat).len() <= 10,
        decreases rest,
    {
        rest = rest / 10;
        assert(decimal(rest as nat).len() >= 1);
        digits = digits + 1;
    }
    digits + 7
}

/// Prints a message: decides whether it is sent at all, and if so what goes into
/// the FIFO. `slots_before` and `slots` are what the emulated UART reports of its
/// FIFO before either decision.
pub fn debug_print(
    state: &mut DebugState,
    debug_message: &[u8],
    slots_before: u32,
    slots: u32,
    lost_buffer: &mut [u8],
) -> (r: Transmission)
    requires
        old(state).prints(debug_message@, slots_before, slots, old(lost_buffer)@.len()),
    ensures
        !old(state).accepts(slots_before) ==> r == silence() && *final(state) == (DebugState {
            bytes_lost: (old(state).bytes_lost + debug_message@.len()) as u32,
            ..*old(state)
        }),
        old(state).accepts(slots_before) && debug_message@.len() == 0 ==> r == silence()
            && *final(state) == *old(state),
        old(state).accepts(slots_before) && debug_message@.len() > 0 ==> r == old(
            state,
        ).transmission(debug_message@, slots) && *final(state) == old(state).after(
            debug_message@,
            slots,
        ),
        final(lost_buffer)@.len() == old(lost_buffer)@.len(),
        old(state).bytes_lost > 0 && old(state).room(slots_before) >= old(state).threshold()
            ==> final(lost_buffer)@ == lost_report(old(state).bytes_lost) + old(
            lost_buffer,
        )@.skip(lost_report(old(state).bytes_lost).len() as int),
        !(old(state).bytes_lost > 0 && old(state).room(slots_before) >= old(state).threshold())
            ==> final(lost_buffer)@ == old(lost_buffer)@,
{
    let msg_len: u32 = debug_message.len() as u32;
    if !state.accept(msg_len, slots_before, lost_buffer) || msg_len == 0 {
        return Transmission { pair: None, start: 0, count: 0 };
    }
    state.transmit(debug_message, slots)
}

/// What a transmission puts into the FIFO, character by character.
pub open spec fn sent(t: Transmission, message: Seq<u8>) -> Seq<u8> {
    (match t.pair {
        Some((a, b)) => seq![a, b],
        None => seq![],
    }) + message.subrange(t.start as int, t.start + t.count)
}

/// The waiting character as a sequence.
pub open spec fn kept(state: DebugState) -> Seq<u8> {
    if state.remaining_byte != 0 {
        seq![state.remaining_byte]
    } else {
        seq![]
    }
}

/// No character goes missing in the books: each one of the message, and the one that
/// waited, is sent, waits, or is counted as lost. A zero at the end of a message
/// does not count as a character.
pub proof fn characters_are_accounted_for(state: DebugState, message: Seq<u8>, slots: u32)
    requires
        state.wf(),
        slots <= 2 * state.fifo_max_count,
        0 < message.len(),
        state.transmits(message, slots),
        message.last() != 0,
    ensures
        sent(state.transmission(message, slots), message).len() + kept(
            state.after(message, slots),
        ).len() + (state.after(message, slots).bytes_lost - state.bytes_lost) == message.len()
            + kept(state).len(),
        sent(state.transmission(message, slots), message).len() <= state.room(slots),
{
}

/// A message that fits comes out whole and in order: what is sent, followed by what
/// waits now, is what waited before followed by the message.
pub proof fn fitting_message_keeps_its_order(state: DebugState, message: Seq<u8>, slots: u32)
    requires
        state.wf(),
        slots <= 2 * state.fifo_max_count,
        0 < message.len(),
        state.transmits(message, slots),
        state.excess(message, slots) == 0,
        message.last() != 0,
    ensures
        sent(state.transmission(message, slots), message) + kept(state.after(message, slots))
            == kept(state) + message,
        state.after(message, slots).bytes_lost == state.bytes_lost,
{
    let t = state.transmission(message, slots);
    let after = state.after(message, slots);
    assert(sent(t, message) + kept(after) =~= kept(state) + message);
}

/// A message that ends a line leaves nothing behind that waits.
pub proof fn line_end_flushes(state: DebugState, message: Seq<u8>, slots: u32)
    requires
        message.len() > 0,
        message.last() == LF,
    ensures
        kept(state.after(message, slots)).len() == 0,
{
}

/// Where the room in the FIFO is a whole number of pairs, a message that is cut
/// short leaves nothing behind that waits.
pub proof fn cut_message_keeps_nothing(state: DebugState, message: Seq<u8>, slots: u32)
    requires
        state.wf(),
        slots <= 2 * state.fifo_max_count,
        0 < message.len(),
        state.transmits(message, slots),
        state.excess(message, slots) > 0,
        state.room(slots) % 2 == 0,
    ensures
        kept(state.after(message, slots)).len() == 0,
{
}

} // verus!
