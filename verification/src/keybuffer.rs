//! Shift registers for one AT frame each, and the keycode ring buffer.

use vstd::prelude::*;

verus! {

use crate::bits::odd_parity;
use crate::bits::popcount16;
use crate::token::CriticalSectionToken;

/// Error of [`KeyIn::shift_in`]: the register already holds a whole frame.
#[derive(Clone, Copy, PartialEq, Eq, Structural, Debug)]
pub struct Overfull;

/// Error of [`KeyOut::put`]: the register is still draining a frame.
#[derive(Clone, Copy, PartialEq, Eq, Structural, Debug)]
pub struct NotEmpty;

/// The sixteen-slot single-producer/single-consumer ring of captured frames.
///
/// The AT-clock interrupt is the producer, the foreground command loop the
/// consumer; both sides call it only under a critical-section token. The
/// queue it holds is `queue()`: the pending frames, oldest first. A `put`
/// into a full ring drops the new frame silently, as an AT/XT host would.
/// `len` counts the pending frames: with all sixteen slots usable, the two
/// cursors alone could not tell a full ring from an empty one.
pub struct KeycodeBuffer {
    pub head: u8,
    pub tail: u8,
    pub len: u8,
    pub contents: [u16; 16],
}

impl KeycodeBuffer {
    /// Well-formedness: both cursors stay below sixteen and `tail` marks the
    /// slot `len` places past `head`.
    pub open spec fn wf(&self) -> bool {
        &&& self.head < 16
        &&& self.tail < 16
        &&& self.len <= 16
        &&& self.tail == (self.head + self.len) % 16
    }

    /// The pending frames, oldest first.
    pub open spec fn queue(&self) -> Seq<u16> {
        Seq::new(self.len as nat, |i: int| self.contents@[(self.head + i) % 16])
    }

    pub fn new() -> (r: KeycodeBuffer)
        ensures
            r.wf(),
            r.queue() == Seq::<u16>::empty(),
            r.head == 0,
            r.tail == 0,
    {
        let r = KeycodeBuffer { head: 0, tail: 0, len: 0, contents: [0; 16] };
        proof {
            assert(r.queue() =~= Seq::<u16>::empty());
        }
        r
    }

    /// Discards every pending frame.
    pub fn flush(&mut self, ctx: &CriticalSectionToken)
        ensures
            final (self).wf(),
            final (self).queue() == Seq::<u16>::empty(),
            final (self).head == 0,
            final (self).tail == 0,
    {
        let _ = ctx;
        self.tail = 0;
        self.head = 0;
        self.len = 0;
        proof {
            assert(self.queue() =~= Seq::<u16>::empty());
        }
    }

    pub fn is_empty(&self, ctx: &CriticalSectionToken) -> (r: bool)
        ensures
            r == (self.queue().len() == 0),
    {
        let _ = ctx;
        self.len == 0
    }

    /// Appends a frame, or drops it silently when the ring is full.
    pub fn put(&mut self, in_key: u16, ctx: &CriticalSectionToken)
        requires
            old(self).wf(),
        ensures
            final (self).wf(),
            old(self).queue().len() < 16 ==> final (self).queue() == old(self).queue().push(
                in_key,
            ),
            old(self).queue().len() == 16 ==> *final (self) == *old(self),
    {
        let _ = ctx;
        if self.len < 16 {
            self.contents[self.tail as usize] = in_key;
            self.tail = (self.tail + 1) % 16;
            self.len = self.len + 1;
            proof {
                assert(self.queue() =~= old(self).queue().push(in_key));
            }
        }
    }

    /// Removes and returns the oldest pending frame, if any.
    pub fn take(&mut self, ctx: &CriticalSectionToken) -> (r: Option<u16>)
        requires
            old(self).wf(),
        ensures
            final (self).wf(),
            old(self).queue().len() == 0 ==> r is None && *final (self) == *old(self),
            old(self).queue().len() > 0 ==> r == Some(old(self).queue()[0])
                && final (self).queue() == old(self).queue().subrange(
                1,
                old(self).queue().len() as int,
            ),
    {
        if self.is_empty(ctx) {
            None
        } else {
            let out_key: u16 = self.contents[self.head as usize];
            self.head = (self.head + 1) % 16;
            self.len = self.len - 1;
            proof {
                assert(self.queue() =~= old(self).queue().subrange(
                    1,
                    old(self).queue().len() as int,
                ));
            }
            Some(out_key)
        }
    }
}

/// If a frame is `put` into an empty buffer and no other `put` intervenes,
/// the next `take` returns exactly that frame and leaves the buffer empty
/// again: `put` appends to `queue()` and `take` removes `queue()[0]`, so on
/// an empty queue the one pushed element is the one taken.
pub proof fn lemma_spsc_put_then_take(q: Seq<u16>, x: u16)
    requires
        q.len() == 0,
    ensures
        q.push(x)[0] == x,
        q.push(x).subrange(1, q.push(x).len() as int) =~= q,
{
}

/// The receive shift register: one AT frame, appended bit by bit.
///
/// Bits arrive first-received-leftmost: each `shift_in` pushes the sampled
/// line level into the low end after shifting everything up. Eleven bits
/// (start, eight data, parity, stop) make the register full.
pub struct KeyIn {
    pub pos: u8,
    pub contents: u16,
}

impl KeyIn {
    /// Well-formedness: never more than eleven bits counted.
    pub open spec fn wf(&self) -> bool {
        self.pos <= 11
    }

    pub fn new() -> (r: KeyIn)
        ensures
            r.wf(),
            r.pos == 0,
            r.contents == 0,
    {
        KeyIn { pos: 0, contents: 0 }
    }

    pub fn is_full(&self) -> (r: bool)
        ensures
            r == (self.pos >= 11),
    {
        self.pos >= 11
    }

    pub fn clear(&mut self, ctx: &CriticalSectionToken)
        ensures
            final (self).wf(),
            final (self).pos == 0,
            final (self).contents == 0,
    {
        let _ = ctx;
        self.pos = 0;
        self.contents = 0;
    }

    /// Appends one sampled bit, or fails when a whole frame is already held.
    pub fn shift_in(&mut self, bit: bool, ctx: &CriticalSectionToken) -> (r: Result<(), Overfull>)
        requires
            old(self).wf(),
        ensures
            final (self).wf(),
            old(self).pos == 11 ==> r is Err && *final (self) == *old(self),
            old(self).pos < 11 ==> r is Ok && final (self).pos == old(self).pos + 1
                && final (self).contents == (old(self).contents << 1u16) | (if bit {
                1u16
            } else {
                0u16
            }),
    {
        let _ = ctx;
        if self.pos == 11 {
            Err(Overfull)
        } else {
            let cast_bit: u16 = if bit {
                1
            } else {
                0
            };
            self.contents = (self.contents << 1u16) | cast_bit;
            self.pos = self.pos + 1;
            Ok(())
        }
    }

    /// Returns the captured frame and rewinds the bit count, or nothing
    /// while the frame is still incomplete.
    pub fn take(&mut self, ctx: &CriticalSectionToken) -> (r: Option<u16>)
        requires
            old(self).wf(),
        ensures
            final (self).wf(),
            old(self).pos < 11 ==> r is None && *final (self) == *old(self),
            old(self).pos == 11 ==> r == Some(old(self).contents) && final (self).pos == 0
                && final (self).contents == old(self).contents,
    {
        let _ = ctx;
        if !self.is_full() {
            None
        } else {
            self.pos = 0;
            Some(self.contents)
        }
    }
}

/// The frame that [`KeyOut::put`] loads for a byte: the byte in the low
/// eight bits, the odd-parity bit above it, then the stop bit. The start
/// bit is not held here; the foreground asserts it on the wire during the
/// bus handover.
pub open spec fn frame_of(b: u8) -> u16 {
    (b as u16) | (if odd_parity(b) {
        0x100u16
    } else {
        0u16
    }) | 0x200u16
}

/// The transmit shift register: one AT frame, drained bit by bit.
///
/// `pos` counts the bits already shifted out; past nine (eight data, parity,
/// stop) the register is empty.
pub struct KeyOut {
    pub pos: u8,
    pub contents: u16,
}

impl KeyOut {
    /// Well-formedness: never more than ten bits counted out.
    pub open spec fn wf(&self) -> bool {
        self.pos <= 10
    }

    pub fn new() -> (r: KeyOut)
        ensures
            r.wf(),
            r.pos == 10,
            r.contents == 0,
            r.pos > 9,
    {
        KeyOut { pos: 10, contents: 0 }
    }

    pub fn is_empty(&self) -> (r: bool)
        ensures
            r == (self.pos > 9),
    {
        // Data 0-7, parity and stop. The start bit is handled specially
        // because it is part of the keyboard negotiation.
        self.pos > 9
    }

    pub fn clear(&mut self, ctx: &CriticalSectionToken)
        ensures
            final (self).wf(),
            final (self).pos == 10,
            final (self).contents == 0,
    {
        let _ = ctx;
        self.pos = 10;
        self.contents = 0;
    }

    /// Emits the lowest remaining bit and advances.
    pub fn shift_out(&mut self, ctx: &CriticalSectionToken) -> (r: bool)
        requires
            old(self).wf(),
            old(self).pos <= 9,
        ensures
            final (self).wf(),
            r == ((old(self).contents & 1) == 1),
            final (self).contents == old(self).contents >> 1u16,
            final (self).pos == old(self).pos + 1,
    {
        let _ = ctx;
        let cast_bit: bool = (self.contents & 0x01) == 1;
        self.contents = self.contents >> 1u16;
        self.pos = self.pos + 1;
        cast_bit
    }

    /// Loads a byte as a frame, or fails while one is still draining.
    pub fn put(&mut self, byte: u8, ctx: &CriticalSectionToken) -> (r: Result<(), NotEmpty>)
        requires
            old(self).wf(),
        ensures
            final (self).wf(),
            old(self).pos <= 9 ==> r is Err && *final (self) == *old(self),
            old(self).pos > 9 ==> r is Ok && final (self).pos == 0 && final (self).contents
                == frame_of(byte),
    {
        let _ = ctx;
        if !self.is_empty() {
            Err(NotEmpty)
        } else {
            // Stop bit at bit nine, odd-parity bit at bit eight.
            let stop_bit: u16 = 0x200;
            let parity_bit: u16 = if crate::bits::compute_parity(byte) {
                0x100
            } else {
                0
            };
            self.contents = (byte as u16) | parity_bit | stop_bit;
            self.pos = 0;
            Ok(())
        }
    }
}

/// A loaded frame carries the stop bit, and its data and parity bits hold
/// an odd number of ones together: the parity bit is chosen to make them so.
pub proof fn lemma_frame_parity(b: u8)
    ensures
        frame_of(b) & 0x200 == 0x200,
        popcount16(frame_of(b) & 0x1FF) % 2 == 1,
{
    assert(frame_of(b) & 0x200 == 0x200) by (bit_vector);
    assert(popcount16(frame_of(b) & 0x1FF) % 2 == 1) by (bit_vector);
}

/// What the shifts after a `put` emit, in order: `shift_out` returns the
/// low bit and halves `contents`, so the `k`-th shift after `put(b)` returns
/// bit `k` of `frame_of(b)`. Those bits are D0 through D7 of `b` first, then
/// the odd-parity bit, then the stop bit; nothing remains after ten, and
/// `pos` has then counted to ten, so the register reads empty.
pub proof fn lemma_frame_bits(b: u8)
    ensures
        forall|i: u16| i < 8 ==> (frame_of(b) >> i) & 1 == ((b as u16) >> i) & 1,
        (frame_of(b) >> 8u16) & 1 == (if odd_parity(b) {
            1u16
        } else {
            0u16
        }),
        (frame_of(b) >> 9u16) & 1 == 1u16,
        frame_of(b) >> 10u16 == 0u16,
{
    assert(forall|i: u16| i < 8 ==> (frame_of(b) >> i) & 1 == ((b as u16) >> i) & 1)
        by (bit_vector);
    assert((frame_of(b) >> 8u16) & 1 == (if odd_parity(b) {
        1u16
    } else {
        0u16
    })) by (bit_vector);
    assert((frame_of(b) >> 9u16) & 1 == 1u16) by (bit_vector);
    assert(frame_of(b) >> 10u16 == 0u16) by (bit_vector);
}

} // verus!
