//! Sliding-window decoder for the table's self-clocked height signal.
use vstd::prelude::*;

verus! {

/// Number of sampled bits the decoder keeps; the oldest one is dropped first.
pub const BUFFER_CAPACITY: usize = 32;

/// Length of the fixed pattern that opens a height frame.
pub const PREAMBLE_LEN: usize = 23;

/// Length of a whole frame: the pattern followed by eight data samples.
pub const FRAME_LEN: usize = 31;

/// Lowest height that a decoded frame may report.
pub const MIN_HEIGHT: i32 = 60;

/// Highest height that a decoded frame may report.
pub const MAX_HEIGHT: i32 = 120;

/// A new reading must differ from the last accepted one by less than this.
pub const MAX_JUMP: i32 = 5;

/// The pattern that opens every height frame.
pub open spec fn preamble() -> Seq<u8> {
    seq![1u8, 0, 1, 1, 1, 1, 1, 1, 1, 0, 0, 1, 1, 1, 1, 1, 1, 1, 1, 1, 1, 0, 1]
}

/// The buffer after `bit` is sampled: appended, with the oldest sample
/// dropped when the buffer was already full.
pub open spec fn push_sample(bits: Seq<u8>, bit: u8) -> Seq<u8> {
    if bits.len() >= BUFFER_CAPACITY {
        bits.drop_first().push(bit)
    } else {
        bits.push(bit)
    }
}

/// The buffer starts with the pattern.
pub open spec fn starts_with_preamble(bits: Seq<u8>) -> bool {
    bits.len() >= PREAMBLE_LEN && bits.take(PREAMBLE_LEN as int) == preamble()
}

/// The buffer holds a whole frame at its head.
pub open spec fn holds_frame(bits: Seq<u8>) -> bool {
    starts_with_preamble(bits) && bits.len() >= FRAME_LEN
}

/// Binary digit carried by one sample: the line is inverted, so a high sample
/// is a `0` and a low one a `1`.
pub open spec fn sample_digit(b: u8) -> int {
    if b > 0 { 0 } else { 1 }
}

/// The value of a sequence of binary digits, most significant first.
pub open spec fn binary_value(ds: Seq<int>) -> int
    decreases ds.len(),
{
    if ds.len() == 0 {
        0
    } else {
        2 * binary_value(ds.drop_last()) + ds.last()
    }
}

/// The eight data digits of the frame at the head of the buffer, most
/// significant first: the samples at positions 30 down to 23.
pub open spec fn data_digits(bits: Seq<u8>) -> Seq<int> {
    Seq::new(8, |k: int| sample_digit(bits[FRAME_LEN - 1 - k]))
}

/// The height carried by the frame at the head of the buffer.
pub open spec fn frame_value(bits: Seq<u8>) -> int {
    binary_value(data_digits(bits))
}

/// A reading `h` is accepted after `prev`: it lies in the valid range and,
/// unless there is no earlier reading, differs from it by less than the
/// largest plausible jump.
pub open spec fn is_plausible(prev: Option<i32>, h: int) -> bool {
    &&& MIN_HEIGHT <= h <= MAX_HEIGHT
    &&& match prev {
        None => true,
        Some(p) => -MAX_JUMP < p - h < MAX_JUMP,
    }
}

/// The height after decoding the buffer `bits` with `prev` as the last reading.
pub open spec fn height_after(prev: Option<i32>, bits: Seq<u8>) -> Option<i32> {
    if holds_frame(bits) && is_plausible(prev, frame_value(bits)) {
        Some(frame_value(bits) as i32)
    } else {
        prev
    }
}

/// Decoder for the height signal. It keeps the most recent samples and the
/// last accepted height.
pub struct SignalDecoder {
    /// The most recent samples, oldest first.
    pub bits: Vec<u8>,
    /// The last height that passed both plausibility checks, if any.
    pub current_height: Option<i32>,
}

/// Two to the power `n`.
pub open spec fn two_to(n: nat) -> nat
    decreases n,
{
    if n == 0 { 1 } else { 2 * two_to((n - 1) as nat) }
}

proof fn lemma_binary_value_bound(ds: Seq<int>)
    requires
        forall|i: int| 0 <= i < ds.len() ==> 0 <= #[trigger] ds[i] <= 1,
    ensures
        0 <= binary_value(ds) < two_to(ds.len()),
    decreases ds.len(),
{
    if ds.len() > 0 {
        let rest = ds.drop_last();
        assert forall|i: int| 0 <= i < rest.len() implies 0 <= #[trigger] rest[i] <= 1 by {
            assert(rest[i] == ds[i]);
        }
        lemma_binary_value_bound(rest);
        assert(ds.last() == ds[ds.len() - 1]);
    }
}

impl SignalDecoder {
    /// The buffer never holds more than its capacity.
    pub open spec fn wf(&self) -> bool {
        self.bits@.len() <= BUFFER_CAPACITY
    }

    /// A decoder with no samples and no height yet.
    pub fn new() -> (r: SignalDecoder)
        ensures
            r.wf(),
            r.bits@ == Seq::<u8>::empty(),
            r.current_height.is_none(),
    {
        SignalDecoder { bits: Vec::with_capacity(BUFFER_CAPACITY), current_height: None }
    }

    /// Samples `bit`: appends it to the buffer, dropping the oldest sample when
    /// the buffer is full, then takes the reading of a frame that now stands
    /// at the head of the buffer if it is plausible.
    pub fn process_bit(&mut self, bit: u8)
        requires
            old(self).wf(),
        ensures
            final(self).wf(),
            final(self).bits@ == push_sample(old(self).bits@, bit),
            final(self).current_height == height_after(old(self).current_height, final(self).bits@),
    {
        if self.bits.len() >= BUFFER_CAPACITY {
            self.bits.remove(0);
        }
        self.bits.push(bit);
        proof {
            let b = old(self).bits@;
            if b.len() >= BUFFER_CAPACITY {
                assert(b.remove(0) =~= b.drop_first());
            }
        }
        if self.is_matching_table_height_pattern() {
            self.update_current_height();
        }
    }

    /// Whether the buffer starts with the frame pattern.
    pub fn is_matching_table_height_pattern(&self) -> (r: bool)
        ensures
            r == starts_with_preamble(self.bits@),
    {
        if self.bits.len() < PREAMBLE_LEN {
            return false;
        }
        let mut i: usize = 0;
        while i < PREAMBLE_LEN
            invariant
                i <= PREAMBLE_LEN <= self.bits@.len(),
                forall|j: int| 0 <= j < i ==> self.bits@[j] == #[trigger] preamble()[j],
            decreases PREAMBLE_LEN - i,
        {
            if self.bits[i] != preamble_bit(i) {
                assert(self.bits@.take(PREAMBLE_LEN as int)[i as int] != preamble()[i as int]);
                return false;
            }
            i = i + 1;
        }
        assert(self.bits@.take(PREAMBLE_LEN as int) =~= preamble());
        true
    }

    /// Decodes the frame at the head of the buffer and takes its value as the
    /// current height if it passes the range and continuity checks; otherwise,
    /// and when the buffer holds fewer samples than a whole frame, keeps the
    /// previous height.
    pub fn update_current_height(&mut self)
        ensures
            final(self).bits == old(self).bits,
            old(self).bits@.len() < FRAME_LEN ==> final(self).current_height == old(self).current_height,
            old(self).bits@.len() >= FRAME_LEN ==> final(self).current_height == (if is_plausible(
                old(self).current_height,
                frame_value(old(self).bits@),
            ) {
                Some(frame_value(old(self).bits@) as i32)
            } else {
                old(self).current_height
            }),
    {
        if self.bits.len() < FRAME_LEN {
            return;
        }
        let new_height = decode_frame(&self.bits);
        if new_height < MIN_HEIGHT || new_height > MAX_HEIGHT {
            return;
        }
        match self.current_height {
            None => {
                self.current_height = Some(new_height);
            },
            Some(prev) => {
                let diff = prev as i64 - new_height as i64;
                if -(MAX_JUMP as i64) < diff && diff < MAX_JUMP as i64 {
                    self.current_height = Some(new_height);
                }
            },
        }
    }
}

/// One sample of the frame pattern.
fn preamble_bit(i: usize) -> (r: u8)
    requires
        i < PREAMBLE_LEN,
    ensures
        r == preamble()[i as int],
{
    if i == 1 || i == 9 || i == 10 || i == 21 {
        0
    } else {
        1
    }
}

/// The eight data samples of the frame at the head of `bits` as a number:
/// positions 30 down to 23 give its digits, most significant first.
fn decode_frame(bits: &Vec<u8>) -> (r: i32)
    requires
        bits@.len() >= FRAME_LEN,
    ensures
        r as int == frame_value(bits@),
        0 <= r < 256,
{
    let ghost ds = data_digits(bits@);
    let mut value: i32 = 0;
    let mut k: usize = 0;
    proof {
        reveal_with_fuel(two_to, 9);
        assert(ds.take(0) =~= Seq::<int>::empty());
    }
    while k < 8
        invariant
            k <= 8,
            bits@.len() >= FRAME_LEN,
            ds == data_digits(bits@),
            value as int == binary_value(ds.take(k as int)),
            two_to(8) == 256,
        decreases 8 - k,
    {
        let digit: i32 = if bits[FRAME_LEN - 1 - k] > 0 { 0 } else { 1 };
        proof {
            let t = ds.take(k as int + 1);
            assert(t.drop_last() =~= ds.take(k as int));
            assert(t.last() == digit);
            assert forall|i: int| 0 <= i < ds.take(k as int).len() implies 0 <= #[trigger] ds.take(k as int)[i] <= 1 by {}
            lemma_binary_value_bound(ds.take(k as int));
            lemma_two_to_monotone(k as nat, 8);
        }
        value = 2 * value + digit;
        k = k + 1;
    }
    proof {
        assert(ds.take(8) =~= ds);
        assert forall|i: int| 0 <= i < ds.len() implies 0 <= #[trigger] ds[i] <= 1 by {}
        lemma_binary_value_bound(ds);
    }
    value
}

proof fn lemma_two_to_monotone(a: nat, b: nat)
    requires
        a <= b,
    ensures
        two_to(a) <= two_to(b),
    decreases b - a,
{
    if a < b {
        lemma_two_to_monotone(a, (b - 1) as nat);
    }
}

/// The buffer and height after sampling every bit of `input` in turn,
/// starting from buffer `bits` and height `h`.
pub open spec fn feed(bits: Seq<u8>, h: Option<i32>, input: Seq<u8>) -> (Seq<u8>, Option<i32>)
    decreases input.len(),
{
    if input.len() == 0 {
        (bits, h)
    } else {
        let (b, h1) = feed(bits, h, input.drop_last());
        let b2 = push_sample(b, input.last());
        (b2, height_after(h1, b2))
    }
}

/// A plausible frame that reaches the head of the buffer sets the height to
/// its value.
pub proof fn lemma_frame_sets_height(prev: Option<i32>, bits: Seq<u8>, bit: u8)
    requires
        holds_frame(push_sample(bits, bit)),
        is_plausible(prev, frame_value(push_sample(bits, bit))),
    ensures
        height_after(prev, push_sample(bits, bit)) == Some(frame_value(push_sample(bits, bit)) as i32),
{
}

/// Feeding one frame into a fresh decoder leaves the height unknown until the
/// frame's last sample, and then sets it to the frame's value if that value
/// lies in the valid range.
pub proof fn lemma_first_lock(frame: Seq<u8>)
    requires
        frame.len() == FRAME_LEN,
        starts_with_preamble(frame),
    ensures
        forall|k: int| 0 <= k < FRAME_LEN ==> #[trigger] feed(Seq::empty(), None, frame.take(k)) == (frame.take(k), None::<i32>),
        feed(Seq::empty(), None, frame) == (frame, if MIN_HEIGHT <= frame_value(frame) <= MAX_HEIGHT {
            Some(frame_value(frame) as i32)
        } else {
            None
        }),
{
    assert forall|k: int| 0 <= k < FRAME_LEN implies #[trigger] feed(Seq::empty(), None, frame.take(k)) == (frame.take(k), None::<i32>) by {
        lemma_feed_prefix(frame, k);
    }
    lemma_feed_prefix(frame, (FRAME_LEN - 1) as int);
    let t = frame.take(FRAME_LEN as int);
    assert(t =~= frame);
    assert(t.drop_last() =~= frame.take(FRAME_LEN - 1));
    assert(frame.take(FRAME_LEN - 1).push(frame.last()) =~= frame);
}

proof fn lemma_feed_prefix(frame: Seq<u8>, k: int)
    requires
        frame.len() == FRAME_LEN,
        0 <= k < FRAME_LEN,
    ensures
        feed(Seq::empty(), None, frame.take(k)) == (frame.take(k), None::<i32>),
    decreases k,
{
    if k == 0 {
        assert(frame.take(0) =~= Seq::<u8>::empty());
    } else {
        lemma_feed_prefix(frame, k - 1);
        let t = frame.take(k);
        assert(t.drop_last() =~= frame.take(k - 1));
        assert(frame.take(k - 1).push(t.last()) =~= t);
    }
}

/// A decoded value outside the valid range never changes the height.
pub proof fn lemma_out_of_range_ignored(prev: Option<i32>, bits: Seq<u8>)
    requires
        !(MIN_HEIGHT <= frame_value(bits) <= MAX_HEIGHT),
    ensures
        height_after(prev, bits) == prev,
{
}

/// A value in range that jumps by the largest plausible amount or more from
/// the previous height is rejected; with no previous height, a frame with a
/// value in range is always taken.
pub proof fn lemma_jump_rejected(prev: Option<i32>, bits: Seq<u8>)
    requires
        MIN_HEIGHT <= frame_value(bits) <= MAX_HEIGHT,
    ensures
        prev matches Some(p) && (p - frame_value(bits) >= MAX_JUMP || frame_value(bits) - p >= MAX_JUMP)
            ==> height_after(prev, bits) == prev,
        prev is None && holds_frame(bits) ==> height_after(prev, bits) == Some(frame_value(bits) as i32),
{
}

/// Decoding the same frame again, with no other reading in between, leaves the
/// height as the first decoding left it.
pub proof fn lemma_redecode_same_frame(prev: Option<i32>, first: Seq<u8>, again: Seq<u8>)
    requires
        first.len() >= FRAME_LEN,
        again.len() >= FRAME_LEN,
        first.take(FRAME_LEN as int) == again.take(FRAME_LEN as int),
    ensures
        height_after(height_after(prev, first), again) == height_after(prev, first),
{
    let f = first.take(FRAME_LEN as int);
    assert(first.take(PREAMBLE_LEN as int) =~= f.take(PREAMBLE_LEN as int));
    assert(again.take(PREAMBLE_LEN as int) =~= f.take(PREAMBLE_LEN as int));
    assert forall|k: int| 0 <= k < FRAME_LEN implies first[k] == again[k] by {
        assert(first[k] == f[k]);
        assert(again[k] == f[k]);
    }
    assert(data_digits(first) =~= data_digits(again));
}

} // verus!
