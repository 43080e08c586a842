use vstd::prelude::*;

verus! {

/// The number of sample pairs the delay line remembers.
pub const ITD_CAPACITY: usize = 512;

/// The interaural time delay line: a ring buffer of the last
/// [`ITD_CAPACITY`] stereo sample pairs, read back at a chosen delay.
/// The fractional (interpolating) read is done by the caller on the two taps
/// that [`ItdDelay::process`] returns.
pub struct ItdDelay<T> {
    buf_l: Vec<T>,
    buf_r: Vec<T>,
    write_ptr: usize,
    capacity: usize,
}

/// The slot `d` samples before the slot `last`.
#[verifier::opaque]
pub open spec fn slot_before(last: int, d: int) -> int {
    (last + ITD_CAPACITY - d % (ITD_CAPACITY as int)) % (ITD_CAPACITY as int)
}

/// Every slot lies inside the buffer.
proof fn lemma_slot_in_buffer(last: int, d: int)
    requires
        0 <= last,
        0 <= d,
    ensures
        0 <= slot_before(last, d) < ITD_CAPACITY,
{
    reveal(slot_before);
}

/// The slots that the two taps read are the slots `delay` and `delay + 1`
/// samples (modulo the capacity) before the slot just written, which is the
/// slot before the new write position.
proof fn lemma_tap_slots(wp: int, delay: int)
    requires
        0 <= wp < ITD_CAPACITY,
        0 <= delay,
        delay + 1 <= wp + ITD_CAPACITY,
    ensures
        (wp + ITD_CAPACITY - delay) % (ITD_CAPACITY as int) == slot_before(
            (wp + 1) % (ITD_CAPACITY as int) + ITD_CAPACITY - 1,
            delay % (ITD_CAPACITY as int),
        ),
        (wp + ITD_CAPACITY - delay - 1) % (ITD_CAPACITY as int) == slot_before(
            (wp + 1) % (ITD_CAPACITY as int) + ITD_CAPACITY - 1,
            (delay + 1) % (ITD_CAPACITY as int),
        ),
{
    reveal(slot_before);
}

/// After the write position moves on from `wp`, the slot `k` before the last
/// write is the one that was `k - 1` before the previous last write.
proof fn lemma_advance_slots(wp: int, k: int)
    requires
        0 <= wp < ITD_CAPACITY,
        0 <= k < ITD_CAPACITY,
    ensures
        slot_before((wp + 1) % (ITD_CAPACITY as int) + ITD_CAPACITY - 1, k) == slot_before(wp, k),
        1 <= k ==> slot_before(wp, k) == slot_before(wp + ITD_CAPACITY - 1, k - 1),
        1 <= k ==> slot_before(wp, k) != wp,
        slot_before(wp, 0) == wp,
{
    reveal(slot_before);
}

impl<T> ItdDelay<T> {
    pub const CAPACITY: usize = 512;

    /// The buffers hold one slot per remembered pair and the write position
    /// is one of the slots.
    pub closed spec fn well_formed(self) -> bool {
        &&& self.capacity == ITD_CAPACITY
        &&& self.buf_l@.len() == ITD_CAPACITY
        &&& self.buf_r@.len() == ITD_CAPACITY
        &&& self.write_ptr < ITD_CAPACITY
    }

    /// The slot that the next sample pair is written to.
    pub closed spec fn write_index(self) -> usize {
        self.write_ptr
    }

    /// The sample pair held in slot `i`.
    closed spec fn slot(self, i: int) -> (T, T) {
        (self.buf_l@[i], self.buf_r@[i])
    }

    /// The remembered sample pairs, most recent first: `history()[k]` was
    /// written `k` writes before the last one. (The capacity is the constant
    /// [`ITD_CAPACITY`], as [`Self::well_formed`] states, so the history has
    /// that length.)
    pub closed spec fn history(self) -> Seq<(T, T)> {
        Seq::new(
            ITD_CAPACITY as nat,
            |k: int| self.slot(slot_before(self.write_ptr + ITD_CAPACITY - 1, k)),
        )
    }

}

impl<T: Copy> ItdDelay<T> {
    /// An empty delay line: every slot holds `silence`.
    pub fn new(silence: T) -> (d: Self)
        ensures
            d.well_formed(),
            d.write_index() == 0,
            d.history() == Seq::new(ITD_CAPACITY as nat, |k: int| (silence, silence)),
    {
        let mut buf_l: Vec<T> = Vec::new();
        let mut buf_r: Vec<T> = Vec::new();
        let mut i: usize = 0;
        while i < Self::CAPACITY
            invariant
                i <= ITD_CAPACITY,
                buf_l@.len() == i,
                buf_r@.len() == i,
                forall|j: int| 0 <= j < i ==> buf_l@[j] == silence && buf_r@[j] == silence,
            decreases ITD_CAPACITY - i,
        {
            buf_l.push(silence);
            buf_r.push(silence);
            i = i + 1;
        }
        let d = Self { buf_l, buf_r, write_ptr: 0, capacity: Self::CAPACITY };
        assert forall|k: int| 0 <= k < ITD_CAPACITY implies d.history()[k] == (silence, silence) by {
            lemma_slot_in_buffer(d.write_ptr + ITD_CAPACITY - 1, k);
        }
        assert(d.history() =~= Seq::new(ITD_CAPACITY as nat, |k: int| (silence, silence)));
        d
    }

    /// Fills every slot with `silence` and moves the write position back to the start.
    pub fn reset(&mut self, silence: T)
        requires
            old(self).well_formed(),
        ensures
            final(self).well_formed(),
            final(self).write_index() == 0,
            final(self).history() == Seq::new(ITD_CAPACITY as nat, |k: int| (silence, silence)),
    {
        let mut i: usize = 0;
        while i < self.capacity
            invariant
                self.capacity == ITD_CAPACITY,
                self.buf_l@.len() == ITD_CAPACITY,
                self.buf_r@.len() == ITD_CAPACITY,
                self.write_ptr < ITD_CAPACITY,
                i <= ITD_CAPACITY,
                forall|j: int| 0 <= j < i ==> self.buf_l@[j] == silence && self.buf_r@[j] == silence,
            decreases ITD_CAPACITY - i,
        {
            self.buf_l.set(i, silence);
            self.buf_r.set(i, silence);
            i = i + 1;
        }
        self.write_ptr = 0;
        assert forall|k: int| 0 <= k < ITD_CAPACITY implies self.history()[k] == (silence, silence) by {
            lemma_slot_in_buffer(self.write_ptr + ITD_CAPACITY - 1, k);
        }
        assert(self.history() =~= Seq::new(ITD_CAPACITY as nat, |k: int| (silence, silence)));
    }

    /// The write position, for callers that check a delay against it.
    pub fn write_ptr(&self) -> (w: usize)
        requires
            self.well_formed(),
        ensures
            w == self.write_index(),
            w < ITD_CAPACITY,
    {
        self.write_ptr
    }

    /// Writes the sample pair `sample`, then reads back the pairs
    /// `delay_floor` and `delay_floor + 1` samples ago (a delay of 0 reads the
    /// pair just written), for the caller to interpolate between.
    pub fn process(&mut self, sample: (T, T), delay_floor: usize) -> (taps: ((T, T), (T, T)))
        requires
            old(self).well_formed(),
            delay_floor + 1 <= old(self).write_index() + ITD_CAPACITY,
        ensures
            final(self).well_formed(),
            final(self).history() == pushed(old(self).history(), sample),
            final(self).write_index() == (old(self).write_index() + 1) % (ITD_CAPACITY as int),
            taps.0 == final(self).history()[(delay_floor as int) % (ITD_CAPACITY as int)],
            taps.1 == final(self).history()[(delay_floor as int + 1) % (ITD_CAPACITY as int)],
    {
        let ghost old_self = *self;
        let wp = self.write_ptr;
        self.buf_l.set(wp, sample.0);
        self.buf_r.set(wp, sample.1);

        let idx0 = (self.write_ptr + self.capacity - delay_floor) % self.capacity;
        let idx1 = (self.write_ptr + self.capacity - delay_floor - 1) % self.capacity;

        let tap0 = (self.buf_l[idx0], self.buf_r[idx0]);
        let tap1 = (self.buf_l[idx1], self.buf_r[idx1]);

        self.write_ptr = (self.write_ptr + 1) % self.capacity;

        proof {
            lemma_tap_slots(wp as int, delay_floor as int);
            let h = self.history();
            let expected = seq![sample] + old_self.history().take(ITD_CAPACITY - 1);
            assert forall|k: int| 0 <= k < ITD_CAPACITY implies h[k] == expected[k] by {
                lemma_advance_slots(wp as int, k);
                lemma_slot_in_buffer(wp as int, k);
                if k >= 1 {
                    assert(expected[k] == old_self.history()[k - 1]);
                }
            }
            assert(h =~= expected);
        }
        (tap0, tap1)
    }
}

} // verus!

verus! {

/// The history after one write of `x` (see [`ItdDelay::process`]).
pub open spec fn pushed<T>(h: Seq<(T, T)>, x: (T, T)) -> Seq<(T, T)> {
    seq![x] + h.take(ITD_CAPACITY - 1)
}

/// The history after writing the pairs `s` in order.
pub open spec fn pushed_all<T>(h: Seq<(T, T)>, s: Seq<(T, T)>) -> Seq<(T, T)>
    decreases s.len(),
{
    if s.len() == 0 {
        h
    } else {
        pushed(pushed_all(h, s.drop_last()), s.last())
    }
}

/// The delay line reads back what was written: after writing the pairs `s`,
/// the pair at delay `d` is the one written `d` writes before the last, as long
/// as the line still remembers it, and older pairs are those of the history
/// before the writes.
pub proof fn lemma_delay_line<T>(h: Seq<(T, T)>, s: Seq<(T, T)>)
    requires
        h.len() == ITD_CAPACITY,
    ensures
        pushed_all(h, s).len() == ITD_CAPACITY,
        forall|d: int|
            0 <= d < ITD_CAPACITY ==> #[trigger] pushed_all(h, s)[d] == if d < s.len() {
                s[s.len() - 1 - d]
            } else {
                h[d - s.len()]
            },
    decreases s.len(),
{
    if s.len() > 0 {
        lemma_delay_line(h, s.drop_last());
        let prev = pushed_all(h, s.drop_last());
        assert forall|d: int| 0 <= d < ITD_CAPACITY implies #[trigger] pushed_all(h, s)[d] == if d
            < s.len() {
            s[s.len() - 1 - d]
        } else {
            h[d - s.len()]
        } by {
            if d >= 1 {
                assert(pushed_all(h, s)[d] == prev[d - 1]);
            }
        }
    }
}

} // verus!
