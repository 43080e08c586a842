//! The plugin's saved state and the shared parameter snapshot.
//!
//! The state is the parameter snapshot as raw bytes: the IEEE-754 bit pattern
//! of each parameter value, in parameter-ID order, each in the byte order of the
//! machine that saves it.

use crate::parameters::any::PARAMS_COUNT;
use vstd::bytes::{spec_u64_from_le_bytes, spec_u64_to_le_bytes, u64_from_le_bytes, u64_to_le_bytes};
use vstd::prelude::*;

verus! {

/// The size of the saved state in bytes: eight per parameter slot.
pub const STATE_SIZE: usize = 88;

/// The values of all parameter slots, each as the bit pattern of its
/// floating-point value, indexed by parameter ID.
#[derive(Clone, Copy, Debug)]
pub struct ParamSnapshot {
    pub values: [u64; PARAMS_COUNT],
}

/// State that the GUI shares with the main thread (nothing yet).
#[derive(Debug, Default, Clone)]
pub struct GUIShared {}

/// The byte order in which words are stored.
#[derive(Clone, Copy, PartialEq, Eq, Debug)]
pub enum ByteOrder {
    Little,
    Big,
}

/// The eight bytes of `v` in the byte order `order`.
pub open spec fn word_bytes(v: u64, order: ByteOrder) -> Seq<u8> {
    match order {
        ByteOrder::Little => spec_u64_to_le_bytes(v),
        ByteOrder::Big => spec_u64_to_le_bytes(v).reverse(),
    }
}

/// The word that eight bytes in the byte order `order` stand for.
pub open spec fn bytes_word(b: Seq<u8>, order: ByteOrder) -> u64 {
    match order {
        ByteOrder::Little => spec_u64_from_le_bytes(b),
        ByteOrder::Big => spec_u64_from_le_bytes(b.reverse()),
    }
}

/// The bytes of the words `values`, one after the other.
pub open spec fn words_bytes(values: Seq<u64>, order: ByteOrder) -> Seq<u8>
    decreases values.len(),
{
    if values.len() == 0 {
        Seq::empty()
    } else {
        words_bytes(values.drop_last(), order) + word_bytes(values.last(), order)
    }
}

/// The `count` words that the bytes `b` hold, eight bytes each.
pub open spec fn bytes_words(b: Seq<u8>, count: nat, order: ByteOrder) -> Seq<u64> {
    Seq::new(count, |i: int| bytes_word(b.subrange(8 * i, 8 * i + 8), order))
}

/// A word survives a round trip through its bytes, in either order, and eight
/// bytes survive a round trip through their word.
pub proof fn lemma_word_roundtrip(v: u64, b: Seq<u8>, order: ByteOrder)
    ensures
        word_bytes(v, order).len() == 8,
        bytes_word(word_bytes(v, order), order) == v,
        b.len() == 8 ==> word_bytes(bytes_word(b, order), order) == b,
{
    vstd::bytes::lemma_auto_spec_u64_to_from_le_bytes();
    let le = spec_u64_to_le_bytes(v);
    assert(le.reverse().reverse() =~= le);
    if b.len() == 8 {
        assert(b.reverse().reverse() =~= b);
        assert(b.reverse().len() == 8);
    }
}

/// The bytes of `n` words are `8 * n` bytes, and word `i` sits at bytes
/// `8 * i .. 8 * i + 8`.
pub proof fn lemma_words_bytes_layout(values: Seq<u64>, order: ByteOrder)
    ensures
        words_bytes(values, order).len() == 8 * values.len(),
        forall|i: int|
            0 <= i < values.len() ==> #[trigger] words_bytes(values, order).subrange(8 * i, 8 * i + 8)
                == word_bytes(values[i], order),
    decreases values.len(),
{
    lemma_word_roundtrip(0, Seq::empty(), order);
    if values.len() > 0 {
        let init = values.drop_last();
        lemma_words_bytes_layout(init, order);
        lemma_word_roundtrip(values.last(), Seq::empty(), order);
        let all = words_bytes(values, order);
        assert forall|i: int| 0 <= i < values.len() implies #[trigger] all.subrange(8 * i, 8 * i + 8)
            == word_bytes(values[i], order) by {
            if i < values.len() - 1 {
                assert(all.subrange(8 * i, 8 * i + 8) =~= words_bytes(init, order).subrange(
                    8 * i,
                    8 * i + 8,
                ));
            } else {
                assert(all.subrange(8 * i, 8 * i + 8) =~= word_bytes(values.last(), order));
            }
        }
    }
}

/// Loading what was saved gives the same values back, and saving what was
/// loaded gives the same bytes back: the state format loses nothing.
pub proof fn lemma_state_roundtrip(values: Seq<u64>, bytes: Seq<u8>, order: ByteOrder)
    ensures
        bytes_words(words_bytes(values, order), values.len(), order) == values,
        bytes.len() % 8 == 0 ==> words_bytes(bytes_words(bytes, bytes.len() / 8, order), order)
            == bytes,
{
    lemma_words_bytes_layout(values, order);
    let b = words_bytes(values, order);
    assert forall|i: int| 0 <= i < values.len() implies bytes_words(b, values.len(), order)[i]
        == values[i] by {
        assert(b.subrange(8 * i, 8 * i + 8) == word_bytes(values[i], order));
        lemma_word_roundtrip(values[i], Seq::empty(), order);
    }
    assert(bytes_words(b, values.len(), order) =~= values);
    if bytes.len() % 8 == 0 {
        let n = bytes.len() / 8;
        let w = bytes_words(bytes, n, order);
        lemma_words_bytes_layout(w, order);
        let back = words_bytes(w, order);
        assert forall|k: int| 0 <= k < bytes.len() implies back[k] == bytes[k] by {
            let i = k / 8;
            assert(0 <= i < n);
            let chunk = bytes.subrange(8 * i, 8 * i + 8);
            lemma_word_roundtrip(0, chunk, order);
            assert(back.subrange(8 * i, 8 * i + 8) == word_bytes(w[i], order));
            assert(back.subrange(8 * i, 8 * i + 8)[k - 8 * i] == back[k]);
            assert(chunk[k - 8 * i] == bytes[k]);
        }
        assert(back =~= bytes);
    }
}

/// The saved state of `snapshot`: its values' bytes in the byte order `order`.
pub fn encode_snapshot(snapshot: &ParamSnapshot, order: ByteOrder) -> (b: Vec<u8>)
    ensures
        b@ == words_bytes(snapshot.values@, order),
        b@.len() == STATE_SIZE,
{
    let mut out: Vec<u8> = Vec::new();
    let mut i: usize = 0;
    while i < PARAMS_COUNT
        invariant
            0 <= i <= PARAMS_COUNT,
            out@ == words_bytes(snapshot.values@.take(i as int), order),
        decreases PARAMS_COUNT - i,
    {
        let le = u64_to_le_bytes(snapshot.values[i]);
        let mut k: usize = 0;
        let ghost start = out@;
        while k < 8
            invariant
                0 <= k <= 8,
                le@ == spec_u64_to_le_bytes(snapshot.values@[i as int]),
                le@.len() == 8,
                out@ == start + word_bytes(snapshot.values@[i as int], order).take(k as int),
            decreases 8 - k,
        {
            let byte = match order {
                ByteOrder::Little => le[k],
                ByteOrder::Big => le[7 - k],
            };
            out.push(byte);
            k = k + 1;
            assert(out@ =~= start + word_bytes(snapshot.values@[i as int], order).take(k as int));
        }
        assert(snapshot.values@.take(i + 1).drop_last() =~= snapshot.values@.take(i as int));
        assert(word_bytes(snapshot.values@[i as int], order).take(8) =~= word_bytes(
            snapshot.values@[i as int],
            order,
        ));
        i = i + 1;
    }
    assert(snapshot.values@.take(PARAMS_COUNT as int) =~= snapshot.values@);
    proof {
        lemma_words_bytes_layout(snapshot.values@, order);
    }
    out
}

/// The snapshot that a saved state holds.
pub fn decode_snapshot(bytes: &[u8], order: ByteOrder) -> (s: ParamSnapshot)
    requires
        bytes@.len() == STATE_SIZE,
    ensures
        s.values@ == bytes_words(bytes@, PARAMS_COUNT as nat, order),
{
    let mut values = [0u64; PARAMS_COUNT];
    let mut i: usize = 0;
    while i < PARAMS_COUNT
        invariant
            0 <= i <= PARAMS_COUNT,
            bytes@.len() == STATE_SIZE,
            forall|j: int|
                0 <= j < i ==> values@[j] == bytes_word(bytes@.subrange(8 * j, 8 * j + 8), order),
        decreases PARAMS_COUNT - i,
    {
        let mut word_le: Vec<u8> = Vec::new();
        let mut k: usize = 0;
        let ghost chunk = bytes@.subrange(8 * i, 8 * i + 8);
        let ghost le = match order {
            ByteOrder::Little => chunk,
            ByteOrder::Big => chunk.reverse(),
        };
        while k < 8
            invariant
                0 <= k <= 8,
                i < PARAMS_COUNT,
                bytes@.len() == STATE_SIZE,
                chunk == bytes@.subrange(8 * i, 8 * i + 8),
                le == (match order {
                    ByteOrder::Little => chunk,
                    ByteOrder::Big => chunk.reverse(),
                }),
                word_le@ == le.take(k as int),
            decreases 8 - k,
        {
            let byte = match order {
                ByteOrder::Little => bytes[8 * i + k],
                ByteOrder::Big => bytes[8 * i + 7 - k],
            };
            word_le.push(byte);
            k = k + 1;
            assert(word_le@ =~= le.take(k as int));
        }
        assert(le.take(8) =~= le);
        let w = u64_from_le_bytes(word_le.as_slice());
        values[i] = w;
        i = i + 1;
    }
    let s = ParamSnapshot { values };
    assert(s.values@ =~= bytes_words(bytes@, PARAMS_COUNT as nat, order));
    s
}

/// The outcome of one transfer call.
pub enum TransferStep {
    /// Transfer `count` more bytes starting at byte `offset`.
    Again { offset: usize, count: usize },
    /// Every byte has been transferred.
    Done,
}

/// Progress of moving a buffer through a stream that may transfer fewer bytes
/// than asked for per call: the caller asks for the rest of the buffer, feeds
/// back how many bytes the call moved, and stops with failure on a count of
/// zero or less.
pub struct Transfer {
    pub offset: usize,
    pub len: usize,
}

impl Transfer {
    /// A transfer of a `len`-byte buffer that has not started.
    pub fn new(len: usize) -> (t: Self)
        ensures
            t.offset == 0,
            t.len == len,
    {
        Transfer { offset: 0, len }
    }

    /// What to transfer next: the rest of the buffer, or nothing once the
    /// transferred bytes reach its length.
    pub fn next_request(&self) -> (r: TransferStep)
        ensures
            self.offset < self.len ==> r == (TransferStep::Again {
                offset: self.offset,
                count: (self.len - self.offset) as usize,
            }),
            self.offset >= self.len ==> r == TransferStep::Done,
    {
        if self.offset < self.len {
            TransferStep::Again { offset: self.offset, count: self.len - self.offset }
        } else {
            TransferStep::Done
        }
    }

    /// Records that a call moved `n` bytes; `false` (the transfer failed) when
    /// `n` is zero or negative.
    pub fn record(&mut self, n: i64) -> (ok: bool)
        requires
            n > 0 ==> old(self).offset + n <= usize::MAX,
        ensures
            ok == (n > 0),
            ok ==> final(self).offset == old(self).offset + n,
            !ok ==> final(self).offset == old(self).offset,
            final(self).len == old(self).len,
    {
        if n <= 0 {
            return false;
        }
        self.offset = self.offset + n as usize;
        true
    }
}

} // verus!
