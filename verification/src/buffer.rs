//! The in-memory sample buffer: a fully decoded, channel-adapted
//! sequence of fixed-point samples plus a read cursor, and the fill
//! routine the real-time output callback runs against it.

use vstd::prelude::*;

use crate::format::WireSample;
use crate::format::quantized;

verus! {

/// A decoded sample sequence with a read cursor. The cursor names the
/// next unread sample; a cursor equal to the length denotes end of
/// playback, which is not an error: reads past it yield silence.
pub struct SampleBuffer {
    data: Vec<i32>,
    cursor: usize,
}

/// The cursor after a fill of `n` output slots starting at `pos` in a
/// buffer of `len` samples: advanced by one per real sample read,
/// never past the end.
pub open spec fn advanced(len: int, pos: int, n: int) -> int {
    if pos + n <= len {
        pos + n
    } else {
        len
    }
}

/// The raw sample handed to output slot `i` of a fill starting at
/// `pos`: the sample under the advancing cursor, or silence (`0`)
/// past the end of the data.
pub open spec fn streamed(samples: Seq<i32>, pos: int, i: int) -> i32 {
    if pos + i < samples.len() {
        samples[pos + i]
    } else {
        0i32
    }
}

/// The cursor after a seek to `index` in a buffer of `len` samples:
/// the index itself, clamped to the end of the buffer.
pub open spec fn sought(len: int, index: int) -> int {
    if index <= len {
        index
    } else {
        len
    }
}

impl SampleBuffer {
    /// The held sample sequence.
    pub closed spec fn samples(&self) -> Seq<i32> {
        self.data@
    }

    /// The read cursor: the index of the next unread sample.
    pub closed spec fn position(&self) -> int {
        self.cursor as int
    }

    /// The cursor never passes the end of the sample sequence.
    pub open spec fn wf(&self) -> bool {
        0 <= self.position() <= self.samples().len()
    }

    /// A buffer over a decoded sequence, with the cursor at the start.
    pub fn new(samples: Vec<i32>) -> (r: SampleBuffer)
        ensures
            r.wf(),
            r.samples() == samples@,
            r.position() == 0,
    {
        SampleBuffer { data: samples, cursor: 0 }
    }

    /// The number of samples held; fixed for the buffer's lifetime.
    pub fn len(&self) -> (r: usize)
        ensures
            r == self.samples().len(),
    {
        self.data.len()
    }

    /// The current cursor.
    pub fn current(&self) -> (r: usize)
        ensures
            r == self.position(),
    {
        self.cursor
    }

    /// Move the cursor to `index`, clamped to the end of the buffer.
    /// The samples are untouched.
    pub fn seek(&mut self, index: usize)
        requires
            old(self).wf(),
        ensures
            final(self).wf(),
            final(self).samples() == old(self).samples(),
            final(self).position() == sought(old(self).samples().len() as int, index as int),
    {
        let n: usize = self.data.len();
        if index <= n {
            self.cursor = index;
        } else {
            self.cursor = n;
        }
    }
}

/// Fill `out_len` output slots from the buffer, as the raw fixed-point
/// samples the converter would quantize: the next unread sample for
/// each slot while any remain, then silence. Advances the cursor by
/// the number of real samples read.
pub fn fill_buffer_raw(buf: &mut SampleBuffer, out_len: usize) -> (out: Vec<i32>)
    requires
        old(buf).wf(),
    ensures
        final(buf).wf(),
        final(buf).samples() == old(buf).samples(),
        final(buf).position() == advanced(
            old(buf).samples().len() as int,
            old(buf).position(),
            out_len as int,
        ),
        out@.len() == out_len,
        forall|i: int|
            0 <= i < out_len ==> out@[i] == streamed(
                old(buf).samples(),
                old(buf).position(),
                i,
            ),
{
    let ghost orig = *buf;
    let n: usize = buf.data.len();
    let mut out: Vec<i32> = Vec::new();
    let mut i: usize = 0;
    while i < out_len
        invariant
            i <= out_len,
            n == orig.samples().len(),
            buf.samples() == orig.samples(),
            buf.wf(),
            buf.position() == advanced(n as int, orig.position(), i as int),
            out@.len() == i,
            forall|j: int| 0 <= j < i ==> out@[j] == streamed(orig.samples(), orig.position(), j),
        decreases out_len - i,
    {
        if buf.cursor < n {
            out.push(buf.data[buf.cursor]);
            buf.cursor = buf.cursor + 1;
        } else {
            out.push(0i32);
        }
        i += 1;
    }
    out
}

/// Fill `out_len` output slots from the buffer in wire format `T`:
/// each slot holds the quantization of the sample the cursor passed
/// over, or of silence past the end. This is the work of one
/// real-time output callback.
pub fn fill_buffer<T: WireSample>(buf: &mut SampleBuffer, out_len: usize) -> (out: Vec<T>)
    requires
        old(buf).wf(),
    ensures
        final(buf).wf(),
        final(buf).samples() == old(buf).samples(),
        final(buf).position() == advanced(
            old(buf).samples().len() as int,
            old(buf).position(),
            out_len as int,
        ),
        out@.len() == out_len,
        forall|i: int|
            0 <= i < out_len ==> (#[trigger] out@[i]).wire_val() == quantized(
                streamed(old(buf).samples(), old(buf).position(), i) as int,
                T::wire_lo(),
                T::wire_hi(),
            ),
{
    let raw: Vec<i32> = fill_buffer_raw(buf, out_len);
    let mut out: Vec<T> = Vec::new();
    let mut i: usize = 0;
    while i < out_len
        invariant
            i <= out_len,
            raw@.len() == out_len,
            forall|j: int|
                0 <= j < out_len ==> raw@[j] == streamed(
                    old(buf).samples(),
                    old(buf).position(),
                    j,
                ),
            out@.len() == i,
            forall|j: int|
                0 <= j < i ==> (#[trigger] out@[j]).wire_val() == quantized(
                    raw@[j] as int,
                    T::wire_lo(),
                    T::wire_hi(),
                ),
        decreases out_len - i,
    {
        out.push(T::from_sample(raw[i]));
        i += 1;
    }
    out
}

/// Silence past the end: a fill that starts with the cursor at the end
/// of the buffer leaves the cursor exactly where it was and hands
/// silence to every output slot. Since the cursor is unchanged, the
/// same holds of every further fill, however many follow.
pub proof fn lemma_silence_past_end(samples: Seq<i32>, n: int)
    requires
        n >= 0,
    ensures
        advanced(samples.len() as int, samples.len() as int, n) == samples.len() as int,
        forall|i: int| 0 <= i < n ==> streamed(samples, samples.len() as int, i) == 0i32,
{
}

} // verus!
