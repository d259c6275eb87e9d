//! The playback engine: construction from decoded audio and a
//! negotiated device configuration, and sample-accurate transport
//! control (play, pause, seek, time queries).
//!
//! Times cross this interface as whole milliseconds. Construction is
//! split from I/O: the surrounding application decodes the file and
//! queries the default output device, then hands the outcomes here as
//! plain values; this module makes every decision about them. The
//! application owns the hardware stream and the lock around the
//! engine; a transport call it cannot deliver (a stream that will not
//! start or a lock it cannot take) is surfaced there as `StreamError`.

use vstd::prelude::*;

use crate::buffer::SampleBuffer;
use crate::buffer::advanced;
use crate::buffer::fill_buffer;
use crate::buffer::fill_buffer_raw;
use crate::buffer::sought;
use crate::buffer::streamed;
use crate::channel::adapted;
use crate::channel::channels_compatible;
use crate::channel::downmix_stereo_to_mono;
use crate::channel::upmix_mono_to_stereo;
use crate::format::SampleFormat;
use crate::format::WireSample;
use crate::format::clamped;
use crate::format::quantized;

verus! {

/// Why construction or a transport command failed.
#[derive(Clone, Copy, PartialEq, Eq, Structural, Debug)]
pub enum AudioError {
    /// The input could not be opened, or decoding failed partway.
    FileError,
    /// No output device, or its configuration could not be queried.
    DeviceError,
    /// The stream could not be created, started or paused, or a lock
    /// could not be acquired for a transport operation.
    StreamError,
    /// The file's and the device's channel counts are incompatible
    /// with the supported mono/stereo adaptation rules.
    ConversionError,
}

impl AudioError {
    /// The error's name, as its display form prints it.
    pub fn message(&self) -> (r: &'static str)
        ensures
            r@ == match *self {
                AudioError::FileError => "FileError"@,
                AudioError::DeviceError => "DeviceError"@,
                AudioError::StreamError => "StreamError"@,
                AudioError::ConversionError => "ConversionError"@,
            },
    {
        match self {
            AudioError::FileError => "FileError",
            AudioError::DeviceError => "DeviceError",
            AudioError::StreamError => "StreamError",
            AudioError::ConversionError => "ConversionError",
        }
    }
}

/// What a device reports of its supported fixed buffer sizes.
#[derive(Clone, Copy, PartialEq, Eq, Structural, Debug)]
pub enum BufferSizeRange {
    /// The device supports fixed sizes between `min` and `max` frames.
    Bounded { min: u32, max: u32 },
    /// The device does not report a bounded range.
    Unknown,
}

/// The sizing requested of the output stream: the largest fixed size
/// the device supports, or the device's own default sizing where no
/// bounded range is reported.
#[derive(Clone, Copy, PartialEq, Eq, Structural, Debug)]
pub enum BufferSizePolicy {
    Fixed(u32),
    DeviceDefault,
}

/// The policy chosen for a reported buffer size range: prefer the
/// device's maximum supported fixed size, else fall back to its
/// default sizing.
pub open spec fn chosen_policy(range: BufferSizeRange) -> BufferSizePolicy {
    match range {
        BufferSizeRange::Bounded { min: _, max } => BufferSizePolicy::Fixed(max),
        BufferSizeRange::Unknown => BufferSizePolicy::DeviceDefault,
    }
}

/// A fully decoded audio file, as the decoding collaborator hands it
/// over: interleaved fixed-point samples in file channel order, the
/// file's own sample rate, and its channel count.
pub struct DecodedAudio {
    pub samples: Vec<i32>,
    pub sample_rate: u32,
    pub channels: usize,
}

/// What was negotiated with the default output device: its channel
/// count, the wire format it requires (`None` for one outside the
/// supported set), and what it reports of its buffer sizing.
pub struct OutputDeviceConfig {
    pub channels: u16,
    pub sample_format: Option<SampleFormat>,
    pub buffer_size: BufferSizeRange,
}

/// The sample index for a time in milliseconds at a sample rate in
/// hertz: `time * rate / 1000`, rounded half up.
pub open spec fn index_of_time(time_ms: int, rate: int) -> int {
    (time_ms * rate + 500) / 1000
}

/// The time in milliseconds for a sample index at a sample rate in
/// hertz: `index * 1000 / rate`, rounded half up.
pub open spec fn time_of_index(index: int, rate: int) -> int {
    (index * 1000 + rate / 2) / rate
}

/// A requested time moved by a signed number of milliseconds, clamped
/// into the representable range: a move before the start of the track
/// stops at time zero.
pub open spec fn shifted_time(time_ms: int, delta_ms: int) -> int {
    clamped(time_ms + delta_ms, 0, u64::MAX as int)
}

/// The playback engine. It owns the sample buffer and the negotiated
/// stream parameters, which are fixed for its lifetime; the
/// application shares it between the control thread and the real-time
/// callback thread behind one lock, and owns the hardware stream
/// itself. The engine starts out paused.
pub struct AudioStreamManager {
    buffer: SampleBuffer,
    rate_hz: u32,
    out_channels: u16,
    wire_format: SampleFormat,
    sizing: BufferSizePolicy,
    active: bool,
}

impl AudioStreamManager {
    /// The channel-adapted sample sequence the engine plays.
    pub closed spec fn samples(&self) -> Seq<i32> {
        self.buffer.samples()
    }

    /// The read cursor: the index of the next unplayed sample.
    pub closed spec fn position(&self) -> int {
        self.buffer.position()
    }

    /// The negotiated sample rate in hertz.
    pub closed spec fn rate(&self) -> int {
        self.rate_hz as int
    }

    /// The negotiated output channel count.
    pub closed spec fn channel_count(&self) -> int {
        self.out_channels as int
    }

    /// The negotiated wire format.
    pub closed spec fn format(&self) -> SampleFormat {
        self.wire_format
    }

    /// The buffer sizing requested of the output stream.
    pub closed spec fn size_policy(&self) -> BufferSizePolicy {
        self.sizing
    }

    /// Whether the engine is in the Playing state.
    pub closed spec fn playing(&self) -> bool {
        self.active
    }

    /// The cursor stays within the buffer, and the negotiated rate is
    /// a positive number of hertz.
    pub open spec fn wf(&self) -> bool {
        &&& 0 <= self.position() <= self.samples().len()
        &&& 1 <= self.rate()
    }

    /// The time the engine reports for its current cursor, in
    /// milliseconds, saturated at the representable maximum.
    pub open spec fn reported_time(&self) -> int {
        clamped(time_of_index(self.position(), self.rate()), 0, u64::MAX as int)
    }
}

/// What one seek establishes: the cursor moves to the requested time's
/// sample index, clamped to the end of the buffer, regardless of where
/// it stood; everything else — the samples, the negotiated parameters,
/// the Playing/Paused state — is untouched.
pub open spec fn seek_outcome(
    pre: AudioStreamManager,
    post: AudioStreamManager,
    time_ms: int,
) -> bool {
    &&& post.samples() == pre.samples()
    &&& post.rate() == pre.rate()
    &&& post.channel_count() == pre.channel_count()
    &&& post.format() == pre.format()
    &&& post.size_policy() == pre.size_policy()
    &&& post.playing() == pre.playing()
    &&& post.position() == sought(pre.samples().len() as int, index_of_time(time_ms, pre.rate()))
}

/// The one outcome construction owes for each pair of collaborator
/// reports: a failed decode is `FileError`; with a decode in hand, a
/// missing device configuration is `DeviceError`; with both,
/// irreconcilable channel counts are `ConversionError`; with those
/// reconciled, a wire format outside the supported set is
/// `StreamError`; otherwise the engine is built, paused, with its
/// cursor at the start of the adapted samples.
pub open spec fn construction_outcome(
    decoded: Option<DecodedAudio>,
    device: Option<OutputDeviceConfig>,
    r: Result<AudioStreamManager, AudioError>,
) -> bool {
    match decoded {
        Option::None => r == Result::<AudioStreamManager, AudioError>::Err(AudioError::FileError),
        Option::Some(d) => if d.sample_rate == 0 {
            r == Result::<AudioStreamManager, AudioError>::Err(AudioError::FileError)
        } else {
            match device {
                Option::None => r == Result::<AudioStreamManager, AudioError>::Err(
                    AudioError::DeviceError,
                ),
                Option::Some(c) => if !channels_compatible(d.channels as int, c.channels as int) {
                    r == Result::<AudioStreamManager, AudioError>::Err(AudioError::ConversionError)
                } else {
                    match c.sample_format {
                        Option::None => r == Result::<AudioStreamManager, AudioError>::Err(
                            AudioError::StreamError,
                        ),
                        Option::Some(f) => r matches Result::Ok(m) && {
                            &&& m.wf()
                            &&& m.samples() == adapted(
                                d.samples@,
                                d.channels as int,
                                c.channels as int,
                            )
                            &&& m.position() == 0
                            &&& m.rate() == d.sample_rate
                            &&& m.channel_count() == c.channels
                            &&& m.format() == f
                            &&& m.size_policy() == chosen_policy(c.buffer_size)
                            &&& !m.playing()
                        },
                    }
                },
            }
        },
    }
}

impl AudioStreamManager {
    /// Build an engine from what the decoding collaborator and the
    /// device negotiation reported, each already reduced to plain
    /// values; `None` stands for a collaborator that failed. Adapts
    /// the decoded samples to the device's channel layout and binds
    /// the negotiated parameters: the file's own sample rate (the
    /// stream is requested to run at it), the device's channel count
    /// and wire format, and the preferred buffer sizing. A decode
    /// without a positive sample rate is as useless as no decode, and
    /// is rejected the same way.
    pub fn from_decoded(decoded: Option<DecodedAudio>, device: Option<OutputDeviceConfig>) -> (r:
        Result<AudioStreamManager, AudioError>)
        ensures
            construction_outcome(decoded, device, r),
            r matches Result::Ok(m) ==> m.wf(),
    {
        let d: DecodedAudio = match decoded {
            Option::Some(d) => d,
            Option::None => {
                return Result::Err(AudioError::FileError);
            },
        };
        if d.sample_rate == 0 {
            return Result::Err(AudioError::FileError);
        }
        let c: OutputDeviceConfig = match device {
            Option::Some(c) => c,
            Option::None => {
                return Result::Err(AudioError::DeviceError);
            },
        };
        let file_channels: usize = d.channels;
        let device_channels: u16 = c.channels;
        let samples: Vec<i32> = if file_channels == 1 && device_channels == 2 {
            upmix_mono_to_stereo(&d.samples)
        } else if file_channels == 2 && device_channels == 1 {
            downmix_stereo_to_mono(d.samples)
        } else if file_channels != device_channels as usize {
            return Result::Err(AudioError::ConversionError);
        } else {
            d.samples
        };
        let f: SampleFormat = match c.sample_format {
            Option::Some(f) => f,
            Option::None => {
                return Result::Err(AudioError::StreamError);
            },
        };
        let sizing: BufferSizePolicy = match c.buffer_size {
            BufferSizeRange::Bounded { min: _, max } => BufferSizePolicy::Fixed(max),
            BufferSizeRange::Unknown => BufferSizePolicy::DeviceDefault,
        };
        Result::Ok(
            AudioStreamManager {
                buffer: SampleBuffer::new(samples),
                rate_hz: d.sample_rate,
                out_channels: device_channels,
                wire_format: f,
                sizing,
                active: false,
            },
        )
    }

    /// Enter the Playing state. The application pairs this with
    /// starting the hardware stream; where that start fails, it keeps
    /// the engine paused and surfaces `StreamError` instead.
    pub fn play(&mut self)
        ensures
            final(self).playing(),
            final(self).samples() == old(self).samples(),
            final(self).position() == old(self).position(),
            final(self).rate() == old(self).rate(),
            final(self).channel_count() == old(self).channel_count(),
            final(self).format() == old(self).format(),
            final(self).size_policy() == old(self).size_policy(),
    {
        self.active = true;
    }

    /// Enter the Paused state. The cursor is left untouched, so a
    /// subsequent `play` resumes exactly where playback stopped.
    pub fn pause(&mut self)
        ensures
            !final(self).playing(),
            final(self).samples() == old(self).samples(),
            final(self).position() == old(self).position(),
            final(self).rate() == old(self).rate(),
            final(self).channel_count() == old(self).channel_count(),
            final(self).format() == old(self).format(),
            final(self).size_policy() == old(self).size_policy(),
    {
        self.active = false;
    }

    /// The sample index for a time in milliseconds at the negotiated
    /// rate, saturated at the largest representable index.
    pub fn get_sample_index_from_time(&self, time_ms: u64) -> (r: usize)
        ensures
            r as int == clamped(index_of_time(time_ms as int, self.rate()), 0, usize::MAX as int),
    {
        proof {
            assert((time_ms as int) * (self.rate_hz as int) <= 0xFFFF_FFFF_FFFF_FFFF
                * 0xFFFF_FFFF) by (nonlinear_arith)
                requires
                    0 <= time_ms <= 0xFFFF_FFFF_FFFF_FFFF,
                    0 <= self.rate_hz <= 0xFFFF_FFFF;
        }
        let num: u128 = (time_ms as u128) * (self.rate_hz as u128) + 500;
        let q: u128 = num / 1000;
        proof {
            vstd::arithmetic::div_mod::lemma_div_is_ordered_by_denominator(num as int, 1, 1000);
        }
        if q > usize::MAX as u128 {
            usize::MAX
        } else {
            q as usize
        }
    }

    /// The time in milliseconds for a sample index at the negotiated
    /// rate, saturated at the largest representable time.
    pub fn get_time_from_sample_index(&self, sample_index: usize) -> (r: u64)
        requires
            self.wf(),
        ensures
            r as int == clamped(time_of_index(sample_index as int, self.rate()), 0, u64::MAX as int),
    {
        let num: u128 = (sample_index as u128) * 1000 + (self.rate_hz / 2) as u128;
        let q: u128 = num / (self.rate_hz as u128);
        proof {
            vstd::arithmetic::div_mod::lemma_div_is_ordered_by_denominator(
                num as int,
                1,
                self.rate_hz as int,
            );
        }
        if q > u64::MAX as u128 {
            u64::MAX
        } else {
            q as u64
        }
    }

    /// The raw cursor, without time conversion. The application reads
    /// it under the engine's lock; a lock it cannot take is surfaced
    /// there as `StreamError`.
    pub fn current_sample_index(&self) -> (r: usize)
        ensures
            r == self.position(),
    {
        self.buffer.current()
    }

    /// The current playback time in milliseconds.
    pub fn get_time(&self) -> (r: u64)
        requires
            self.wf(),
        ensures
            r as int == self.reported_time(),
    {
        let p: usize = self.buffer.current();
        self.get_time_from_sample_index(p)
    }

    /// Seek to a time in milliseconds: the cursor moves to
    /// `round(time * rate / 1000)`, clamped to the end of the buffer,
    /// whether the engine is playing or paused. A cursor at or past
    /// the requested end simply yields silence until a later seek
    /// brings it back in range.
    pub fn set_time(&mut self, time_ms: u64)
        requires
            old(self).wf(),
        ensures
            final(self).wf(),
            seek_outcome(*old(self), *final(self), time_ms as int),
    {
        let idx: usize = self.get_sample_index_from_time(time_ms);
        // The exec length pins the buffer under `usize::MAX`, so the
        // saturation in `get_sample_index_from_time` never cuts below
        // the clamp to the buffer's end.
        let _buffer_len: usize = self.buffer.len();
        proof {
            assert(index_of_time(time_ms as int, self.rate()) >= 0) by {
                vstd::arithmetic::div_mod::lemma_div_is_ordered(
                    0,
                    time_ms as int * self.rate() + 500,
                    1000,
                );
                assert(time_ms as int * self.rate() >= 0) by (nonlinear_arith)
                    requires
                        time_ms >= 0,
                        self.rate() >= 0;
            }
        }
        self.buffer.seek(idx);
    }

    /// Skip by a signed number of milliseconds: read the current time,
    /// move it by `delta_ms` — stopping at time zero on a move before
    /// the start — and seek there.
    pub fn skip_time(&mut self, delta_ms: i64)
        requires
            old(self).wf(),
        ensures
            final(self).wf(),
            seek_outcome(
                *old(self),
                *final(self),
                shifted_time(old(self).reported_time(), delta_ms as int),
            ),
    {
        let cur: u64 = self.get_time();
        let target: u64 = if delta_ms >= 0 {
            let d: u64 = delta_ms as u64;
            if cur > u64::MAX - d {
                u64::MAX
            } else {
                cur + d
            }
        } else {
            let d: u64 = (-(delta_ms as i128)) as u64;
            if cur < d {
                0
            } else {
                cur - d
            }
        };
        assert(target as int == shifted_time(old(self).reported_time(), delta_ms as int));
        self.set_time(target);
    }

    /// Whether the engine is in the Playing state.
    pub fn is_playing(&self) -> (r: bool)
        ensures
            r == self.playing(),
    {
        self.active
    }

    /// The negotiated sample rate in hertz.
    pub fn sample_rate(&self) -> (r: u32)
        ensures
            r as int == self.rate(),
    {
        self.rate_hz
    }

    /// The negotiated output channel count.
    pub fn channels(&self) -> (r: u16)
        ensures
            r as int == self.channel_count(),
    {
        self.out_channels
    }

    /// The negotiated wire format.
    pub fn sample_format(&self) -> (r: SampleFormat)
        ensures
            r == self.format(),
    {
        self.wire_format
    }

    /// The buffer sizing requested of the output stream.
    pub fn buffer_size(&self) -> (r: BufferSizePolicy)
        ensures
            r == self.size_policy(),
    {
        self.sizing
    }

    /// The number of samples in the adapted buffer.
    pub fn sample_count(&self) -> (r: usize)
        ensures
            r == self.samples().len(),
    {
        self.buffer.len()
    }

    /// One real-time callback's work in wire format `T`: fill
    /// `out_len` output slots with the quantization of the samples
    /// under the advancing cursor, or of silence past the end.
    pub fn fill<T: WireSample>(&mut self, out_len: usize) -> (out: Vec<T>)
        requires
            old(self).wf(),
        ensures
            final(self).wf(),
            final(self).samples() == old(self).samples(),
            final(self).rate() == old(self).rate(),
            final(self).channel_count() == old(self).channel_count(),
            final(self).format() == old(self).format(),
            final(self).size_policy() == old(self).size_policy(),
            final(self).playing() == old(self).playing(),
            final(self).position() == advanced(
                old(self).samples().len() as int,
                old(self).position(),
                out_len as int,
            ),
            out@.len() == out_len,
            forall|i: int|
                0 <= i < out_len ==> (#[trigger] out@[i]).wire_val() == quantized(
                    streamed(old(self).samples(), old(self).position(), i) as int,
                    T::wire_lo(),
                    T::wire_hi(),
                ),
    {
        fill_buffer(&mut self.buffer, out_len)
    }

    /// One real-time callback's work for a floating-point device
    /// format: the raw fixed-point samples under the advancing cursor,
    /// or silence past the end, for the application to pass through.
    pub fn fill_raw(&mut self, out_len: usize) -> (out: Vec<i32>)
        requires
            old(self).wf(),
        ensures
            final(self).wf(),
            final(self).samples() == old(self).samples(),
            final(self).rate() == old(self).rate(),
            final(self).channel_count() == old(self).channel_count(),
            final(self).format() == old(self).format(),
            final(self).size_policy() == old(self).size_policy(),
            final(self).playing() == old(self).playing(),
            final(self).position() == advanced(
                old(self).samples().len() as int,
                old(self).position(),
                out_len as int,
            ),
            out@.len() == out_len,
            forall|i: int|
                0 <= i < out_len ==> out@[i] == streamed(
                    old(self).samples(),
                    old(self).position(),
                    i,
                ),
    {
        fill_buffer_raw(&mut self.buffer, out_len)
    }
}

/// Seek idempotence: the cursor a seek establishes depends only on
/// the requested time, the negotiated rate, and the buffer length —
/// never on the cursor it replaces. Two consecutive seeks to the same
/// time therefore yield the same position both times: the time's
/// sample index, clamped to the end of the buffer.
pub proof fn lemma_seek_idempotent(
    m0: AudioStreamManager,
    m1: AudioStreamManager,
    m2: AudioStreamManager,
    time_ms: int,
)
    requires
        seek_outcome(m0, m1, time_ms),
        seek_outcome(m1, m2, time_ms),
    ensures
        m2.position() == m1.position(),
        m1.position() == sought(m0.samples().len() as int, index_of_time(time_ms, m0.rate())),
{
}

/// Time/sample index consistency: converting a sample index to its
/// reported time and that time back to a sample index returns within
/// the rounding error of the millisecond representation — the two
/// indices differ by at most `(rate + 1000) / 2000` samples, half a
/// millisecond of samples plus half a sample.
pub proof fn lemma_time_index_round_trip(p: int, rate: int)
    requires
        0 <= p,
        1 <= rate,
    ensures
        2000 * index_of_time(time_of_index(p, rate), rate) <= 2000 * p + rate + 1000,
        2000 * p <= 2000 * index_of_time(time_of_index(p, rate), rate) + rate + 1000,
{
    let h = rate / 2;
    let t = time_of_index(p, rate);
    let q = index_of_time(t, rate);
    vstd::arithmetic::div_mod::lemma_fundamental_div_mod(rate, 2);
    vstd::arithmetic::div_mod::lemma_mod_bound(rate, 2);
    vstd::arithmetic::div_mod::lemma_fundamental_div_mod(p * 1000 + h, rate);
    vstd::arithmetic::div_mod::lemma_mod_bound(p * 1000 + h, rate);
    vstd::arithmetic::div_mod::lemma_fundamental_div_mod(t * rate + 500, 1000);
    vstd::arithmetic::div_mod::lemma_mod_bound(t * rate + 500, 1000);
    let r1 = (p * 1000 + h) % rate;
    let r2 = (t * rate + 500) % 1000;
    assert(rate * t == p * 1000 + h - r1);
    assert(1000 * q == t * rate + 500 - r2);
    assert(t * rate == rate * t) by (nonlinear_arith);
    assert(1000 * q == p * 1000 + h - r1 + 500 - r2);
    assert(2 * h <= rate && rate - 1 <= 2 * h);
    assert(2000 * q == 2 * (1000 * q));
    assert(2000 * q <= 2000 * p + 2 * h + 1000);
    assert(2000 * q >= 2000 * p + 2 * h - 2 * rate + 2 - 2 * r2);
}

} // verus!
