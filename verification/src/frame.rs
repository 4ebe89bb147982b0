//! Decoded frames, the conversion of their fixed-point samples to 16 bits,
//! and the position of the sample that is played next.

use crate::span::span_nanos;
use crate::span::NANOS_PER_MILLI;
use std::time::Duration;
use vstd::prelude::*;

verus! {

/// Bits that a converted sample is narrowed by. A fixed-point sample has 28
/// fractional bits and a sign; sixteen bits of them are kept.
pub const SCALE_SHIFT: u32 = 13;

/// The smallest step between two converted samples, in fixed-point units.
pub const SCALE_STEP: i32 = 0x2000;

/// Half of the smallest step: added before the shift, it rounds to nearest.
pub const ROUNDING_BIAS: i32 = 0x1000;

/// The fixed-point full scale: the largest magnitude that is not clipped.
pub const FIXED_LIMIT: i32 = 0x0fff_ffff;

/// The sample rate of the frame that stands for the end of a stream.
pub const DEFAULT_RATE: u32 = 44100;

/// Clips a fixed-point value to the full scale, the same distance on either
/// side of zero.
pub open spec fn clamp_fixed(value: int) -> int {
    if value > FIXED_LIMIT {
        FIXED_LIMIT as int
    } else if value < -FIXED_LIMIT {
        -FIXED_LIMIT as int
    } else {
        value
    }
}

/// The 16-bit value of a fixed-point sample as a mathematical integer: the
/// sample is biased by half a step, clipped to the full scale and divided by
/// the step, rounding toward minus infinity.
pub open spec fn scaled_sample(raw: i32) -> int {
    clamp_fixed(raw + ROUNDING_BIAS) / (SCALE_STEP as int)
}

/// The 16-bit sample that a fixed-point sample is converted to.
pub open spec fn quantize(raw: i32) -> i16 {
    scaled_sample(raw) as i16
}

/// Every converted sample lies within the signed 16-bit range, so narrowing
/// it to sixteen bits loses nothing. At and beyond the two ends of the full
/// scale the result is the largest and the smallest 16-bit value.
pub proof fn lemma_sample_in_range(raw: i32)
    ensures
        i16::MIN <= scaled_sample(raw) <= i16::MAX,
        quantize(raw) == scaled_sample(raw),
        raw + ROUNDING_BIAS >= FIXED_LIMIT ==> quantize(raw) == i16::MAX,
        raw + ROUNDING_BIAS <= -FIXED_LIMIT ==> quantize(raw) == i16::MIN,
{
    let clamped = clamp_fixed(raw + ROUNDING_BIAS);
    assert(-0x0fff_ffff <= clamped <= 0x0fff_ffff);
    assert(-0x8000 <= clamped / 0x2000 <= 0x7fff) by (nonlinear_arith)
        requires
            -0x0fff_ffff <= clamped <= 0x0fff_ffff,
    ;
    assert(0x0fff_ffffint / 0x2000 == 0x7fff) by (nonlinear_arith);
    assert((-0x0fff_ffffint) / 0x2000 == -0x8000) by (nonlinear_arith);
}

/// Clipping is symmetric around zero.
pub proof fn lemma_clamp_symmetric(value: int)
    ensures
        clamp_fixed(-value) == -clamp_fixed(value),
{
}

/// Converts a fixed-point sample to a signed 16-bit sample: adds the rounding
/// bias, clips to the full scale, and shifts down to sixteen bits.
pub fn convert_sample(raw: i32) -> (pcm: i16)
    ensures
        pcm == scaled_sample(raw),
        pcm == quantize(raw),
{
    let clamped: i32 = if raw > FIXED_LIMIT - ROUNDING_BIAS {
        FIXED_LIMIT
    } else if raw < -FIXED_LIMIT - ROUNDING_BIAS {
        -FIXED_LIMIT
    } else {
        raw + ROUNDING_BIAS
    };
    let scaled: i32 = clamped >> SCALE_SHIFT;
    assert(scaled == clamped / 0x2000) by (bit_vector)
        requires
            scaled == clamped >> 13u32,
    ;
    proof {
        lemma_sample_in_range(raw);
    }
    scaled as i16
}

/// One decoded unit of audio.
///
/// `samples` holds one array of fixed-point samples for each channel; for
/// stereo, the left channel comes first. A frame without samples stands for
/// the end of the stream.
pub struct Frame {
    /// Samples per second.
    pub sample_rate: u32,
    /// Bits per second of the encoded stream.
    pub bit_rate: u32,
    /// The time that the frame plays for.
    pub duration: Duration,
    /// The samples, channel by channel.
    pub samples: Vec<Vec<i32>>,
}

/// What a frame holds, as mathematical values.
pub ghost struct FrameView {
    /// Samples per second.
    pub sample_rate: u32,
    /// Bits per second of the encoded stream.
    pub bit_rate: u32,
    /// The time that the frame plays for, in nanoseconds.
    pub nanos: nat,
    /// The samples, channel by channel.
    pub samples: Seq<Seq<i32>>,
}

impl FrameView {
    /// The number of channels.
    pub open spec fn channels(self) -> nat {
        self.samples.len()
    }

    /// The number of samples in each channel: that of the first channel, or
    /// zero where the frame has no channel.
    pub open spec fn length(self) -> nat {
        if self.samples.len() == 0 {
            0
        } else {
            self.samples[0].len()
        }
    }

    /// Whether the frame holds no samples, and so ends the stream.
    pub open spec fn is_empty(self) -> bool {
        self.length() == 0
    }

    /// Whether all channels hold the same number of samples.
    pub open spec fn rectangular(self) -> bool {
        forall|c: int| 0 <= c < self.samples.len() ==> (#[trigger] self.samples[c]).len() == self.length()
    }

    /// The number of samples in all channels together.
    pub open spec fn total(self) -> nat {
        self.channels() * self.length()
    }

    /// The time that the frame plays for, in whole milliseconds.
    pub open spec fn millis(self) -> nat {
        self.nanos / (NANOS_PER_MILLI as nat)
    }

    /// The frame's samples in the order in which they are played: for each
    /// instant in turn, one converted sample of every channel.
    pub open spec fn interleaved(self) -> Seq<i16> {
        Seq::new(
            self.total(),
            |k: int| quantize(self.samples[k % (self.channels() as int)][k / (self.channels() as int)]),
        )
    }

    /// The frame that stands for the end of a stream.
    pub open spec fn end_of_stream() -> FrameView {
        FrameView { sample_rate: DEFAULT_RATE, bit_rate: 0, nanos: 0, samples: Seq::empty() }
    }
}

impl View for Frame {
    type V = FrameView;

    open spec fn view(&self) -> FrameView {
        FrameView {
            sample_rate: self.sample_rate,
            bit_rate: self.bit_rate,
            nanos: span_nanos(self.duration),
            samples: Seq::new(self.samples@.len(), |c: int| self.samples@[c]@),
        }
    }
}

impl Frame {
    /// The frame that stands for the end of a stream: no channels, no time.
    pub fn empty() -> (frame: Frame)
        ensures
            frame@ == FrameView::end_of_stream(),
            frame@.rectangular(),
            frame@.is_empty(),
    {
        let frame = Frame {
            sample_rate: DEFAULT_RATE,
            bit_rate: 0,
            duration: Duration::new(0, 0),
            samples: Vec::new(),
        };
        assert(frame@.samples =~= Seq::empty());
        frame
    }

    /// The number of channels.
    pub fn channel_count(&self) -> (count: usize)
        ensures
            count == self@.channels(),
    {
        self.samples.len()
    }

    /// The number of samples in each channel.
    pub fn sample_count(&self) -> (count: usize)
        ensures
            count == self@.length(),
    {
        if self.samples.len() == 0 {
            0
        } else {
            self.samples[0].len()
        }
    }

    /// Whether the frame holds no samples.
    pub fn is_empty(&self) -> (empty: bool)
        ensures
            empty == self@.is_empty(),
    {
        self.sample_count() == 0
    }

    /// Whether all channels hold the same number of samples.
    pub fn is_rectangular(&self) -> (rectangular: bool)
        ensures
            rectangular == self@.rectangular(),
    {
        let length: usize = self.sample_count();
        let mut c: usize = 0;
        while c < self.samples.len()
            invariant
                c <= self.samples.len(),
                length == self@.length(),
                forall|d: int| 0 <= d < c ==> (#[trigger] self@.samples[d]).len() == length,
            decreases self.samples.len() - c,
        {
            if self.samples[c].len() != length {
                assert(self@.samples[c as int].len() != self@.length());
                return false;
            }
            c += 1;
        }
        true
    }

    /// The fixed-point sample of a channel at an instant.
    pub fn sample(&self, channel: usize, index: usize) -> (raw: i32)
        requires
            channel < self@.channels(),
            index < self@.samples[channel as int].len(),
        ensures
            raw == self@.samples[channel as int][index as int],
    {
        self.samples[channel][index]
    }
}

/// A position within a frame: the channel and the instant of the sample that
/// is played next.
#[derive(Clone, Copy, Debug)]
pub struct SampleCursor {
    /// The channel of the next sample.
    pub channel: usize,
    /// The instant of the next sample within the frame.
    pub index: usize,
}

impl SampleCursor {
    /// The position at the start of a frame.
    pub open spec fn origin() -> SampleCursor {
        SampleCursor { channel: 0, index: 0 }
    }

    /// Whether the position names a sample of the frame.
    pub open spec fn within(self, frame: FrameView) -> bool {
        self.channel < frame.channels() && self.index < frame.length()
    }

    /// How many samples of the frame are played before this position.
    pub open spec fn offset(self, frame: FrameView) -> int {
        self.index * frame.channels() + self.channel
    }

    /// The position after this one: the next channel at the same instant,
    /// then the first channel at the next instant; `None` after the frame's
    /// last sample.
    pub open spec fn spec_advance(self, frame: FrameView) -> Option<SampleCursor> {
        if self.channel + 1 < frame.channels() {
            Some(SampleCursor { channel: (self.channel + 1) as usize, index: self.index })
        } else if self.index + 1 < frame.length() {
            Some(SampleCursor { channel: 0, index: (self.index + 1) as usize })
        } else {
            None
        }
    }

    /// The position at the start of a frame.
    pub fn start() -> (cursor: SampleCursor)
        ensures
            cursor == SampleCursor::origin(),
    {
        SampleCursor { channel: 0, index: 0 }
    }

    /// The position after this one within `frame`, or `None` where this is
    /// the position of the frame's last sample.
    pub fn advance(self, frame: &Frame) -> (next: Option<SampleCursor>)
        requires
            self.within(frame@),
        ensures
            next == self.spec_advance(frame@),
            next matches Some(cursor) ==> cursor.within(frame@),
    {
        let channels: usize = frame.channel_count();
        let length: usize = frame.sample_count();
        if self.channel + 1 < channels {
            Some(SampleCursor { channel: self.channel + 1, index: self.index })
        } else if self.index + 1 < length {
            Some(SampleCursor { channel: 0, index: self.index + 1 })
        } else {
            None
        }
    }
}

/// A position within a frame counts the samples played before it, and names
/// the sample that the interleaved order holds at that count.
pub proof fn lemma_cursor_offset(cursor: SampleCursor, frame: FrameView)
    requires
        cursor.within(frame),
    ensures
        0 <= cursor.offset(frame) < frame.total(),
        frame.interleaved()[cursor.offset(frame)] == quantize(
            frame.samples[cursor.channel as int][cursor.index as int],
        ),
{
    let channels = frame.channels() as int;
    let length = frame.length() as int;
    let index = cursor.index as int;
    let channel = cursor.channel as int;
    let offset = cursor.offset(frame);
    assert(0 <= index * channels) by (nonlinear_arith)
        requires
            0 <= index,
            0 <= channels,
    ;
    assert(index * channels + channel < channels * length) by (nonlinear_arith)
        requires
            0 <= index < length,
            0 <= channel < channels,
    ;
    vstd::arithmetic::div_mod::lemma_fundamental_div_mod_converse(offset, channels, index, channel);
}

/// Advancing a position moves it past exactly one sample; there is no next
/// position exactly when that sample is the frame's last.
pub proof fn lemma_cursor_advance(cursor: SampleCursor, frame: FrameView)
    requires
        cursor.within(frame),
        frame.channels() <= usize::MAX,
        frame.length() <= usize::MAX,
    ensures
        match cursor.spec_advance(frame) {
            Some(next) => next.within(frame) && next.offset(frame) == cursor.offset(frame) + 1,
            None => cursor.offset(frame) + 1 == frame.total(),
        },
{
    let channels = frame.channels() as int;
    let length = frame.length() as int;
    let index = cursor.index as int;
    assert((index + 1) * channels == index * channels + channels) by (nonlinear_arith);
    if cursor.channel + 1 >= frame.channels() && cursor.index + 1 >= frame.length() {
        assert(index + 1 == length);
        assert(channels * length == (index + 1) * channels) by (nonlinear_arith)
            requires
                index + 1 == length,
        ;
    }
}

} // verus!
