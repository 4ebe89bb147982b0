//! The frame decoder, the duration estimator and the sample stream.
//!
//! A decoder reads a stream frame by frame. Frames that fail to decode are
//! passed over. The sample stream plays the decoded frames one after
//! another: it gives the samples of each frame with the channels
//! interleaved, converted to 16 bits, and counts the time of every frame
//! that it enters. The stream ends at the first frame without samples, which
//! is also what the decoder gives once the bytes are used up.

use crate::checked_millis;
use crate::frame::Frame;
use crate::frame::FrameView;
use crate::playhead::lemma_playhead_at_start;
use crate::playhead::lemma_playhead_remaining;
use crate::playhead::Playhead;
use crate::playhead::PlayheadView;
use crate::source::decoded_frames;
use crate::source::decoded_headers;
use crate::source::EncodedStream;
use crate::source::FrameReader;
use crate::source::Outcomes;
use crate::span::add_spans;
use crate::span::lemma_millis_from_nanos;
use crate::span::max_span_nanos;
use crate::span::span_nanos;
use crate::span::NANOS_PER_MILLI;
use std::time::Duration;
use vstd::prelude::*;

verus! {

/// The results of a decoder from its first decoded frame on: leading
/// failures are dropped.
pub open spec fn skip_failed(outcomes: Outcomes) -> Outcomes
    decreases outcomes.len(),
{
    if outcomes.len() == 0 || outcomes[0] is Some {
        outcomes
    } else {
        skip_failed(outcomes.drop_first())
    }
}

/// Whether any frame decodes.
pub open spec fn has_frame(outcomes: Outcomes) -> bool {
    skip_failed(outcomes).len() > 0
}

/// The first frame that decodes, or the frame that stands for the end of the
/// stream where none does.
pub open spec fn next_good(outcomes: Outcomes) -> FrameView {
    if has_frame(outcomes) {
        skip_failed(outcomes)[0]->0
    } else {
        FrameView::end_of_stream()
    }
}

/// The results that follow the first decoded frame; none where no frame
/// decodes.
pub open spec fn after_good(outcomes: Outcomes) -> Outcomes {
    if has_frame(outcomes) {
        skip_failed(outcomes).drop_first()
    } else {
        Seq::empty()
    }
}

/// The time of all frames that decode, added up, in nanoseconds.
pub open spec fn total_nanos(outcomes: Outcomes) -> nat
    decreases outcomes.len(),
{
    if outcomes.len() == 0 {
        0
    } else {
        let first: nat = match outcomes[0] {
            Some(frame) => frame.nanos,
            None => 0,
        };
        first + total_nanos(outcomes.drop_first())
    }
}

/// Takes results from the reader up to and including the first decoded
/// frame, and returns that frame; `None` where the reader ends before any
/// frame decodes.
pub fn first_frame(reader: &mut FrameReader) -> (found: Option<Frame>)
    ensures
        found is Some <==> has_frame(old(reader)@),
        found matches Some(frame) ==> frame@ == next_good(old(reader)@)
            && frame@.rectangular(),
        final(reader)@ == after_good(old(reader)@),
{
    let ghost start = reader@;
    loop
        invariant
            start == old(reader)@,
            skip_failed(reader@) == skip_failed(start),
        decreases reader@.len(),
    {
        let ghost before = reader@;
        match reader.next_outcome() {
            None => {
                assert(skip_failed(before) =~= before);
                assert(reader@ =~= Seq::<Option<FrameView>>::empty());
                return None;
            },
            Some(None) => {},
            Some(Some(frame)) => {
                return Some(frame);
            },
        }
    }
}

/// The first frame of the rest of the stream that decodes: frames before it
/// that fail to decode are passed over. Where no frame decodes, the result is
/// the frame without samples that stands for the end of the stream.
pub fn next_frame(reader: &mut FrameReader) -> (frame: Frame)
    ensures
        frame@ == next_good(old(reader)@),
        frame@.rectangular(),
        final(reader)@ == after_good(old(reader)@),
{
    match first_frame(reader) {
        Some(frame) => frame,
        None => Frame::empty(),
    }
}

/// Whether the stream is in the expected format: whether any of its frames
/// decodes. The stream is read through a copy and stays where it is.
pub fn is_mp3(data: &EncodedStream) -> (matches: bool)
    ensures
        matches == has_frame(decoded_frames(data@.remaining())),
{
    let mut probe = data.frames();
    first_frame(&mut probe).is_some()
}

/// A time in milliseconds, held at the largest 64-bit value where it is
/// longer.
pub open spec fn saturated(millis: int) -> u64 {
    if millis > u64::MAX {
        u64::MAX
    } else {
        millis as u64
    }
}

/// The elapsed time after a frame has been entered: the frame's whole
/// milliseconds are added, and the sum stops at the largest 64-bit value.
pub open spec fn clock_after(elapsed: u64, frame: FrameView) -> u64 {
    saturated(elapsed + frame.millis())
}

/// The elapsed time after a frame has been entered: adds the frame's whole
/// milliseconds, and holds the sum at the largest 64-bit value rather than
/// letting it run over.
pub fn advance_clock(elapsed: u64, frame: &Frame) -> (after: u64)
    ensures
        after == clock_after(elapsed, frame@),
{
    proof {
        lemma_millis_from_nanos(frame.duration);
    }
    match checked_millis(frame.duration) {
        Some(millis) => elapsed.saturating_add(millis),
        None => u64::MAX,
    }
}

/// The samples that a decoder gives for these results: the interleaved
/// samples of every frame that decodes, in order, up to the first frame
/// without samples, which ends the stream.
pub open spec fn stream_samples(outcomes: Outcomes) -> Seq<i16>
    decreases outcomes.len(),
{
    if outcomes.len() == 0 {
        Seq::empty()
    } else {
        match outcomes[0] {
            None => stream_samples(outcomes.drop_first()),
            Some(frame) => if frame.is_empty() {
                Seq::empty()
            } else {
                frame.interleaved() + stream_samples(outcomes.drop_first())
            },
        }
    }
}

/// The whole milliseconds that a decoder counts for these results: those of
/// every frame that it enters, which are the frames that decode up to and
/// including the first one without samples.
pub open spec fn stream_millis(outcomes: Outcomes) -> nat
    decreases outcomes.len(),
{
    if outcomes.len() == 0 {
        0
    } else {
        match outcomes[0] {
            None => stream_millis(outcomes.drop_first()),
            Some(frame) => if frame.is_empty() {
                frame.millis()
            } else {
                frame.millis() + stream_millis(outcomes.drop_first())
            },
        }
    }
}

/// A sample stream as mathematical values.
pub ghost struct DecoderView {
    /// The frame that is being played and the position in it.
    pub head: PlayheadView,
    /// The elapsed playback time in milliseconds.
    pub elapsed: u64,
    /// The results that the frame reader has yet to give.
    pub upcoming: Outcomes,
}

impl DecoderView {
    /// The sample stream of a newly opened decoder: it stands at the start
    /// of the first frame that decodes, whose time has been counted already.
    pub open spec fn opened(outcomes: Outcomes) -> DecoderView {
        DecoderView {
            head: PlayheadView::at_start(next_good(outcomes)),
            elapsed: clock_after(0, next_good(outcomes)),
            upcoming: after_good(outcomes),
        }
    }

    /// What holds of every sample stream: its playhead is well formed.
    pub open spec fn wf(self) -> bool {
        self.head.wf()
    }

    /// Whether the stream has ended: the current frame holds no samples.
    pub open spec fn exhausted(self) -> bool {
        self.head.exhausted()
    }

    /// The sample that the stream gives next, `None` where it has ended.
    pub open spec fn peek(self) -> Option<i16> {
        self.head.current()
    }

    /// The stream after it has given its next sample. Within a frame only
    /// the position moves. After the last sample of a frame the next frame
    /// that decodes is entered: the position starts over, and the frame's
    /// time is added to the elapsed time, once. A stream that has ended
    /// stays as it is.
    pub open spec fn after_next(self) -> DecoderView {
        if self.head.exhausted() {
            self
        } else if self.head.next_cursor() is Some {
            DecoderView { head: self.head.advanced(), ..self }
        } else {
            DecoderView {
                head: PlayheadView::at_start(next_good(self.upcoming)),
                elapsed: clock_after(self.elapsed, next_good(self.upcoming)),
                upcoming: after_good(self.upcoming),
            }
        }
    }

    /// The stream after it has given its next `count` samples, or as many
    /// as it has.
    pub open spec fn after(self, count: nat) -> DecoderView
        decreases count,
    {
        if count == 0 {
            self
        } else {
            self.after_next().after((count - 1) as nat)
        }
    }

    /// All samples that the stream has yet to give, in order.
    pub open spec fn samples_ahead(self) -> Seq<i16> {
        if self.head.exhausted() {
            Seq::empty()
        } else {
            self.head.remaining() + stream_samples(self.upcoming)
        }
    }

    /// The elapsed time that the stream will show once it has ended.
    pub open spec fn total_millis(self) -> u64 {
        if self.head.exhausted() {
            self.elapsed
        } else {
            saturated(self.elapsed + stream_millis(self.upcoming))
        }
    }
}

/// A decoder of one track: the frame reader, the frame that is being played
/// with the position in it, and the elapsed playback time.
pub struct Mp3Decoder {
    reader: FrameReader,
    head: Playhead,
    current_time: u64,
}

impl View for Mp3Decoder {
    type V = DecoderView;

    closed spec fn view(&self) -> DecoderView {
        DecoderView { head: self.head@, elapsed: self.current_time, upcoming: self.reader@ }
    }
}

impl Mp3Decoder {
    /// Probes the stream and, where it is in the expected format, makes a
    /// decoder that stands at the start of its first frame. A stream in
    /// another format is handed back as it was given, at the same offset.
    pub fn new(data: EncodedStream) -> (made: Result<Mp3Decoder, EncodedStream>)
        ensures
            match made {
                Ok(decoder) => {
                    &&& has_frame(decoded_frames(data@.remaining()))
                    &&& decoder@ == DecoderView::opened(decoded_frames(data@.remaining()))
                    &&& decoder@.wf()
                },
                Err(stream) => !has_frame(decoded_frames(data@.remaining())) && stream == data,
            },
    {
        if !is_mp3(&data) {
            return Err(data);
        }
        let mut reader = data.into_frames();
        let current_frame = next_frame(&mut reader);
        let current_time: u64 = advance_clock(0, &current_frame);
        Ok(Mp3Decoder { reader, head: Playhead::new(current_frame), current_time })
    }

    /// Estimates how long the stream plays without decoding its samples.
    ///
    /// The stream is probed first; in another format it has no duration.
    /// Otherwise the headers of all frames are read and the durations of
    /// those that decode are added up; frames that fail count for nothing.
    /// A total that no `Duration` can hold gives `None` as well.
    pub fn compute_duration(data: EncodedStream) -> (estimate: Option<Duration>)
        ensures
            match estimate {
                Some(total) => {
                    &&& has_frame(decoded_frames(data@.remaining()))
                    &&& span_nanos(total) == total_nanos(decoded_headers(data@.remaining()))
                },
                None => {
                    ||| !has_frame(decoded_frames(data@.remaining()))
                    ||| total_nanos(decoded_headers(data@.remaining())) > max_span_nanos()
                },
            },
    {
        if !is_mp3(&data) {
            return None;
        }
        let ghost all = decoded_headers(data@.remaining());
        let mut reader = data.headers();
        let mut total = Duration::new(0, 0);
        loop
            invariant
                all == decoded_headers(data@.remaining()),
                has_frame(decoded_frames(data@.remaining())),
                span_nanos(total) + total_nanos(reader@) == total_nanos(all),
            decreases reader@.len(),
        {
            match reader.next_outcome() {
                None => {
                    return Some(total);
                },
                Some(None) => {},
                Some(Some(frame)) => match add_spans(total, frame.duration) {
                    Some(sum) => {
                        total = sum;
                    },
                    None => {
                        return None;
                    },
                },
            }
        }
    }

    /// The sample rate of the frame that is being played.
    pub fn sample_rate(&self) -> (rate: u32)
        ensures
            rate == self@.head.frame.sample_rate,
    {
        self.head.frame().sample_rate
    }

    /// The elapsed playback time in milliseconds: the time of all frames
    /// entered so far.
    pub fn current_time(&self) -> (elapsed: u64)
        ensures
            elapsed == self@.elapsed,
    {
        self.current_time
    }

    /// Whether the stream has ended.
    pub fn is_exhausted(&self) -> (exhausted: bool)
        ensures
            exhausted == self@.exhausted(),
            self@.wf(),
    {
        self.head.is_exhausted()
    }

    /// Gives the next sample of the stream, converted to 16 bits, and moves
    /// on; `None` once the stream has ended.
    pub fn next(&mut self) -> (sample: Option<i16>)
        ensures
            sample == old(self)@.peek(),
            final(self)@ == old(self)@.after_next(),
            old(self)@.wf(),
            final(self)@.wf(),
    {
        next_sample(self)
    }
}

/// Gives the next sample of the decoder's stream and moves on: first to the
/// next channel, then to the next instant, then to the next frame that
/// decodes, whose time is added to the elapsed time.
fn next_sample(decoder: &mut Mp3Decoder) -> (sample: Option<i16>)
    ensures
        sample == old(decoder)@.peek(),
        final(decoder)@ == old(decoder)@.after_next(),
        old(decoder)@.wf(),
        final(decoder)@.wf(),
{
    let sample = match decoder.head.sample() {
        Some(sample) => sample,
        None => {
            return None;
        },
    };
    if decoder.head.advance() {
        return Some(sample);
    }
    let frame = next_frame(&mut decoder.reader);
    decoder.current_time = advance_clock(decoder.current_time, &frame);
    decoder.head = Playhead::new(frame);
    Some(sample)
}

/// Giving one more sample after `count` samples is giving `count + 1`.
pub proof fn lemma_after_step(stream: DecoderView, count: nat)
    ensures
        stream.after(count).after_next() == stream.after(count + 1),
    decreases count,
{
    if count == 0 {
        assert(stream.after(1) == stream.after_next().after(0));
    } else {
        lemma_after_step(stream.after_next(), (count - 1) as nat);
        assert(stream.after(count) == stream.after_next().after((count - 1) as nat));
        assert(stream.after(count + 1) == stream.after_next().after(count));
    }
}

/// What a decoder gives for some results is what it gives for the first
/// frame that decodes, followed by what it gives for the results after it.
pub proof fn lemma_stream_unfold(outcomes: Outcomes)
    ensures
        stream_samples(outcomes) == if next_good(outcomes).is_empty() {
            Seq::<i16>::empty()
        } else {
            next_good(outcomes).interleaved() + stream_samples(after_good(outcomes))
        },
        stream_millis(outcomes) == if next_good(outcomes).is_empty() {
            next_good(outcomes).millis()
        } else {
            next_good(outcomes).millis() + stream_millis(after_good(outcomes))
        },
    decreases outcomes.len(),
{
    if outcomes.len() == 0 {
    } else if outcomes[0] is Some {
    } else {
        lemma_stream_unfold(outcomes.drop_first());
    }
}

/// The stream gives its samples in order: the next sample is the first of
/// those ahead, taking it leaves the rest, and the stream has ended exactly
/// when none is ahead.
pub proof fn lemma_next_takes_first(stream: DecoderView)
    requires
        stream.wf(),
    ensures
        stream.peek() is None <==> stream.samples_ahead().len() == 0,
        stream.peek() is None ==> stream.after_next() == stream,
        stream.peek() matches Some(sample) ==> {
            &&& stream.samples_ahead()[0] == sample
            &&& stream.after_next().samples_ahead() == stream.samples_ahead().skip(1)
        },
{
    lemma_playhead_remaining(stream.head);
    if !stream.head.exhausted() {
        if stream.head.next_cursor() is None {
            lemma_stream_unfold(stream.upcoming);
            lemma_playhead_at_start(next_good(stream.upcoming));
        }
        assert(stream.after_next().samples_ahead() =~= stream.samples_ahead().skip(1));
    }
}

/// The elapsed time never runs backwards, changes only where a frame is
/// entered, and ends at a value that is fixed from the start: the total that
/// the stream will show once it has ended is the same before and after any
/// sample, and a stream that has ended shows it.
pub proof fn lemma_clock_runs_to_total(stream: DecoderView)
    ensures
        stream.after_next().total_millis() == stream.total_millis(),
        stream.after_next().elapsed >= stream.elapsed,
        stream.head.next_cursor() is Some ==> stream.after_next().elapsed == stream.elapsed,
        stream.exhausted() ==> stream.total_millis() == stream.elapsed,
{
    if !stream.head.exhausted() && stream.head.next_cursor() is None {
        lemma_stream_unfold(stream.upcoming);
    }
}

/// However many samples are taken, the elapsed time does not run backwards,
/// and the time that the stream will show once it has ended stays the same.
pub proof fn lemma_after_keeps_total(stream: DecoderView, count: nat)
    ensures
        stream.after(count).total_millis() == stream.total_millis(),
        stream.after(count).elapsed >= stream.elapsed,
    decreases count,
{
    if count > 0 {
        lemma_clock_runs_to_total(stream);
        lemma_after_keeps_total(stream.after_next(), (count - 1) as nat);
    }
}

/// The whole milliseconds of all frames that decode, each rounded down by
/// itself and then added up.
pub open spec fn sum_millis(outcomes: Outcomes) -> nat
    decreases outcomes.len(),
{
    if outcomes.len() == 0 {
        0
    } else {
        let first: nat = match outcomes[0] {
            Some(frame) => frame.millis(),
            None => 0,
        };
        first + sum_millis(outcomes.drop_first())
    }
}

/// The time that rounding every frame down to whole milliseconds leaves
/// out, added up over all frames that decode, in nanoseconds.
pub open spec fn sum_residue(outcomes: Outcomes) -> nat
    decreases outcomes.len(),
{
    if outcomes.len() == 0 {
        0
    } else {
        let first: nat = match outcomes[0] {
            Some(frame) => frame.nanos % (NANOS_PER_MILLI as nat),
            None => 0,
        };
        first + sum_residue(outcomes.drop_first())
    }
}

/// Whether every frame that decodes holds samples.
pub open spec fn all_sound(outcomes: Outcomes) -> bool {
    forall|i: int|
        0 <= i < outcomes.len() ==> ((#[trigger] outcomes[i]) matches Some(frame)
            ==> !frame.is_empty())
}

/// Where every decoded frame holds samples, the decoder enters them all.
proof fn lemma_sound_millis(outcomes: Outcomes)
    requires
        all_sound(outcomes),
    ensures
        stream_millis(outcomes) == sum_millis(outcomes),
    decreases outcomes.len(),
{
    if outcomes.len() > 0 {
        let rest = outcomes.drop_first();
        assert forall|i: int| 0 <= i < rest.len() implies ((#[trigger] rest[i]) matches Some(frame)
            ==> !frame.is_empty()) by {
            assert(rest[i] == outcomes[i + 1]);
        }
        lemma_sound_millis(rest);
        assert(outcomes[0] matches Some(frame) ==> !frame.is_empty());
    }
}

/// A newly opened decoder will end at the time of the frames it enters,
/// which for a stream whose decoded frames all hold samples is the time of
/// all of them.
pub proof fn lemma_opened_total(outcomes: Outcomes)
    ensures
        DecoderView::opened(outcomes).total_millis() == saturated(stream_millis(outcomes) as int),
        all_sound(outcomes) ==> stream_millis(outcomes) == sum_millis(outcomes),
{
    lemma_stream_unfold(outcomes);
    if all_sound(outcomes) {
        lemma_sound_millis(outcomes);
    }
}

/// The time of all frames is their whole milliseconds plus what rounding
/// left out. So the whole milliseconds of the total are those of the frames
/// added up exactly when less than one millisecond was left out in all.
pub proof fn lemma_rounding(outcomes: Outcomes)
    ensures
        total_nanos(outcomes) == sum_millis(outcomes) * NANOS_PER_MILLI + sum_residue(outcomes),
        sum_millis(outcomes) <= total_nanos(outcomes) / (NANOS_PER_MILLI as nat),
        total_nanos(outcomes) / (NANOS_PER_MILLI as nat) == sum_millis(outcomes) <==> sum_residue(
            outcomes,
        ) < NANOS_PER_MILLI,
    decreases outcomes.len(),
{
    if outcomes.len() > 0 {
        lemma_rounding(outcomes.drop_first());
        if let Some(frame) = outcomes[0] {
            let n = frame.nanos as int;
            assert(n == (n / 1_000_000) * 1_000_000 + n % 1_000_000) by (nonlinear_arith);
        }
    }
    let total = total_nanos(outcomes) as int;
    let millis = sum_millis(outcomes) as int;
    let residue = sum_residue(outcomes) as int;
    assert(millis <= total / 1_000_000 && (total / 1_000_000 == millis <==> residue < 1_000_000))
        by (nonlinear_arith)
        requires
            total == millis * 1_000_000 + residue,
            residue >= 0,
    ;
}

/// The elapsed time of the sample stream and the estimate agree.
///
/// Take a stream whose decoded frames all hold samples, whose header scan
/// adds up to the same time as its full decode, and in which rounding every
/// frame down to whole milliseconds leaves out less than one millisecond in
/// all. Then the elapsed time that the sample stream shows once it has
/// ended is the sum of its frames' durations, and equals the estimated
/// duration in whole milliseconds: the stream will end at that time, and
/// shows it whenever it has ended, however many samples were taken.
pub proof fn lemma_elapsed_matches_estimate(frames: Outcomes, headers: Outcomes)
    requires
        all_sound(frames),
        total_nanos(headers) == total_nanos(frames),
        sum_residue(frames) < NANOS_PER_MILLI,
        sum_millis(frames) <= u64::MAX,
    ensures
        DecoderView::opened(frames).total_millis() == sum_millis(frames),
        sum_millis(frames) == total_nanos(headers) / (NANOS_PER_MILLI as nat),
        forall|count: nat|
            (#[trigger] DecoderView::opened(frames).after(count)).exhausted() ==> DecoderView::opened(
                frames,
            ).after(count).elapsed == sum_millis(frames),
{
    lemma_opened_total(frames);
    lemma_rounding(frames);
    assert forall|count: nat|
        (#[trigger] DecoderView::opened(frames).after(count)).exhausted() implies DecoderView::opened(
        frames,
    ).after(count).elapsed == sum_millis(frames) by {
        lemma_after_keeps_total(DecoderView::opened(frames), count);
        lemma_clock_runs_to_total(DecoderView::opened(frames).after(count));
    }
}

} // verus!
