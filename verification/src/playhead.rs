//! The frame that is being played, together with the position of the sample
//! that is played next.

use crate::frame::convert_sample;
use crate::frame::lemma_cursor_advance;
use crate::frame::lemma_cursor_offset;
use crate::frame::quantize;
use crate::frame::Frame;
use crate::frame::FrameView;
use crate::frame::SampleCursor;
use vstd::prelude::*;

verus! {

/// A playhead as mathematical values: the frame and the position in it.
pub ghost struct PlayheadView {
    /// The frame that is being played.
    pub frame: FrameView,
    /// The position of the next sample.
    pub cursor: SampleCursor,
}

impl PlayheadView {
    /// The playhead at the start of a frame.
    pub open spec fn at_start(frame: FrameView) -> PlayheadView {
        PlayheadView { frame, cursor: SampleCursor::origin() }
    }

    /// What holds of every playhead: the frame's channels are equally long,
    /// and the position names one of its samples, or is the start where the
    /// frame has none.
    pub open spec fn wf(self) -> bool {
        &&& self.frame.rectangular()
        &&& self.frame.channels() <= usize::MAX
        &&& self.frame.length() <= usize::MAX
        &&& if self.frame.is_empty() {
            self.cursor == SampleCursor::origin()
        } else {
            self.cursor.within(self.frame)
        }
    }

    /// Whether nothing is left to play: the frame holds no samples.
    pub open spec fn exhausted(self) -> bool {
        self.frame.is_empty()
    }

    /// The sample under the position, converted to 16 bits; `None` where the
    /// frame holds no samples.
    pub open spec fn current(self) -> Option<i16> {
        if self.frame.is_empty() {
            None
        } else {
            Some(quantize(self.frame.samples[self.cursor.channel as int][self.cursor.index as int]))
        }
    }

    /// The position after the current sample, `None` where the frame holds no
    /// samples or the current sample is its last.
    pub open spec fn next_cursor(self) -> Option<SampleCursor> {
        if self.frame.is_empty() {
            None
        } else {
            self.cursor.spec_advance(self.frame)
        }
    }

    /// The playhead moved past the current sample, where the frame has one
    /// more; the same playhead otherwise.
    pub open spec fn advanced(self) -> PlayheadView {
        match self.next_cursor() {
            Some(cursor) => PlayheadView { frame: self.frame, cursor },
            None => self,
        }
    }

    /// The number of samples of the frame that were played already.
    pub open spec fn played(self) -> int {
        if self.frame.is_empty() {
            0
        } else {
            self.cursor.offset(self.frame)
        }
    }

    /// The samples of the frame that are still to be played, in order.
    pub open spec fn remaining(self) -> Seq<i16> {
        self.frame.interleaved().skip(self.played())
    }
}

/// The samples still to be played start with the current one, and advancing
/// the playhead drops exactly that one. A playhead that cannot advance has
/// at most its current sample left.
pub proof fn lemma_playhead_remaining(head: PlayheadView)
    requires
        head.wf(),
    ensures
        head.exhausted() <==> head.remaining().len() == 0,
        !head.exhausted() ==> head.current() == Some(head.remaining()[0]),
        head.next_cursor() is Some ==> head.advanced().wf() && head.advanced().remaining()
            == head.remaining().skip(1),
        !head.exhausted() && head.next_cursor() is None ==> head.remaining().len() == 1,
{
    if head.frame.is_empty() {
        assert(head.frame.total() == 0) by (nonlinear_arith)
            requires
                head.frame.total() == head.frame.channels() * head.frame.length(),
                head.frame.length() == 0,
        ;
    } else {
        lemma_cursor_offset(head.cursor, head.frame);
        lemma_cursor_advance(head.cursor, head.frame);
        if head.next_cursor() is Some {
            assert(head.advanced().remaining() =~= head.remaining().skip(1));
        }
    }
}

/// At the start of a frame all of its samples are still to be played.
pub proof fn lemma_playhead_at_start(frame: FrameView)
    ensures
        PlayheadView::at_start(frame).played() == 0,
        PlayheadView::at_start(frame).remaining() == frame.interleaved(),
{
    let channels = frame.channels() as int;
    assert(0 * channels + 0 == 0) by (nonlinear_arith);
    assert(PlayheadView::at_start(frame).remaining() =~= frame.interleaved());
}

/// The frame that is being played and the position of the sample that is
/// played next.
pub struct Playhead {
    frame: Frame,
    cursor: SampleCursor,
}

impl View for Playhead {
    type V = PlayheadView;

    closed spec fn view(&self) -> PlayheadView {
        PlayheadView { frame: self.frame@, cursor: self.cursor }
    }
}

impl Playhead {
    #[verifier::type_invariant]
    spec fn inv(self) -> bool {
        self@.wf()
    }

    /// Puts the playhead at the start of a frame whose channels are equally
    /// long ([`Frame::is_rectangular`] makes that test).
    pub fn new(frame: Frame) -> (head: Playhead)
        requires
            frame@.rectangular(),
        ensures
            head@ == PlayheadView::at_start(frame@),
            head@.wf(),
    {
        let cursor = SampleCursor::start();
        assert(PlayheadView { frame: frame@, cursor }.wf()) by {
            assert(frame@.channels() == frame.samples.len());
            if frame.samples.len() > 0 {
                assert(frame@.length() == frame.samples[0].len());
            }
        }
        Playhead { frame, cursor }
    }

    /// Whether nothing is left to play.
    pub fn is_exhausted(&self) -> (exhausted: bool)
        ensures
            exhausted == self@.exhausted(),
            self@.wf(),
    {
        proof {
            use_type_invariant(self);
        }
        self.frame.is_empty()
    }

    /// The frame that is being played.
    pub fn frame(&self) -> (frame: &Frame)
        ensures
            frame@ == self@.frame,
            self@.wf(),
    {
        proof {
            use_type_invariant(self);
        }
        &self.frame
    }

    /// The position of the sample that is played next.
    pub fn cursor(&self) -> (cursor: SampleCursor)
        ensures
            cursor == self@.cursor,
            self@.wf(),
    {
        proof {
            use_type_invariant(self);
        }
        self.cursor
    }

    /// The sample under the position, converted to 16 bits; `None` where
    /// nothing is left to play.
    pub fn sample(&self) -> (pcm: Option<i16>)
        ensures
            pcm == self@.current(),
            self@.wf(),
    {
        proof {
            use_type_invariant(self);
        }
        if self.frame.is_empty() {
            None
        } else {
            let raw: i32 = self.frame.sample(self.cursor.channel, self.cursor.index);
            Some(convert_sample(raw))
        }
    }

    /// Moves past the current sample and returns `true`, or returns `false`
    /// and leaves the playhead as it is where the frame has no further
    /// sample.
    pub fn advance(&mut self) -> (moved: bool)
        ensures
            moved == old(self)@.next_cursor().is_some(),
            final(self)@ == old(self)@.advanced(),
            final(self)@.wf(),
    {
        proof {
            use_type_invariant(&*self);
        }
        if self.frame.is_empty() {
            return false;
        }
        match self.cursor.advance(&self.frame) {
            Some(cursor) => {
                self.cursor = cursor;
                true
            },
            None => false,
        }
    }
}

} // verus!
