//! Encoded streams and the frame decoder that reads them.
//!
//! Decoding is done by `simplemad`, which the verifier does not read. What a
//! stream decodes to is therefore given a name, and the functions that call
//! the decoder state their results over those names. Everything after the
//! call is verified against them.
//!
//! The decoder says when it has reached the end of the bytes, but it does not
//! stay there: called again, it goes on with what is left in its buffer. So
//! the reader remembers the end itself, and never calls the decoder again
//! once it has been reached.

use crate::frame::Frame;
use crate::frame::FrameView;
use std::io::Cursor;
use vstd::prelude::*;

verus! {

/// An encoded stream: the bytes of a track and the offset that it is read
/// from. The offset never lies beyond the end of the bytes.
pub struct EncodedStream {
    bytes: Vec<u8>,
    offset: usize,
}

/// An encoded stream as mathematical values.
pub ghost struct EncodedStreamView {
    /// All bytes of the stream.
    pub bytes: Seq<u8>,
    /// The offset of the next byte to be read.
    pub offset: nat,
}

impl EncodedStreamView {
    /// The bytes from the offset on: what a reader of the stream gets.
    pub open spec fn remaining(self) -> Seq<u8> {
        self.bytes.skip(self.offset as int)
    }
}

impl View for EncodedStream {
    type V = EncodedStreamView;

    closed spec fn view(&self) -> EncodedStreamView {
        EncodedStreamView { bytes: self.bytes@, offset: self.offset as nat }
    }
}

impl EncodedStream {
    #[verifier::type_invariant]
    spec fn inv(self) -> bool {
        self.offset <= self.bytes@.len()
    }

    /// A stream over the given bytes, positioned at their start.
    pub fn new(bytes: Vec<u8>) -> (stream: EncodedStream)
        ensures
            stream@ == (EncodedStreamView { bytes: bytes@, offset: 0 }),
    {
        EncodedStream { bytes, offset: 0 }
    }

    /// The number of bytes in the stream, read or not.
    pub fn len(&self) -> (len: usize)
        ensures
            len == self@.bytes.len(),
            self@.offset <= len,
    {
        proof {
            use_type_invariant(self);
        }
        self.bytes.len()
    }

    /// The offset of the next byte to be read.
    pub fn position(&self) -> (offset: usize)
        ensures
            offset == self@.offset,
            offset <= self@.bytes.len(),
    {
        proof {
            use_type_invariant(self);
        }
        self.offset
    }

    /// Moves the stream to `offset` and returns `true`, or returns `false`
    /// and leaves the stream where it is, if `offset` lies beyond its end.
    pub fn seek(&mut self, offset: usize) -> (moved: bool)
        ensures
            moved == (offset <= old(self)@.bytes.len()),
            final(self)@.bytes == old(self)@.bytes,
            final(self)@.offset == if moved { offset as nat } else { old(self)@.offset },
    {
        if offset <= self.bytes.len() {
            self.offset = offset;
            true
        } else {
            false
        }
    }

    /// A reader over the frames of this stream, decoded in full. The stream
    /// stays as it is: the reader works on a copy of its bytes.
    pub fn frames(&self) -> (reader: FrameReader)
        ensures
            reader@ == decoded_frames(self@.remaining()),
    {
        proof {
            use_type_invariant(self);
        }
        let bytes = self.bytes.clone();
        assert(bytes@ =~= self.bytes@);
        FrameReader { decoder: open_decoder(bytes, self.offset), ended: false }
    }

    /// A reader over the frames of this stream that decodes their headers
    /// only: the frames it gives hold no samples.
    pub fn headers(self) -> (reader: FrameReader)
        ensures
            reader@ == decoded_headers(self@.remaining()),
    {
        proof {
            use_type_invariant(&self);
        }
        FrameReader { decoder: open_header_decoder(self.bytes, self.offset), ended: false }
    }

    /// A reader over the frames of this stream, decoded in full, that takes
    /// the stream's bytes for its own.
    pub fn into_frames(self) -> (reader: FrameReader)
        ensures
            reader@ == decoded_frames(self@.remaining()),
    {
        proof {
            use_type_invariant(&self);
        }
        FrameReader { decoder: open_decoder(self.bytes, self.offset), ended: false }
    }
}

/// What decoding a stream gives, frame by frame: `Some` for each frame that
/// decoded, `None` for each that failed.
pub type Outcomes = Seq<Option<FrameView>>;

/// What `simplemad` gives for these bytes when it decodes them in full: the
/// results of its iterator in order, up to the first time that it reports
/// the end of the bytes. Where the decoder cannot be set up, that is the
/// empty sequence.
pub uninterp spec fn decoded_frames(bytes: Seq<u8>) -> Seq<Option<FrameView>>;

/// What `simplemad` gives for these bytes when it decodes the frame headers
/// only, up to the first time that it reports the end of the bytes. Where
/// the decoder cannot be set up, that is the empty sequence.
pub uninterp spec fn decoded_headers(bytes: Seq<u8>) -> Seq<Option<FrameView>>;

/// The results that a decoder gives from here on, in order, up to the next
/// time that it reports the end of the bytes. Nothing is said of what it
/// gives after that.
pub uninterp spec fn pending(decoder: RawDecoder) -> Seq<Option<FrameView>>;

/// A `simplemad` decoder over the bytes of a stream held in memory, or
/// nothing where the decoder could not be set up.
#[verifier::external_body]
pub struct RawDecoder {
    inner: Option<simplemad::Decoder<Cursor<Vec<u8>>>>,
}

/// Calls `simplemad::Decoder::decode` on the bytes from `offset` on. The
/// decoder reads from memory, so what it gives up to the end of the bytes
/// depends on those bytes alone; the contract names it.
#[verifier::external_body]
fn open_decoder(bytes: Vec<u8>, offset: usize) -> (decoder: RawDecoder)
    requires
        offset <= bytes@.len(),
    ensures
        pending(decoder) == decoded_frames(bytes@.skip(offset as int)),
{
    let mut cursor = Cursor::new(bytes);
    cursor.set_position(offset as u64);
    RawDecoder { inner: simplemad::Decoder::decode(cursor).ok() }
}

/// Calls `simplemad::Decoder::decode_headers` on the bytes from `offset` on.
/// The decoder reads from memory, so what it gives up to the end of the
/// bytes depends on those bytes alone; the contract names it.
#[verifier::external_body]
fn open_header_decoder(bytes: Vec<u8>, offset: usize) -> (decoder: RawDecoder)
    requires
        offset <= bytes@.len(),
    ensures
        pending(decoder) == decoded_headers(bytes@.skip(offset as int)),
{
    let mut cursor = Cursor::new(bytes);
    cursor.set_position(offset as u64);
    RawDecoder { inner: simplemad::Decoder::decode_headers(cursor).ok() }
}

/// Calls `next` on the `simplemad` decoder, which decodes one more frame:
/// `Some(None)` for a frame that failed to decode, `Some(Some(frame))` for
/// one that decoded, `None` where the decoder reports the end of the bytes.
///
/// A result is the first of the pending results, and the rest stay pending;
/// the end is reported exactly when no result is pending. Of the decoder
/// after it has reported the end the contract says nothing: it keeps the
/// bytes of its last buffer and may give more results, and frames among
/// them, when it is called again. A decoded frame has as many samples in one
/// channel as in another, since the decoder cuts every channel to the
/// frame's length.
#[verifier::external_body]
fn decode_next(decoder: &mut RawDecoder) -> (outcome: Option<Option<Frame>>)
    ensures
        match outcome {
            None => pending(*old(decoder)).len() == 0,
            Some(decoded) => {
                &&& pending(*old(decoder)).len() > 0
                &&& pending(*final(decoder)) == pending(*old(decoder)).drop_first()
                &&& match decoded {
                    Some(frame) => pending(*old(decoder))[0] == Some(frame@) && frame@.rectangular(),
                    None => pending(*old(decoder))[0] is None,
                }
            },
        },
{
    let decoded = match decoder.inner.as_mut() {
        Some(decoder) => decoder.next(),
        None => None,
    };
    match decoded {
        None => None,
        Some(Err(_)) => Some(None),
        Some(Ok(frame)) => Some(Some(Frame {
            sample_rate: frame.sample_rate,
            bit_rate: frame.bit_rate,
            duration: frame.duration,
            samples: frame.samples.iter().map(|channel| channel.iter().map(|sample| sample.to_raw()).collect()).collect(),
        })),
    }
}

/// A reader over the frames of a stream. It gives the results of the
/// decoder up to the end of the stream's bytes, and remembers that the end
/// was reached: after that it gives nothing more, and the decoder is not
/// called again.
pub struct FrameReader {
    decoder: RawDecoder,
    ended: bool,
}

impl View for FrameReader {
    type V = Seq<Option<FrameView>>;

    /// The results that the reader has yet to give, in the order in which it
    /// gives them: none once it has reached the end.
    closed spec fn view(&self) -> Seq<Option<FrameView>> {
        if self.ended {
            Seq::empty()
        } else {
            pending(self.decoder)
        }
    }
}

impl FrameReader {
    /// Gives the next result: `Some(Some(frame))` for a frame that decoded,
    /// `Some(None)` for one that failed to decode, and `None` at the end of
    /// the stream's bytes and ever after.
    pub fn next_outcome(&mut self) -> (outcome: Option<Option<Frame>>)
        ensures
            match outcome {
                None => old(self)@.len() == 0 && final(self)@.len() == 0,
                Some(decoded) => {
                    &&& old(self)@.len() > 0
                    &&& final(self)@ == old(self)@.drop_first()
                    &&& match decoded {
                        Some(frame) => old(self)@[0] == Some(frame@) && frame@.rectangular(),
                        None => old(self)@[0] is None,
                    }
                },
            },
    {
        if self.ended {
            return None;
        }
        let outcome = decode_next(&mut self.decoder);
        if outcome.is_none() {
            self.ended = true;
        }
        outcome
    }
}

} // verus!
