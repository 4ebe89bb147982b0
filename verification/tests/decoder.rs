use music_player::mp3::is_mp3;
use music_player::mp3::next_frame;
use music_player::mp3::first_frame;
use music_player::mp3::Mp3Decoder;
use music_player::source::EncodedStream;
use music_player::to_millis;
use std::io::Cursor;
use std::time::Duration;

/// A track of silent frames: each is a layer III header for 128 kbit/s
/// stereo at 44.1 kHz followed by zeros, 417 bytes and 1152 samples per
/// channel in all. The decoder wants a few bytes after the last frame.
fn silent_track(frames: usize) -> Vec<u8> {
    let mut bytes = Vec::new();
    for _ in 0..frames {
        bytes.extend_from_slice(&[0xff, 0xfb, 0x90, 0x00]);
        bytes.resize(bytes.len() + 413, 0);
    }
    bytes.resize(bytes.len() + 16, 0);
    bytes
}

fn drain(decoder: &mut Mp3Decoder) -> Vec<i16> {
    let mut samples = Vec::new();
    while let Some(sample) = decoder.next() {
        samples.push(sample);
    }
    samples
}

#[test]
fn three_frames_of_26_ms_last_78_ms() {
    let estimate = Mp3Decoder::compute_duration(EncodedStream::new(silent_track(3)));
    assert_eq!(estimate, Some(Duration::new(0, 78_367_344)));
    assert_eq!(to_millis(estimate.unwrap()), 78);
}

#[test]
fn elapsed_time_reaches_78_ms_at_exhaustion() {
    let mut decoder = match Mp3Decoder::new(EncodedStream::new(silent_track(3))) {
        Ok(decoder) => decoder,
        Err(_) => panic!("the track was not recognised"),
    };
    assert_eq!(decoder.current_time(), 26);
    let samples = drain(&mut decoder);
    assert_eq!(samples.len(), 3 * 1152 * 2);
    assert!(decoder.is_exhausted());
    assert_eq!(decoder.current_time(), 78);
    assert_eq!(decoder.next(), None);
    assert_eq!(decoder.current_time(), 78);
}

#[test]
fn elapsed_time_matches_the_estimate() {
    for frames in 1..8 {
        let estimate = Mp3Decoder::compute_duration(EncodedStream::new(silent_track(frames)));
        let mut decoder = match Mp3Decoder::new(EncodedStream::new(silent_track(frames))) {
            Ok(decoder) => decoder,
            Err(_) => panic!("the track was not recognised"),
        };
        drain(&mut decoder);
        assert_eq!(decoder.current_time(), 26 * frames as u64);
        assert_eq!(to_millis(estimate.unwrap()), decoder.current_time());
    }
}

#[test]
fn elapsed_time_changes_once_per_frame() {
    let mut decoder = match Mp3Decoder::new(EncodedStream::new(silent_track(2))) {
        Ok(decoder) => decoder,
        Err(_) => panic!("the track was not recognised"),
    };
    let mut changes = Vec::new();
    let mut shown = decoder.current_time();
    let mut taken = 0usize;
    while decoder.next().is_some() {
        taken += 1;
        if decoder.current_time() != shown {
            shown = decoder.current_time();
            changes.push((taken, shown));
        }
    }
    assert_eq!(changes, vec![(2304, 52)]);
    assert_eq!(taken, 4608);
}

#[test]
fn decoder_reports_the_sample_rate_of_its_frame() {
    let decoder = match Mp3Decoder::new(EncodedStream::new(silent_track(1))) {
        Ok(decoder) => decoder,
        Err(_) => panic!("the track was not recognised"),
    };
    assert_eq!(decoder.sample_rate(), 44100);
}

#[test]
fn silent_frames_decode_to_silence() {
    let mut decoder = match Mp3Decoder::new(EncodedStream::new(silent_track(1))) {
        Ok(decoder) => decoder,
        Err(_) => panic!("the track was not recognised"),
    };
    let samples = drain(&mut decoder);
    assert_eq!(samples.len(), 2304);
    assert!(samples.iter().all(|sample| *sample == 0));
}

#[test]
fn text_is_not_a_track() {
    let bytes = b"this is a plain text file, not an audio track at all".to_vec();
    assert!(!is_mp3(&EncodedStream::new(bytes.clone())));
    assert_eq!(Mp3Decoder::compute_duration(EncodedStream::new(bytes)), None);
}

#[test]
fn empty_stream_is_not_a_track() {
    assert!(!is_mp3(&EncodedStream::new(Vec::new())));
    assert!(Mp3Decoder::new(EncodedStream::new(Vec::new())).is_err());
    assert_eq!(Mp3Decoder::compute_duration(EncodedStream::new(Vec::new())), None);
}

#[test]
fn rejected_stream_comes_back_at_its_offset() {
    let bytes = b"RIFF....WAVEfmt this is some other container".to_vec();
    let mut stream = EncodedStream::new(bytes.clone());
    assert!(stream.seek(12));
    match Mp3Decoder::new(stream) {
        Ok(_) => panic!("the stream was taken for a track"),
        Err(back) => {
            assert_eq!(back.position(), 12);
            assert_eq!(back.len(), bytes.len());
        }
    }
}

#[test]
fn probing_leaves_the_stream_where_it_is() {
    let mut stream = EncodedStream::new(silent_track(2));
    assert!(stream.seek(417));
    assert!(is_mp3(&stream));
    assert_eq!(stream.position(), 417);
    // From the second frame on, one frame is left.
    assert_eq!(
        Mp3Decoder::compute_duration(stream).map(to_millis),
        Some(26)
    );
}

#[test]
fn seek_beyond_the_end_is_refused() {
    let mut stream = EncodedStream::new(vec![1, 2, 3]);
    assert_eq!(stream.position(), 0);
    assert!(stream.seek(3));
    assert_eq!(stream.position(), 3);
    assert!(!stream.seek(4));
    assert_eq!(stream.position(), 3);
    assert!(stream.seek(1));
    assert_eq!(stream.position(), 1);
    assert_eq!(stream.len(), 3);
}

#[test]
fn leading_garbage_is_passed_over() {
    let mut bytes = vec![0x55u8; 100];
    bytes.extend_from_slice(&silent_track(3));
    let stream = EncodedStream::new(bytes);
    assert!(is_mp3(&stream));
    let mut reader = stream.frames();
    let frame = next_frame(&mut reader);
    assert!(!frame.is_empty());
    assert!(frame.is_rectangular());
    assert_eq!(frame.channel_count(), 2);
    assert_eq!(frame.sample_count(), 1152);
    assert_eq!(frame.sample_rate, 44100);
    assert_eq!(frame.bit_rate, 128000);
    assert_eq!(to_millis(frame.duration), 26);
}

#[test]
fn next_frame_gives_the_empty_frame_at_the_end() {
    let stream = EncodedStream::new(silent_track(1));
    let mut reader = stream.frames();
    assert!(!next_frame(&mut reader).is_empty());
    let end = next_frame(&mut reader);
    assert!(end.is_empty());
    assert_eq!(end.channel_count(), 0);
    assert_eq!(end.sample_rate, 44100);
    assert_eq!(end.duration, Duration::from_secs(0));
    assert!(next_frame(&mut reader).is_empty());
    assert!(first_frame(&mut reader).is_none());
}

#[test]
fn header_scan_gives_frames_without_samples() {
    let stream = EncodedStream::new(silent_track(2));
    let mut reader = stream.headers();
    let frame = match first_frame(&mut reader) {
        Some(frame) => frame,
        None => panic!("no header was read"),
    };
    assert!(frame.is_empty());
    assert_eq!(frame.sample_rate, 44100);
    assert_eq!(frame.bit_rate, 128000);
    assert_eq!(frame.duration, Duration::new(0, 26_122_448));
}

#[test]
fn damaged_frame_in_the_middle_is_skipped() {
    let mut bytes = silent_track(5);
    // Break the header of the second frame.
    bytes[417] = 0x00;
    bytes[418] = 0x00;
    let estimate = Mp3Decoder::compute_duration(EncodedStream::new(bytes.clone()));
    let mut decoder = match Mp3Decoder::new(EncodedStream::new(bytes)) {
        Ok(decoder) => decoder,
        Err(_) => panic!("the track was not recognised"),
    };
    let samples = drain(&mut decoder);
    assert_eq!(samples.len(), 4 * 2304);
    assert_eq!(decoder.current_time(), 104);
    assert_eq!(estimate.map(to_millis), Some(104));
}

#[test]
fn reader_gives_results_in_order_and_then_nothing() {
    let stream = EncodedStream::new(silent_track(1));
    let mut reader = stream.frames();
    match reader.next_outcome() {
        Some(Some(frame)) => assert_eq!(frame.sample_count(), 1152),
        _ => panic!("the frame did not decode"),
    }
    // The zeros after the frame are no frame.
    assert!(matches!(reader.next_outcome(), Some(None)));
    for _ in 0..10 {
        assert!(reader.next_outcome().is_none());
    }
}

#[test]
fn reader_of_an_empty_stream_stays_at_the_end() {
    let stream = EncodedStream::new(Vec::new());
    let mut reader = stream.frames();
    for _ in 0..10 {
        assert!(reader.next_outcome().is_none());
        assert!(first_frame(&mut reader).is_none());
        assert!(next_frame(&mut reader).is_empty());
    }
    let mut headers = stream.headers();
    for _ in 0..10 {
        assert!(headers.next_outcome().is_none());
    }
}

#[test]
fn reader_of_a_long_track_stays_at_the_end() {
    // A hundred frames are more than the decoder holds in its buffer at a
    // time. Left to itself, the decoder goes on after the end with what its
    // buffer still holds, and gives frames that were played already.
    let bytes = silent_track(100);
    assert!(bytes.len() > 0x8000);
    let mut raw = match simplemad::Decoder::decode(Cursor::new(bytes.clone())) {
        Ok(raw) => raw,
        Err(_) => panic!("the decoder could not be set up"),
    };
    let mut decoded = 0usize;
    while let Some(outcome) = raw.next() {
        if outcome.is_ok() {
            decoded += 1;
        }
    }
    assert_eq!(decoded, 100);
    let mut stale = 0usize;
    for _ in 0..20 {
        if let Some(Ok(_)) = raw.next() {
            stale += 1;
        }
    }
    assert!(stale > 0);

    let stream = EncodedStream::new(bytes);
    let mut reader = stream.frames();
    let mut frames = 0usize;
    while !next_frame(&mut reader).is_empty() {
        frames += 1;
    }
    assert_eq!(frames, 100);
    for _ in 0..20 {
        assert!(reader.next_outcome().is_none());
        assert!(first_frame(&mut reader).is_none());
        assert!(next_frame(&mut reader).is_empty());
    }
}

#[test]
fn long_track_is_played_once() {
    let mut decoder = match Mp3Decoder::new(EncodedStream::new(silent_track(100))) {
        Ok(decoder) => decoder,
        Err(_) => panic!("the track was not recognised"),
    };
    let samples = drain(&mut decoder);
    assert_eq!(samples.len(), 100 * 2304);
    assert_eq!(decoder.current_time(), 2600);
    for _ in 0..10 {
        assert_eq!(decoder.next(), None);
    }
    assert_eq!(decoder.current_time(), 2600);
}

#[test]
fn rounding_every_frame_down_loses_time_on_a_long_track() {
    // Each frame lasts 26.122448 ms. The sample stream counts 26 ms for
    // each; the estimate adds the full durations and rounds once.
    let estimate = Mp3Decoder::compute_duration(EncodedStream::new(silent_track(100)));
    assert_eq!(estimate, Some(Duration::new(2, 612_244_800)));
    assert_eq!(estimate.map(to_millis), Some(2612));
    let mut decoder = match Mp3Decoder::new(EncodedStream::new(silent_track(100))) {
        Ok(decoder) => decoder,
        Err(_) => panic!("the track was not recognised"),
    };
    drain(&mut decoder);
    assert_eq!(decoder.current_time(), 2600);
}

#[test]
fn long_stretch_without_a_frame_is_read_through() {
    let bytes = vec![0x55u8; 16 * 1024 * 1024];
    let stream = EncodedStream::new(bytes);
    assert!(!is_mp3(&stream));
    let mut reader = stream.frames();
    assert!(next_frame(&mut reader).is_empty());
    assert!(next_frame(&mut reader).is_empty());
    assert_eq!(Mp3Decoder::compute_duration(stream), None);
}
