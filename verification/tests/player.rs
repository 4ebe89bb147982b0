use music_player::mp3::Mp3Decoder;
use music_player::player::iter_to_buffer;
use music_player::player::Action;
use music_player::player::Effect;
use music_player::player::Engine;
use music_player::player::EventLoop;
use music_player::player::Player;
use music_player::player::BUFFER_SIZE;
use music_player::source::EncodedStream;
use music_player::status::TrackStatus;
use std::time::Duration;

fn silent_track(frames: usize) -> Vec<u8> {
    let mut bytes = Vec::new();
    for _ in 0..frames {
        bytes.extend_from_slice(&[0xff, 0xfb, 0x90, 0x00]);
        bytes.resize(bytes.len() + 413, 0);
    }
    bytes.resize(bytes.len() + 16, 0);
    bytes
}

/// A track like `silent_track` at 48 kHz: 384 bytes and 24 ms per frame.
fn silent_track_48k(frames: usize) -> Vec<u8> {
    let mut bytes = Vec::new();
    for _ in 0..frames {
        bytes.extend_from_slice(&[0xff, 0xfb, 0x94, 0x00]);
        bytes.resize(bytes.len() + 380, 0);
    }
    bytes.resize(bytes.len() + 16, 0);
    bytes
}

fn loaded_path(action: Option<Action>) -> Option<String> {
    match action {
        Some(Action::Load(path)) => Some(path),
        _ => None,
    }
}

/// One turn of the worker without a sound device: what was written is
/// counted, and the file system is the closure `open`.
fn turn(
    player: &mut Player,
    engine: &mut Engine,
    open: &dyn Fn(&str) -> Option<Vec<u8>>,
) -> Effect {
    let (command, playing) = player.poll();
    let mut effect = engine.react(command, playing);
    if let Effect::Open(path) = &effect {
        let opened = open(path).map(EncodedStream::new);
        effect = engine.install(opened);
    }
    player.settle(&effect);
    effect
}

fn files(path: &str) -> Option<Vec<u8>> {
    match path {
        "a.mp3" => Some(silent_track(3)),
        "b.mp3" => Some(silent_track_48k(2)),
        "notes.txt" => Some(b"not a track".to_vec()),
        _ => None,
    }
}

#[test]
fn new_event_loop_can_be_made() {
    let _ = EventLoop::new();
}

#[test]
fn new_player_is_idle() {
    let mut player = Player::new(TrackStatus::new());
    assert!(!player.is_playing());
    assert!(player.status().stopped());
    let (command, playing) = player.poll();
    assert!(command.is_none());
    assert!(!playing);
}

#[test]
fn load_enqueues_and_sets_playing() {
    let mut player = Player::new(TrackStatus::new());
    player.load(String::from("a.mp3"));
    assert!(player.is_playing());
    let (command, playing) = player.poll();
    assert_eq!(loaded_path(command), Some(String::from("a.mp3")));
    assert!(playing);
    let (command, _) = player.poll();
    assert!(command.is_none());
}

#[test]
fn commands_leave_in_the_order_they_came() {
    let mut player = Player::new(TrackStatus::new());
    for name in ["a", "b", "c", "d"] {
        player.load(String::from(name));
    }
    let mut seen = Vec::new();
    loop {
        match loaded_path(player.poll().0) {
            Some(path) => seen.push(path),
            None => break,
        }
    }
    assert_eq!(seen, vec!["a", "b", "c", "d"]);
}

#[test]
fn many_commands_pass_through_the_queue() {
    let mut player = Player::new(TrackStatus::new());
    for number in 0..100 {
        player.load(format!("{}", number));
    }
    for number in 0..100 {
        assert_eq!(loaded_path(player.poll().0), Some(format!("{}", number)));
    }
    assert!(player.poll().0.is_none());
}

#[test]
fn batch_holds_at_most_a_thousand_pairs() {
    let mut decoder = match Mp3Decoder::new(EncodedStream::new(silent_track(3))) {
        Ok(decoder) => decoder,
        Err(_) => panic!("the track was not recognised"),
    };
    let mut buffer = vec![[7i16, 7i16]; 3];
    let mut sizes = Vec::new();
    loop {
        let size = iter_to_buffer(&mut decoder, &mut buffer);
        assert_eq!(size, buffer.len());
        assert!(buffer.iter().all(|pair| *pair == [0, 0]));
        sizes.push(size);
        if size == 0 {
            break;
        }
    }
    assert_eq!(BUFFER_SIZE, 1000);
    assert_eq!(sizes, vec![1000, 1000, 1000, 456, 0]);
    assert!(decoder.is_exhausted());
}

#[test]
fn load_configures_the_device_and_starts_playback() {
    let mut player = Player::new(TrackStatus::new());
    let mut engine = Engine::new();
    assert!(!engine.is_loaded());
    player.load(String::from("a.mp3"));
    match turn(&mut player, &mut engine, &files) {
        Effect::Configure { rate, channels } => {
            assert_eq!(rate, 44100);
            assert_eq!(channels, 2);
        }
        _ => panic!("the track was not loaded"),
    }
    assert!(engine.is_loaded());
    assert!(!player.status().stopped());
    assert!(player.is_playing());
}

#[test]
fn track_plays_to_its_end_and_stops() {
    let mut player = Player::new(TrackStatus::new());
    let mut engine = Engine::new();
    player.load(String::from("a.mp3"));
    turn(&mut player, &mut engine, &files);
    let mut written = Vec::new();
    let mut times = Vec::new();
    loop {
        match turn(&mut player, &mut engine, &files) {
            Effect::Write { batch, elapsed } => {
                assert!(!player.status().stopped());
                assert_eq!(player.status().current_time(), elapsed);
                written.push(batch.len());
                times.push(elapsed);
            }
            Effect::Finished => break,
            _ => panic!("the engine did something else"),
        }
    }
    assert_eq!(written, vec![1000, 1000, 1000, 456]);
    assert_eq!(times, vec![26, 52, 78, 78]);
    assert!(player.status().stopped());
    assert!(!player.is_playing());
    assert!(!engine.is_loaded());
    assert_eq!(player.status().current_time(), 78);
    assert!(matches!(turn(&mut player, &mut engine, &files), Effect::Idle));
}

#[test]
fn second_load_replaces_the_first() {
    let mut player = Player::new(TrackStatus::new());
    let mut engine = Engine::new();
    player.load(String::from("a.mp3"));
    player.load(String::from("b.mp3"));
    assert!(matches!(
        turn(&mut player, &mut engine, &files),
        Effect::Configure { rate: 44100, channels: 2 }
    ));
    assert!(matches!(
        turn(&mut player, &mut engine, &files),
        Effect::Configure { rate: 48000, channels: 2 }
    ));
    assert!(!player.status().stopped());
    assert!(player.is_playing());
    // What plays now is the second track: two frames of 24 ms.
    let mut pairs = 0usize;
    loop {
        match turn(&mut player, &mut engine, &files) {
            Effect::Write { batch, .. } => pairs += batch.len(),
            Effect::Finished => break,
            _ => panic!("the engine did something else"),
        }
    }
    assert_eq!(pairs, 2 * 1152);
    assert_eq!(player.status().current_time(), 48);
    assert!(player.status().stopped());
}

#[test]
fn load_after_a_failed_load_still_plays() {
    let mut player = Player::new(TrackStatus::new());
    let mut engine = Engine::new();
    player.load(String::from("missing.mp3"));
    player.load(String::from("b.mp3"));
    assert!(matches!(turn(&mut player, &mut engine, &files), Effect::CannotOpen));
    assert!(player.status().stopped());
    assert!(matches!(
        turn(&mut player, &mut engine, &files),
        Effect::Configure { rate: 48000, channels: 2 }
    ));
    assert!(!player.status().stopped());
    assert!(matches!(turn(&mut player, &mut engine, &files), Effect::Write { .. }));
}

#[test]
fn file_that_cannot_be_opened_is_reported() {
    let mut player = Player::new(TrackStatus::new());
    let mut engine = Engine::new();
    player.load(String::from("missing.mp3"));
    assert!(matches!(turn(&mut player, &mut engine, &files), Effect::CannotOpen));
    assert!(!engine.is_loaded());
    assert!(player.status().stopped());
    // The worker goes on: with nothing to play, playback ends.
    assert!(matches!(turn(&mut player, &mut engine, &files), Effect::Finished));
    assert!(!player.is_playing());
    assert!(matches!(turn(&mut player, &mut engine, &files), Effect::Idle));
}

#[test]
fn file_in_another_format_is_handed_back() {
    let mut player = Player::new(TrackStatus::new());
    let mut engine = Engine::new();
    player.load(String::from("notes.txt"));
    match turn(&mut player, &mut engine, &files) {
        Effect::WrongFormat(stream) => {
            assert_eq!(stream.position(), 0);
            assert_eq!(stream.len(), 11);
        }
        _ => panic!("the text was taken for a track"),
    }
    assert!(!engine.is_loaded());
    assert!(player.status().stopped());
}

#[test]
fn failed_load_releases_the_track_that_played() {
    let mut player = Player::new(TrackStatus::new());
    let mut engine = Engine::new();
    player.load(String::from("a.mp3"));
    turn(&mut player, &mut engine, &files);
    assert!(engine.is_loaded());
    player.load(String::from("notes.txt"));
    assert!(matches!(turn(&mut player, &mut engine, &files), Effect::WrongFormat(_)));
    assert!(!engine.is_loaded());
    assert!(player.status().stopped());
}

#[test]
fn stop_releases_the_track() {
    let mut engine = Engine::new();
    assert!(matches!(
        engine.install(Some(EncodedStream::new(silent_track(3)))),
        Effect::Configure { .. }
    ));
    assert!(matches!(engine.react(None, true), Effect::Write { .. }));
    assert!(matches!(engine.react(Some(Action::Stop), true), Effect::Finished));
    assert!(!engine.is_loaded());
    assert!(matches!(engine.react(None, false), Effect::Idle));
}

#[test]
fn stop_ends_playback_in_the_status() {
    let mut player = Player::new(TrackStatus::new());
    player.settle(&Effect::Configure { rate: 44100, channels: 2 });
    assert!(!player.status().stopped());
    assert!(player.is_playing());
    player.settle(&Effect::Finished);
    assert!(player.status().stopped());
    assert!(!player.is_playing());
}

#[test]
fn engine_that_is_not_playing_does_nothing() {
    let mut engine = Engine::new();
    engine.install(Some(EncodedStream::new(silent_track(1))));
    assert!(matches!(engine.react(None, false), Effect::Idle));
    assert!(engine.is_loaded());
}

#[test]
fn load_command_asks_for_the_file() {
    let mut engine = Engine::new();
    match engine.react(Some(Action::Load(String::from("a.mp3"))), false) {
        Effect::Open(path) => assert_eq!(path, "a.mp3"),
        _ => panic!("the engine did not ask for the file"),
    }
    assert!(!engine.is_loaded());
}

#[test]
fn time_is_not_reset_by_a_load() {
    let mut player = Player::new(TrackStatus::new());
    let mut engine = Engine::new();
    player.load(String::from("a.mp3"));
    while !matches!(turn(&mut player, &mut engine, &files), Effect::Finished) {}
    assert_eq!(player.status().current_time(), 78);
    player.load(String::from("b.mp3"));
    turn(&mut player, &mut engine, &files);
    // The time of the last track stays until the new one has been written.
    assert_eq!(player.status().current_time(), 78);
    turn(&mut player, &mut engine, &files);
    assert_eq!(player.status().current_time(), 24);
}

#[test]
fn durations_of_two_tracks_are_both_kept() {
    let mut player = Player::new(TrackStatus::new());
    let first = Mp3Decoder::compute_duration(EncodedStream::new(silent_track(3)));
    let second = Mp3Decoder::compute_duration(EncodedStream::new(silent_track_48k(2)));
    player.note_duration(String::from("b.mp3"), second);
    player.note_duration(String::from("a.mp3"), first);
    player.note_duration(String::from("notes.txt"), None);
    assert_eq!(player.status().duration_of(&String::from("a.mp3")), Some(78));
    assert_eq!(player.status().duration_of(&String::from("b.mp3")), Some(48));
    assert_eq!(player.status().duration_of(&String::from("notes.txt")), None);
    assert_eq!(second, Some(Duration::from_millis(48)));
}

#[test]
fn play_loads_the_selected_track() {
    let mut player = Player::new(TrackStatus::new());
    assert!(player.play(Some(String::from("a.mp3"))));
    assert!(player.is_playing());
    assert_eq!(loaded_path(player.poll().0), Some(String::from("a.mp3")));
}

#[test]
fn play_without_selection_does_nothing() {
    let mut player = Player::new(TrackStatus::new());
    assert!(!player.play(None));
    assert!(!player.is_playing());
    assert!(player.poll().0.is_none());
}
