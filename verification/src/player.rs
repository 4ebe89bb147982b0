//! The playback engine: the commands that the host gives, the queue that
//! carries them to the playback worker, and what the worker does with them.
//!
//! The worker's decisions are functions from the engine's state and an event
//! to the next state and an effect. The program around the library carries
//! the effects out (it opens files and writes to the sound device) and
//! reports back what came of them.

use crate::mp3::has_frame;
use crate::mp3::lemma_after_keeps_total;
use crate::mp3::lemma_after_step;
use crate::mp3::lemma_next_takes_first;
use crate::mp3::next_good;
use crate::mp3::DecoderView;
use crate::mp3::Mp3Decoder;
use crate::source::decoded_frames;
use crate::source::EncodedStream;
use crate::source::EncodedStreamView;
use crate::status::StatusView;
use crate::status::TrackStatus;
use crossbeam::queue::SegQueue;
use std::time::Duration;
use vstd::prelude::*;

verus! {

/// The number of stereo pairs that the engine writes to the sound device at
/// a time, at most.
pub const BUFFER_SIZE: usize = 1000;

/// The number of channels that the sound device is opened with.
pub const OUTPUT_CHANNELS: u8 = 2;

/// A command to the playback engine.
pub enum Action {
    /// Load the track at this path and play it.
    Load(String),
    /// Stop playback and release the current track. The engine obeys this
    /// command; no operation of [`Player`] gives it yet.
    Stop,
}

/// A command as mathematical values.
pub ghost enum ActionView {
    /// Load the track at this path and play it.
    Load(Seq<char>),
    /// Stop playback and release the current track.
    Stop,
}

impl View for Action {
    type V = ActionView;

    open spec fn view(&self) -> ActionView {
        match self {
            Action::Load(path) => ActionView::Load(path@),
            Action::Stop => ActionView::Stop,
        }
    }
}

/// `crossbeam::queue::SegQueue`, a queue that hands its items out in the
/// order in which they came. The verifier does not look inside it.
#[verifier::external_type_specification]
#[verifier::external_body]
#[verifier::reject_recursive_types(T)]
pub struct ExSegQueue<T>(SegQueue<T>);

/// The commands that a queue holds, the one that leaves next first.
pub uninterp spec fn queued(queue: SegQueue<Action>) -> Seq<ActionView>;

/// `SegQueue::new` makes an empty queue.
#[verifier::external_body]
fn queue_new() -> (queue: SegQueue<Action>)
    ensures
        queued(queue) == Seq::<ActionView>::empty(),
{
    SegQueue::new()
}

/// `SegQueue::push` adds the command at the back of the queue.
#[verifier::external_body]
fn queue_push(queue: &mut SegQueue<Action>, action: Action)
    ensures
        queued(*final(queue)) == queued(*old(queue)).push(action@),
{
    queue.push(action)
}

/// `SegQueue::try_pop` takes the command at the front of the queue, and
/// gives `None` where the queue is empty. The queue is held exclusively
/// here, so it is empty exactly when it is seen to be.
#[verifier::external_body]
fn queue_try_pop(queue: &mut SegQueue<Action>) -> (action: Option<Action>)
    ensures
        match action {
            Some(front) => {
                &&& queued(*old(queue)).len() > 0
                &&& front@ == queued(*old(queue))[0]
                &&& queued(*final(queue)) == queued(*old(queue)).drop_first()
            },
            None => queued(*old(queue)).len() == 0 && queued(*final(queue)) == queued(*old(queue)),
        },
{
    queue.try_pop()
}

/// The queue of commands and the flag that says whether the engine is to
/// play: what the host and the playback worker share.
pub struct EventLoop {
    queue: SegQueue<Action>,
    playing: bool,
}

/// An event loop as mathematical values.
pub ghost struct EventLoopView {
    /// The commands that wait, the oldest first.
    pub queue: Seq<ActionView>,
    /// Whether the engine is to play.
    pub playing: bool,
}

impl View for EventLoop {
    type V = EventLoopView;

    closed spec fn view(&self) -> EventLoopView {
        EventLoopView { queue: queued(self.queue), playing: self.playing }
    }
}

impl EventLoop {
    /// An event loop without commands that is not playing.
    pub fn new() -> (event_loop: EventLoop)
        ensures
            event_loop@ == (EventLoopView { queue: Seq::empty(), playing: false }),
    {
        EventLoop { queue: queue_new(), playing: false }
    }
}

/// The number of samples that one batch takes from a stream with these
/// samples ahead: two for every pair, up to the size of the buffer, or all
/// that are left.
pub open spec fn batch_len(ahead: Seq<i16>) -> nat {
    if ahead.len() < 2 * BUFFER_SIZE {
        ahead.len()
    } else {
        (2 * BUFFER_SIZE) as nat
    }
}

/// The pairs of one batch: samples that follow one another in the stream are
/// paired, the earlier one first. A last sample without a partner is left
/// out.
pub open spec fn batch_of(ahead: Seq<i16>) -> Seq<(i16, i16)> {
    Seq::new(batch_len(ahead) / 2, |k: int| (ahead[2 * k], ahead[2 * k + 1]))
}

/// The pairs that a buffer holds.
pub open spec fn pairs_of(buffer: Seq<[i16; 2]>) -> Seq<(i16, i16)> {
    Seq::new(buffer.len(), |k: int| (buffer[k][0], buffer[k][1]))
}

/// Fills the buffer with the next batch of the stream: takes samples two at
/// a time and stores each pair, until the buffer holds [`BUFFER_SIZE`] pairs
/// or the stream has ended. Returns the number of pairs stored.
pub fn iter_to_buffer(source: &mut Mp3Decoder, buffer: &mut Vec<[i16; 2]>) -> (count: usize)
    ensures
        count == final(buffer)@.len(),
        pairs_of(final(buffer)@) == batch_of(old(source)@.samples_ahead()),
        final(source)@ == old(source)@.after(batch_len(old(source)@.samples_ahead())),
        final(source)@.samples_ahead() == old(source)@.samples_ahead().skip(
            batch_len(old(source)@.samples_ahead()) as int,
        ),
        old(source)@.wf(),
        final(source)@.wf(),
{
    let ghost start = source@;
    let ghost ahead = source@.samples_ahead();
    buffer.clear();
    if source.is_exhausted() {
        proof {
            lemma_next_takes_first(source@);
            assert(pairs_of(buffer@) =~= batch_of(ahead));
            assert(ahead.skip(0) =~= ahead);
        }
        return 0;
    }
    let mut index: usize = 0;
    while index < BUFFER_SIZE
        invariant
            index <= BUFFER_SIZE,
            start == old(source)@,
            ahead == start.samples_ahead(),
            start.wf(),
            source@.wf(),
            buffer@.len() == index,
            2 * index <= ahead.len(),
            source@ == start.after((2 * index) as nat),
            source@.samples_ahead() == ahead.skip(2 * index),
            forall|k: int|
                0 <= k < index ==> (#[trigger] buffer@[k])[0] == ahead[2 * k] && buffer@[k][1]
                    == ahead[2 * k + 1],
        decreases BUFFER_SIZE - index,
    {
        proof {
            lemma_next_takes_first(source@);
            lemma_after_step(start, (2 * index) as nat);
        }
        let first: i16 = match source.next() {
            Some(sample) => sample,
            None => {
                assert(pairs_of(buffer@) =~= batch_of(ahead));
                assert(ahead.skip(2 * index) =~= ahead.skip(batch_len(ahead) as int));
                return index;
            },
        };
        proof {
            assert(ahead.skip(2 * index).skip(1) =~= ahead.skip(2 * index + 1));
            lemma_next_takes_first(source@);
            lemma_after_step(start, (2 * index + 1) as nat);
        }
        let second: i16 = match source.next() {
            Some(sample) => sample,
            None => {
                assert(pairs_of(buffer@) =~= batch_of(ahead));
                return index;
            },
        };
        proof {
            assert(ahead.skip(2 * index + 1).skip(1) =~= ahead.skip(2 * index + 2));
        }
        buffer.push([first, second]);
        index += 1;
    }
    assert(pairs_of(buffer@) =~= batch_of(ahead));
    index
}

/// What the playback worker is to do after the engine has decided.
pub enum Effect {
    /// Nothing: there was no command, and the engine is not playing.
    Idle,
    /// Open the track at this path and hand the result to
    /// [`Engine::install`].
    Open(String),
    /// A track was loaded: open the sound device anew for this sample rate
    /// and this number of channels. Playback counts as started once that is
    /// done.
    Configure {
        /// Samples per second.
        rate: u32,
        /// The number of channels.
        channels: u8,
    },
    /// Write this batch of stereo pairs to the sound device.
    Write {
        /// The pairs, in playing order.
        batch: Vec<[i16; 2]>,
        /// The playback time of the track after this batch, in milliseconds.
        elapsed: u64,
    },
    /// Playback has ended: the track has been played to its end or was
    /// stopped, and has been released.
    Finished,
    /// The track could not be opened. No track is loaded.
    CannotOpen,
    /// The track is not in the expected format. No track is loaded, and the
    /// stream comes back as it was handed in.
    WrongFormat(EncodedStream),
}

/// An effect as mathematical values.
pub ghost enum EffectView {
    /// Nothing to do.
    Idle,
    /// Open the track at this path.
    Open(Seq<char>),
    /// Open the sound device anew.
    Configure {
        /// Samples per second.
        rate: u32,
        /// The number of channels.
        channels: u8,
    },
    /// Write a batch to the sound device.
    Write {
        /// The pairs, in playing order.
        batch: Seq<(i16, i16)>,
        /// The playback time after this batch, in milliseconds.
        elapsed: u64,
    },
    /// Playback has ended.
    Finished,
    /// The track could not be opened.
    CannotOpen,
    /// The track is not in the expected format.
    WrongFormat(EncodedStreamView),
}

impl View for Effect {
    type V = EffectView;

    open spec fn view(&self) -> EffectView {
        match self {
            Effect::Idle => EffectView::Idle,
            Effect::Open(path) => EffectView::Open(path@),
            Effect::Configure { rate, channels } => EffectView::Configure {
                rate: *rate,
                channels: *channels,
            },
            Effect::Write { batch, elapsed } => EffectView::Write {
                batch: pairs_of(batch@),
                elapsed: *elapsed,
            },
            Effect::Finished => EffectView::Finished,
            Effect::CannotOpen => EffectView::CannotOpen,
            Effect::WrongFormat(stream) => EffectView::WrongFormat(stream@),
        }
    }
}

/// The command that the worker took from the queue, as mathematical values.
pub open spec fn command_view(command: Option<Action>) -> Option<ActionView> {
    match command {
        Some(action) => Some(action@),
        None => None,
    }
}

/// What came of opening a track, as mathematical values.
pub open spec fn opened_view(opened: Option<EncodedStream>) -> Option<EncodedStreamView> {
    match opened {
        Some(stream) => Some(stream@),
        None => None,
    }
}

/// The playback engine as mathematical values: the sample stream of the
/// track that is loaded, if one is.
pub ghost struct EngineView {
    /// The sample stream of the loaded track.
    pub source: Option<DecoderView>,
}

impl EngineView {
    /// The engine without a track.
    pub open spec fn idle() -> EngineView {
        EngineView { source: None }
    }

    /// What the engine decides for one turn of the worker, given the command
    /// that the worker took from the queue and the playing flag.
    ///
    /// A load command asks for the track to be opened. A stop command
    /// releases the loaded track and ends playback. Without a command, an
    /// engine that is to play takes the next batch from its track: the batch
    /// is to be written if it holds a pair; otherwise the track has ended,
    /// is released, and playback ends. An engine that is not to play does
    /// nothing.
    pub open spec fn react(self, command: Option<ActionView>, playing: bool) -> (
        EngineView,
        EffectView,
    ) {
        match command {
            Some(ActionView::Load(path)) => (self, EffectView::Open(path)),
            Some(ActionView::Stop) => (EngineView::idle(), EffectView::Finished),
            None => if !playing {
                (self, EffectView::Idle)
            } else {
                match self.source {
                    None => (EngineView::idle(), EffectView::Finished),
                    Some(stream) => {
                        let ahead = stream.samples_ahead();
                        let after = stream.after(batch_len(ahead));
                        if batch_of(ahead).len() == 0 {
                            (EngineView::idle(), EffectView::Finished)
                        } else {
                            (
                                EngineView { source: Some(after) },
                                EffectView::Write { batch: batch_of(ahead), elapsed: after.elapsed },
                            )
                        }
                    },
                }
            },
        }
    }

    /// What the engine does with the result of opening a track. A stream in
    /// the expected format becomes the loaded track, in place of any earlier
    /// one, and the sound device is to be opened for its sample rate and two
    /// channels. A track that could not be opened, or a stream in another
    /// format, leaves the engine without a track.
    pub open spec fn install(self, opened: Option<EncodedStreamView>) -> (EngineView, EffectView) {
        match opened {
            None => (EngineView::idle(), EffectView::CannotOpen),
            Some(stream) => {
                let outcomes = decoded_frames(stream.remaining());
                if has_frame(outcomes) {
                    (
                        EngineView { source: Some(DecoderView::opened(outcomes)) },
                        EffectView::Configure {
                            rate: next_good(outcomes).sample_rate,
                            channels: OUTPUT_CHANNELS,
                        },
                    )
                } else {
                    (EngineView::idle(), EffectView::WrongFormat(stream))
                }
            },
        }
    }
}

/// The playback engine: it owns the decoder of the track that is loaded. At
/// most one track is loaded at a time.
pub struct Engine {
    source: Option<Mp3Decoder>,
}

impl View for Engine {
    type V = EngineView;

    closed spec fn view(&self) -> EngineView {
        EngineView {
            source: match self.source {
                Some(decoder) => Some(decoder@),
                None => None,
            },
        }
    }
}

impl Engine {
    /// An engine without a track.
    pub fn new() -> (engine: Engine)
        ensures
            engine@ == EngineView::idle(),
    {
        Engine { source: None }
    }

    /// Whether a track is loaded.
    pub fn is_loaded(&self) -> (loaded: bool)
        ensures
            loaded == self@.source.is_some(),
    {
        self.source.is_some()
    }

    /// Decides what the worker does in this turn, given the command that it
    /// took from the queue, if there was one, and the playing flag.
    pub fn react(&mut self, command: Option<Action>, playing: bool) -> (effect: Effect)
        ensures
            (final(self)@, effect@) == old(self)@.react(command_view(command), playing),
    {
        match command {
            Some(Action::Load(path)) => Effect::Open(path),
            Some(Action::Stop) => {
                self.source = None;
                Effect::Finished
            },
            None => {
                if !playing {
                    return Effect::Idle;
                }
                let mut taken: Option<Mp3Decoder> = None;
                std::mem::swap(&mut taken, &mut self.source);
                match taken {
                    None => Effect::Finished,
                    Some(mut source) => {
                        let mut batch: Vec<[i16; 2]> = Vec::with_capacity(BUFFER_SIZE);
                        let size: usize = iter_to_buffer(&mut source, &mut batch);
                        if size > 0 {
                            let elapsed: u64 = source.current_time();
                            self.source = Some(source);
                            Effect::Write { batch, elapsed }
                        } else {
                            Effect::Finished
                        }
                    },
                }
            },
        }
    }

    /// Takes the result of opening a track: the stream of the file, or
    /// `None` where the file could not be opened.
    pub fn install(&mut self, opened: Option<EncodedStream>) -> (effect: Effect)
        ensures
            (final(self)@, effect@) == old(self)@.install(opened_view(opened)),
    {
        match opened {
            None => {
                self.source = None;
                Effect::CannotOpen
            },
            Some(stream) => match Mp3Decoder::new(stream) {
                Ok(decoder) => {
                    let rate: u32 = decoder.sample_rate();
                    self.source = Some(decoder);
                    Effect::Configure { rate, channels: OUTPUT_CHANNELS }
                },
                Err(stream) => {
                    self.source = None;
                    Effect::WrongFormat(stream)
                },
            },
        }
    }
}

/// A player as mathematical values.
pub ghost struct PlayerView {
    /// The shared status.
    pub status: StatusView,
    /// The commands that wait, the oldest first.
    pub queue: Seq<ActionView>,
    /// Whether the engine is to play.
    pub playing: bool,
}

impl PlayerView {
    /// The player after the host has asked for a track: the load command
    /// waits behind all earlier commands, and the engine is to play.
    pub open spec fn load(self, path: Seq<char>) -> PlayerView {
        PlayerView { queue: self.queue.push(ActionView::Load(path)), playing: true, ..self }
    }

    /// The command that the worker takes next, `None` where none waits.
    pub open spec fn front(self) -> Option<ActionView> {
        if self.queue.len() > 0 {
            Some(self.queue[0])
        } else {
            None
        }
    }

    /// The player after the worker has taken the next command.
    pub open spec fn polled(self) -> PlayerView {
        if self.queue.len() > 0 {
            PlayerView { queue: self.queue.drop_first(), ..self }
        } else {
            self
        }
    }

    /// The player after the worker has carried out an effect.
    ///
    /// Once the sound device is open for a new track, playback no longer
    /// counts as stopped, and the engine is to play: a command that ended
    /// playback before this track was loaded does not hold it back. A batch
    /// that was written moves the playback time. When playback has ended,
    /// it counts as stopped and the engine is no longer to play. A track
    /// that could not be loaded leaves playback stopped.
    pub open spec fn settle(self, effect: EffectView) -> PlayerView {
        match effect {
            EffectView::Idle => self,
            EffectView::Open(_) => self,
            EffectView::Configure { .. } => PlayerView {
                status: StatusView { stopped: false, ..self.status },
                playing: true,
                ..self
            },
            EffectView::Write { elapsed, .. } => PlayerView {
                status: StatusView { current_time: elapsed, ..self.status },
                ..self
            },
            EffectView::Finished => PlayerView {
                status: StatusView { stopped: true, ..self.status },
                playing: false,
                ..self
            },
            EffectView::CannotOpen | EffectView::WrongFormat(_) => PlayerView {
                status: StatusView { stopped: true, ..self.status },
                ..self
            },
        }
    }
}

/// The host's side of the playback engine: the shared status and the event
/// loop.
pub struct Player {
    app_state: TrackStatus,
    event_loop: EventLoop,
}

impl View for Player {
    type V = PlayerView;

    closed spec fn view(&self) -> PlayerView {
        PlayerView {
            status: self.app_state@,
            queue: self.event_loop@.queue,
            playing: self.event_loop@.playing,
        }
    }
}

impl Player {
    /// A player around the given status, without commands and not playing.
    pub fn new(app_state: TrackStatus) -> (player: Player)
        ensures
            player@ == (PlayerView { status: app_state@, queue: Seq::empty(), playing: false }),
    {
        Player { app_state, event_loop: EventLoop::new() }
    }

    /// Asks the engine to load the track at `path` and to play it. This is
    /// also the way to play again after playback has ended.
    pub fn load(&mut self, path: String)
        ensures
            final(self)@ == old(self)@.load(path@),
    {
        self.emit(Action::Load(path));
        self.set_playing(true);
    }

    /// Plays the selected track, if one is selected: asks the engine to load
    /// it and returns `true`. Returns `false`, and does nothing, where no
    /// track is selected.
    pub fn play(&mut self, selected: Option<String>) -> (started: bool)
        ensures
            started == selected.is_some(),
            final(self)@ == match selected {
                Some(path) => old(self)@.load(path@),
                None => old(self)@,
            },
    {
        match selected {
            Some(path) => {
                self.load(path);
                true
            },
            None => false,
        }
    }

    /// Puts a command at the back of the queue.
    fn emit(&mut self, action: Action)
        ensures
            final(self)@ == (PlayerView { queue: old(self)@.queue.push(action@), ..old(self)@ }),
    {
        queue_push(&mut self.event_loop.queue, action);
    }

    /// Sets the flag that says whether the engine is to play.
    fn set_playing(&mut self, playing: bool)
        ensures
            final(self)@ == (PlayerView { playing, ..old(self)@ }),
    {
        self.event_loop.playing = playing;
    }

    /// Whether the engine is to play.
    pub fn is_playing(&self) -> (playing: bool)
        ensures
            playing == self@.playing,
    {
        self.event_loop.playing
    }

    /// The shared status.
    pub fn status(&self) -> (status: &TrackStatus)
        ensures
            status@ == self@.status,
    {
        &self.app_state
    }

    /// Takes the report of a duration worker into the shared status.
    pub fn note_duration(&mut self, path: String, estimate: Option<Duration>)
        ensures
            final(self)@ == (PlayerView {
                status: old(self)@.status.note(path@, estimate),
                ..old(self)@
            }),
    {
        self.app_state.note_duration(path, estimate);
    }

    /// The worker's first step in every turn: takes the oldest command from
    /// the queue, if one waits, without blocking, and reads the playing
    /// flag.
    pub fn poll(&mut self) -> (taken: (Option<Action>, bool))
        ensures
            command_view(taken.0) == old(self)@.front(),
            taken.1 == old(self)@.playing,
            final(self)@ == old(self)@.polled(),
    {
        let command = queue_try_pop(&mut self.event_loop.queue);
        (command, self.event_loop.playing)
    }

    /// The worker's last step in every turn: takes note of the effect that
    /// it has carried out. The worker calls this after the effect, so the
    /// status shows playback as started only when the sound device has been
    /// opened for the new track.
    pub fn settle(&mut self, effect: &Effect)
        ensures
            final(self)@ == old(self)@.settle(effect@),
    {
        match effect {
            Effect::Idle => {},
            Effect::Open(_) => {},
            Effect::Configure { .. } => {
                self.app_state.set_stopped(false);
                self.set_playing(true);
            },
            Effect::Write { elapsed, .. } => {
                self.app_state.set_current_time(*elapsed);
            },
            Effect::Finished => {
                self.app_state.set_stopped(true);
                self.set_playing(false);
            },
            Effect::CannotOpen | Effect::WrongFormat(_) => {
                self.app_state.set_stopped(true);
            },
        }
    }
}

/// One turn of the playback worker: it takes the oldest command, lets the
/// engine decide, carries the effect out, and takes note of it. Where the
/// engine asks for a track to be opened, `opened` is what opening it gives,
/// and the turn goes on with the engine taking that result.
pub open spec fn turn(player: PlayerView, engine: EngineView, opened: Option<EncodedStreamView>) -> (
    PlayerView,
    EngineView,
) {
    let (decided, effect) = engine.react(player.front(), player.playing);
    match effect {
        EffectView::Open(_) => {
            let (installed, outcome) = decided.install(opened);
            (player.polled().settle(outcome), installed)
        },
        _ => (player.polled().settle(effect), decided),
    }
}

/// Several turns of the playback worker, one after another. For each turn
/// in order, `opened` holds what opening a track gives if the engine asks
/// for one in that turn.
pub open spec fn turns(
    player: PlayerView,
    engine: EngineView,
    opened: Seq<Option<EncodedStreamView>>,
) -> (PlayerView, EngineView)
    decreases opened.len(),
{
    if opened.len() == 0 {
        (player, engine)
    } else {
        let (next_player, next_engine) = turn(player, engine, opened[0]);
        turns(next_player, next_engine, opened.drop_first())
    }
}

/// While commands wait, every turn of the worker takes exactly one of them,
/// the oldest first, whatever comes of it.
pub proof fn lemma_turns_take_commands(
    player: PlayerView,
    engine: EngineView,
    opened: Seq<Option<EncodedStreamView>>,
)
    requires
        opened.len() <= player.queue.len(),
    ensures
        turns(player, engine, opened).0.queue == player.queue.skip(opened.len() as int),
    decreases opened.len(),
{
    if opened.len() == 0 {
        assert(player.queue.skip(0) =~= player.queue);
    } else {
        let (next_player, next_engine) = turn(player, engine, opened[0]);
        assert(next_player.queue == player.queue.drop_first());
        lemma_turns_take_commands(next_player, next_engine, opened.drop_first());
        assert(player.queue.drop_first().skip(opened.len() - 1) =~= player.queue.skip(
            opened.len() as int,
        ));
    }
}

/// The track that was asked for last is the one that plays.
///
/// Let the host ask for a first track and at once for a second one, and let
/// the second be in the expected format. Any number of commands may wait
/// already. Let the worker take all commands that waited and the first load,
/// whatever comes of them: `earlier` holds what opening a track gives in
/// each of these turns. After the turn in which the worker takes the second
/// load, the engine holds the second track, newly opened, whatever it held
/// before; playback does not count as stopped, the engine is to play, and no
/// command waits.
pub proof fn lemma_last_load_wins(
    player: PlayerView,
    engine: EngineView,
    first: Seq<char>,
    second: Seq<char>,
    earlier: Seq<Option<EncodedStreamView>>,
    second_stream: EncodedStreamView,
)
    requires
        earlier.len() == player.queue.len() + 1,
        has_frame(decoded_frames(second_stream.remaining())),
    ensures
        ({
            let asked = player.load(first).load(second);
            let (before, held) = turns(asked, engine, earlier);
            let (after, loaded) = turn(before, held, Some(second_stream));
            &&& loaded.source == Some(DecoderView::opened(decoded_frames(second_stream.remaining())))
            &&& !after.status.stopped
            &&& after.playing
            &&& after.queue.len() == 0
        }),
{
    let asked = player.load(first).load(second);
    lemma_turns_take_commands(asked, engine, earlier);
    let (before, held) = turns(asked, engine, earlier);
    assert(before.queue =~= seq![ActionView::Load(second)]);
    assert(before.front() == Some(ActionView::Load(second)));
    assert(before.polled().queue =~= Seq::<ActionView>::empty());
}

/// Playback ends only at the end of the track: without a command, an engine
/// that holds a track ends playback only where the track has no pair of
/// samples left, and every batch that it writes holds at least one pair and
/// at most as many as the buffer takes.
pub proof fn lemma_playback_ends_at_end(engine: EngineView, stream: DecoderView)
    requires
        engine.source == Some(stream),
    ensures
        match engine.react(None, true).1 {
            EffectView::Finished => stream.samples_ahead().len() < 2 && engine.react(None, true).0
                == EngineView::idle(),
            EffectView::Write { batch, elapsed } => {
                &&& 0 < batch.len() <= BUFFER_SIZE
                &&& 2 * batch.len() <= stream.samples_ahead().len()
                &&& engine.react(None, true).0.source is Some
            },
            _ => false,
        },
{
}

/// While a track plays, the playback time that the engine reports with a
/// batch is never earlier than the time of the track before the batch.
pub proof fn lemma_time_advances(engine: EngineView, stream: DecoderView)
    requires
        engine.source == Some(stream),
    ensures
        engine.react(None, true).1 matches EffectView::Write { elapsed, .. } ==> elapsed
            >= stream.elapsed,
{
    lemma_after_keeps_total(stream, batch_len(stream.samples_ahead()));
}

/// Playback counts as stopped whenever no track is loaded, and as started
/// as soon as one has been loaded.
///
/// If playback counts as stopped where the engine holds no track, the same
/// is true after any turn of the worker. And a turn in which a load command
/// is taken and the track opens in the expected format leaves the engine
/// with that track and playback not stopped.
pub proof fn lemma_stopped_without_track(
    player: PlayerView,
    engine: EngineView,
    opened: Option<EncodedStreamView>,
)
    requires
        engine.source is None ==> player.status.stopped,
    ensures
        turn(player, engine, opened).1.source is None ==> turn(player, engine, opened).0.status.stopped,
        player.front() matches Some(ActionView::Load(_)) ==> (opened matches Some(stream)
            ==> has_frame(decoded_frames(stream.remaining())) ==> {
            &&& turn(player, engine, opened).1.source == Some(
                DecoderView::opened(decoded_frames(stream.remaining())),
            )
            &&& !turn(player, engine, opened).0.status.stopped
        }),
{
}

} // verus!
