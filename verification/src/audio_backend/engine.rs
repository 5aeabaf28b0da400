use crate::audio_backend::channel::{
    bounded_chunk_channel, chunk_channel_capacity, try_send, TrySendOutcome,
};
use crate::audio_backend::chunk::{
    duration_to_position, position_to_duration, spec_duration_to_position,
    spec_position_to_duration, SamplesChunk, CHUNK_SIZE,
};
use crate::audio_backend::receiver_source::{ReceiverSource, SourceState};
use crate::audio_backend::{
    AudioBackendCommand, AudioCommand, AudioInfo, AudioUpdate, LoadInfo, PlayingUpdate,
    SeekCommand, SeekDirection, CHUNK_BUFFER_SIZE,
};
use crate::song::{Song, SongID};
use crossbeam::channel::Sender;
use vstd::prelude::*;

verus! {

/// Number of chunks that the engine keeps of one song at most: the positions of all
/// of them fit into `usize`.
pub const MAX_CHUNKS: usize = usize::MAX / CHUNK_SIZE;

/// The chunks of a song that have come in so far.
pub struct AudioSong {
    pub song_id: SongID,
    pub chunks: Vec<SamplesChunk>,
    /// Sample rate and channels, known from the first chunk on.
    pub sample_rate_and_channels: Option<(u32, u16)>,
}

/// A song's chunks as a sequence.
pub struct AudioSongView {
    pub song_id: SongID,
    pub chunks: Seq<SamplesChunk>,
    pub sample_rate_and_channels: Option<(u32, u16)>,
}

impl View for AudioSong {
    type V = AudioSongView;

    open spec fn view(&self) -> AudioSongView {
        AudioSongView {
            song_id: self.song_id,
            chunks: self.chunks@,
            sample_rate_and_channels: self.sample_rate_and_channels,
        }
    }
}

impl AudioSongView {
    /// A song of which nothing has come in yet.
    pub open spec fn fresh(song_id: SongID) -> AudioSongView {
        AudioSongView { song_id, chunks: Seq::empty(), sample_rate_and_channels: None }
    }

    /// All chunks can be played, their positions fit, and a known format is a real one.
    pub open spec fn wf(self) -> bool {
        &&& forall|i: int| 0 <= i < self.chunks.len() ==> (#[trigger] self.chunks[i]).wf()
        &&& self.chunks.len() <= MAX_CHUNKS
        &&& (self.sample_rate_and_channels matches Some((sample_rate, channels)) ==> sample_rate
            > 0 && channels > 0)
    }

    /// The song with one more chunk. The first chunk tells the format.
    pub open spec fn with_chunk(self, chunk: SamplesChunk) -> AudioSongView {
        AudioSongView {
            song_id: self.song_id,
            chunks: self.chunks.push(chunk),
            sample_rate_and_channels: match self.sample_rate_and_channels {
                Some(known) => Some(known),
                None => Some((chunk.sample_rate, chunk.channels)),
            },
        }
    }

    /// The song has its last chunk.
    pub open spec fn complete(self) -> bool {
        self.chunks.len() > 0 && self.chunks.last().last_chunk
    }
}

impl AudioSong {
    pub fn new(song_id: SongID) -> (audio_song: AudioSong)
        ensures
            audio_song@ == AudioSongView::fresh(song_id),
    {
        AudioSong { song_id, chunks: Vec::new(), sample_rate_and_channels: None }
    }
}

/// The song that plays, and how much of it went to the source.
pub struct CurrentSongState {
    /// Number of interleaved samples already handed to the source.
    pub play_position: usize,
    pub audio_song: AudioSong,
}

pub struct CurrentSongView {
    pub play_position: usize,
    pub audio_song: AudioSongView,
}

impl View for CurrentSongState {
    type V = CurrentSongView;

    open spec fn view(&self) -> CurrentSongView {
        CurrentSongView { play_position: self.play_position, audio_song: self.audio_song@ }
    }
}

impl CurrentSongView {
    /// Index of the chunk that goes to the source next: one past the number of whole
    /// chunks that the position covers.
    pub open spec fn next_chunk_index(self) -> int {
        self.play_position as int / CHUNK_SIZE as int + 1
    }
}

/// Which of the engine's two songs.
#[derive(Clone, Copy, Debug, PartialEq, Eq, Structural)]
pub enum SongSlot {
    Current,
    Next,
}

/// What the engine asks of its surroundings.
pub enum BackendAction {
    /// Start a loader for the song.
    SpawnLoader(Song),
    /// Let the output pull samples.
    Play,
    /// Silence the output.
    Pause,
    /// Set the output's gain, in hundredths of full scale.
    SetVolume(u8),
    /// Tell the controller something.
    Tell(AudioInfo),
    /// A channel that the engine needs is gone: stop the engine.
    Shutdown,
}

/// Why the engine stopped handing chunks to the source.
#[derive(Clone, Copy, Debug, PartialEq, Eq, Structural)]
pub enum PacingEnd {
    /// No chunk is waiting to go out.
    Idle,
    /// The source has no room for another chunk.
    Blocked,
    /// The source is gone.
    Disconnected,
}

/// The engine's songs and volume.
pub struct BackendState {
    pub current_song: Option<CurrentSongView>,
    pub next_song: Option<(Song, AudioSongView)>,
    pub volume: u8,
}

impl BackendState {
    pub open spec fn wf(self) -> bool {
        &&& self.current_song matches Some(current) ==> current.audio_song.wf()
        &&& self.next_song matches Some(next) ==> next.1.wf()
    }

    /// Number of songs that the engine holds.
    pub open spec fn songs_left(self) -> nat {
        (if self.current_song is Some {
            1nat
        } else {
            0nat
        }) + (if self.next_song is Some {
            1nat
        } else {
            0nat
        })
    }

    /// Number of chunks of the current song from the next one to go out on.
    pub open spec fn chunks_ahead(self) -> nat {
        match self.current_song {
            Some(current) => if current.next_chunk_index() < current.audio_song.chunks.len() {
                (current.audio_song.chunks.len() - current.next_chunk_index()) as nat
            } else {
                0
            },
            None => 0,
        }
    }

    /// The state is nearer to the end of its songs than `other`.
    pub open spec fn nearer_end_than(self, other: BackendState) -> bool {
        self.songs_left() < other.songs_left() || (self.songs_left() == other.songs_left()
            && self.chunks_ahead() < other.chunks_ahead())
    }

    /// The song is the current or the next one, so a loader works on it already.
    pub open spec fn is_song_loading(self, song_id: SongID) -> bool {
        ||| self.current_song matches Some(current) && current.audio_song.song_id == song_id
        ||| self.next_song matches Some(next) && next.1.song_id == song_id
    }

    /// Where the chunks of the song go: to the current song first.
    pub open spec fn slot_of(self, song_id: SongID) -> Option<SongSlot> {
        if self.current_song matches Some(current) && current.audio_song.song_id == song_id {
            Some(SongSlot::Current)
        } else if self.next_song matches Some(next) && next.1.song_id == song_id {
            Some(SongSlot::Next)
        } else {
            None
        }
    }

    /// The song in a slot.
    pub open spec fn audio_song(self, slot: SongSlot) -> Option<AudioSongView> {
        match slot {
            SongSlot::Current => match self.current_song {
                Some(current) => Some(current.audio_song),
                None => None,
            },
            SongSlot::Next => match self.next_song {
                Some(next) => Some(next.1),
                None => None,
            },
        }
    }

    /// The next song becomes the current one, from its start; with no next song
    /// nothing plays.
    pub open spec fn rotated(self) -> BackendState {
        BackendState {
            current_song: match self.next_song {
                Some(next) => Some(CurrentSongView { play_position: 0, audio_song: next.1 }),
                None => None,
            },
            next_song: None,
            volume: self.volume,
        }
    }

    /// The position is past the last chunk of the current song, which is complete.
    pub open spec fn past_end(self) -> bool {
        self.current_song matches Some(current) && current.next_chunk_index()
            >= current.audio_song.chunks.len() && current.audio_song.complete()
    }

    /// The state once every song whose end the position has passed gave way to the
    /// one after it.
    pub open spec fn settled(self) -> BackendState
        decreases self.songs_left(),
    {
        if self.past_end() {
            self.rotated().settled()
        } else {
            self
        }
    }

    /// The chunk that goes to the source next, if it has come in.
    pub open spec fn pending_chunk(self) -> Option<SamplesChunk> {
        match self.current_song {
            Some(current) => if current.next_chunk_index() < current.audio_song.chunks.len() {
                Some(current.audio_song.chunks[current.next_chunk_index()])
            } else {
                None
            },
            None => None,
        }
    }

    /// The state once the source took the pending chunk: the position moves on by a
    /// whole chunk, and after the last chunk of a song the next song takes over.
    pub open spec fn advanced(self, chunk: SamplesChunk) -> BackendState {
        let current = self.current_song->0;
        let moved = BackendState {
            current_song: Some(
                CurrentSongView {
                    play_position: (current.play_position + CHUNK_SIZE) as usize,
                    audio_song: current.audio_song,
                },
            ),
            next_song: self.next_song,
            volume: self.volume,
        };
        if chunk.last_chunk {
            moved.rotated()
        } else {
            moved
        }
    }

    /// The state after the pending chunk was offered to the source with the given
    /// outcome. Only a chunk that the source took moves the engine on.
    pub open spec fn after_offer(self, outcome: TrySendOutcome) -> BackendState {
        let settled = self.settled();
        match (settled.pending_chunk(), outcome) {
            (Some(chunk), TrySendOutcome::Sent) => settled.advanced(chunk).settled(),
            _ => settled,
        }
    }

    /// The state after chunks were offered to the source one after the other, with
    /// the given outcomes.
    pub open spec fn paced(self, outcomes: Seq<TrySendOutcome>) -> BackendState
        decreases outcomes.len(),
    {
        if outcomes.len() == 0 {
            self.settled()
        } else {
            self.paced(outcomes.drop_last()).after_offer(outcomes.last())
        }
    }

    /// The outcomes are those of one run of the pacing routine: each belongs to a
    /// chunk that was pending, and the run ended with the first chunk that the source
    /// did not take.
    pub open spec fn pacing_run(self, outcomes: Seq<TrySendOutcome>) -> bool
        decreases outcomes.len(),
    {
        outcomes.len() == 0 || {
            &&& self.pacing_run(outcomes.drop_last())
            &&& forall|i: int|
                0 <= i < outcomes.len() - 1 ==> #[trigger] outcomes[i] == TrySendOutcome::Sent
            &&& self.paced(outcomes.drop_last()).pending_chunk() is Some
        }
    }

    /// How a run of the pacing routine with the given outcomes ends.
    pub open spec fn pacing_end(self, outcomes: Seq<TrySendOutcome>) -> PacingEnd {
        if outcomes.len() > 0 && outcomes.last() == TrySendOutcome::Full {
            PacingEnd::Blocked
        } else if outcomes.len() > 0 && outcomes.last() == TrySendOutcome::Disconnected {
            PacingEnd::Disconnected
        } else {
            PacingEnd::Idle
        }
    }

    /// The run is over: the source refused a chunk, or no chunk is pending.
    pub open spec fn pacing_done(self, outcomes: Seq<TrySendOutcome>) -> bool {
        self.pacing_end(outcomes) == PacingEnd::Idle ==> self.paced(outcomes).pending_chunk()
            is None
    }

    /// Some run of the pacing routine leads from this state to `after` and ends as
    /// `end` says.
    pub open spec fn paces_to(self, after: BackendState, end: PacingEnd) -> bool {
        exists|outcomes: Seq<TrySendOutcome>|
            {
                &&& #[trigger] self.pacing_run(outcomes)
                &&& self.pacing_done(outcomes)
                &&& after == self.paced(outcomes)
                &&& end == self.pacing_end(outcomes)
            }
    }

    /// The state with `song` as the current song, from its start and with no chunks.
    pub open spec fn playing(self, song_id: SongID) -> BackendState {
        BackendState {
            current_song: Some(
                CurrentSongView { play_position: 0, audio_song: AudioSongView::fresh(song_id) },
            ),
            next_song: self.next_song,
            volume: self.volume,
        }
    }

    /// The state with `song` as the next song, with no chunks.
    pub open spec fn queued(self, song: Song) -> BackendState {
        BackendState {
            current_song: self.current_song,
            next_song: Some((song, AudioSongView::fresh(song@.id))),
            volume: self.volume,
        }
    }

    /// The state after a jump: the position of the current song moves by as many
    /// samples as fit into the jump's length, and stays within `0` and `usize::MAX`.
    /// Without a current song of known format nothing moves.
    pub open spec fn seeked(self, seek: SeekCommand) -> BackendState {
        match self.current_song {
            Some(current) => match current.audio_song.sample_rate_and_channels {
                Some((sample_rate, channels)) => {
                    let offset = spec_duration_to_position(seek.duration, sample_rate, channels);
                    let position = match seek.direction {
                        SeekDirection::Forward => if current.play_position + offset > usize::MAX {
                            usize::MAX
                        } else {
                            (current.play_position + offset) as usize
                        },
                        SeekDirection::Backward => if current.play_position < offset {
                            0
                        } else {
                            (current.play_position - offset) as usize
                        },
                    };
                    BackendState {
                        current_song: Some(
                            CurrentSongView {
                                play_position: position,
                                audio_song: current.audio_song,
                            },
                        ),
                        next_song: self.next_song,
                        volume: self.volume,
                    }
                },
                None => self,
            },
            None => self,
        }
    }

    /// The engine keeps the chunk: it belongs to the current or the next song, can be
    /// played, and its position fits.
    pub open spec fn accepts(self, chunk: SamplesChunk) -> bool {
        &&& chunk.wf()
        &&& self.slot_of(chunk.song_id) matches Some(slot) && self.audio_song(slot)->0.chunks.len()
            < MAX_CHUNKS
    }

    /// The state with the chunk added to its song.
    pub open spec fn with_chunk(self, chunk: SamplesChunk) -> BackendState {
        match self.slot_of(chunk.song_id) {
            Some(SongSlot::Current) => BackendState {
                current_song: Some(
                    CurrentSongView {
                        play_position: self.current_song->0.play_position,
                        audio_song: self.current_song->0.audio_song.with_chunk(chunk),
                    },
                ),
                next_song: self.next_song,
                volume: self.volume,
            },
            Some(SongSlot::Next) => {
                let (song, audio_song) = self.next_song->0;
                BackendState {
                    current_song: self.current_song,
                    next_song: Some((song, audio_song.with_chunk(chunk))),
                    volume: self.volume,
                }
            },
            None => self,
        }
    }

    /// What the controller learns from a report of progress: the time played, if the
    /// song is the current or the next one and its format is known.
    pub open spec fn playing_info(self, playing: PlayingUpdate) -> Option<AudioInfo> {
        match self.slot_of(playing.song_id) {
            Some(slot) => match self.audio_song(slot)->0.sample_rate_and_channels {
                Some((sample_rate, channels)) => Some(
                    AudioInfo::Playing(
                        playing.song_id,
                        spec_position_to_duration(playing.samples_played, sample_rate, channels),
                    ),
                ),
                None => None,
            },
            None => None,
        }
    }

    /// What the controller learns from a loader's report of a length or a failure.
    pub open spec fn load_info_info(load_info: LoadInfo) -> Option<AudioInfo> {
        match load_info {
            LoadInfo::Chunk(_) => None,
            LoadInfo::Duration(song_id, duration) => Some(
                AudioInfo::SongDuration(song_id, duration),
            ),
            LoadInfo::Failed(song_id, error) => Some(AudioInfo::FailedOpen(song_id, error)),
        }
    }

    /// What a command makes of the state, and what it asks of the surroundings.
    pub open spec fn command_result(
        self,
        command: AudioCommand,
        after: BackendState,
        actions: Seq<BackendAction>,
    ) -> bool {
        match command {
            AudioCommand::Play(song) => after == self.playing(song@.id) && actions
                == self.load_actions(song) + seq![BackendAction::Play],
            AudioCommand::Queue(song) => after == self.queued(song) && actions == self.load_actions(
                song,
            ),
            AudioCommand::Pause => after == self && actions == seq![BackendAction::Pause],
            AudioCommand::Unpause => after == self && actions == seq![BackendAction::Play],
            AudioCommand::Seek(seek) => after == self.seeked(seek) && actions
                == Seq::<BackendAction>::empty(),
            AudioCommand::SetVolume(volume) => after == (BackendState { volume, ..self })
                && actions == seq![BackendAction::SetVolume(volume)],
        }
    }

    /// What the engine asks for when it has something to tell the controller.
    pub open spec fn told(info: Option<AudioInfo>) -> Seq<BackendAction> {
        match info {
            Some(info) => seq![BackendAction::Tell(info)],
            None => Seq::empty(),
        }
    }

    /// What the engine asks for at the end of a run of the pacing routine: to be
    /// stopped where the source is gone, else nothing.
    pub open spec fn pacing_actions(end: PacingEnd) -> Seq<BackendAction> {
        if end == PacingEnd::Disconnected {
            seq![BackendAction::Shutdown]
        } else {
            Seq::empty()
        }
    }

    /// The engine went on pacing from this state to `after`, and asks for what the end
    /// of the run calls for.
    pub open spec fn paced_with(self, after: BackendState, actions: Seq<BackendAction>) -> bool {
        exists|end: PacingEnd| #[trigger]
            self.paces_to(after, end) && actions == Self::pacing_actions(end)
    }

    /// What a report of the source makes of the state, and what the engine asks for.
    /// Progress is told to the controller as the time played, if the song and its
    /// format are known, and lets the engine go on pacing. The start of a song is
    /// told to the controller, and changes nothing.
    pub open spec fn update_result(
        self,
        update: AudioUpdate,
        after: BackendState,
        actions: Seq<BackendAction>,
    ) -> bool {
        match update {
            AudioUpdate::Playing(playing) => {
                let first = Self::told(self.playing_info(playing));
                &&& first.len() <= actions.len()
                &&& actions.take(first.len() as int) == first
                &&& self.paced_with(after, actions.skip(first.len() as int))
            },
            AudioUpdate::SongStarts(song_id) => after == self && actions == seq![
                BackendAction::Tell(AudioInfo::SongStarts(song_id)),
            ],
        }
    }

    /// What a report of a loader makes of the state, and what the engine asks for. A
    /// chunk that the engine keeps joins its song, and the engine goes on pacing; any
    /// other chunk is dropped. A length or a failure is told to the controller.
    pub open spec fn load_info_result(
        self,
        load_info: LoadInfo,
        after: BackendState,
        actions: Seq<BackendAction>,
    ) -> bool {
        match load_info {
            LoadInfo::Chunk(chunk) => if self.accepts(chunk) {
                self.with_chunk(chunk).paced_with(after, actions)
            } else {
                after == self && actions == Seq::<BackendAction>::empty()
            },
            _ => after == self && actions == Self::told(Self::load_info_info(load_info)),
        }
    }

    /// The engine goes on after it told the controller something, or could not: it
    /// stops when the controller is gone and what it had to tell was progress or the
    /// start of a song.
    pub open spec fn goes_on(info: AudioInfo, gone: bool) -> bool {
        !(gone && (info is Playing || info is SongStarts))
    }

    /// The loader to start for a song: none where one works on it already.
    pub open spec fn load_actions(self, song: Song) -> Seq<BackendAction> {
        if self.is_song_loading(song@.id) {
            Seq::empty()
        } else {
            seq![BackendAction::SpawnLoader(song)]
        }
    }
}

/// The audio engine: it keeps the chunks of the current and the next song as loaders
/// send them, hands them to the source as fast as the source takes them, and tells the
/// controller what plays.
pub struct AudioBackend {
    /// Sender for what the controller learns.
    info_sender: Sender<AudioInfo>,
    /// Sender for the chunks that go to the source.
    source_chunk_sender: Sender<SamplesChunk>,
    current_song: Option<CurrentSongState>,
    next_song: Option<(Song, AudioSong)>,
    volume: u8,
}

impl View for AudioBackend {
    type V = BackendState;

    closed spec fn view(&self) -> BackendState {
        BackendState {
            current_song: match self.current_song {
                Some(current) => Some(current@),
                None => None,
            },
            next_song: match self.next_song {
                Some(next) => Some((next.0, next.1@)),
                None => None,
            },
            volume: self.volume,
        }
    }
}

/// Settling a state that is in order leaves it in order, with no more songs than
/// before; where no song gave way, nothing changed.
pub proof fn lemma_settled(state: BackendState)
    requires
        state.wf(),
    ensures
        state.settled().wf(),
        !state.settled().past_end(),
        state.settled().settled() == state.settled(),
        state.settled().volume == state.volume,
        state.settled().songs_left() <= state.songs_left(),
        state.settled().songs_left() == state.songs_left() ==> state.settled() == state,
    decreases state.songs_left(),
{
    if state.past_end() {
        lemma_settled(state.rotated());
    }
}

/// Offering a chunk leaves the engine in order and settled, and its volume as it was.
/// A chunk that the source took brings the engine nearer to the end of its songs.
pub proof fn lemma_after_offer(state: BackendState, outcome: TrySendOutcome)
    requires
        state.wf(),
    ensures
        state.after_offer(outcome).wf(),
        state.after_offer(outcome).settled() == state.after_offer(outcome),
        state.after_offer(outcome).volume == state.volume,
        state.settled().pending_chunk() is Some && outcome == TrySendOutcome::Sent
            ==> state.after_offer(outcome).nearer_end_than(state.settled()),
        state.settled().pending_chunk() is Some && outcome == TrySendOutcome::Sent ==> (
        state.settled().current_song->0).play_position + CHUNK_SIZE <= usize::MAX,
{
    lemma_settled(state);
    let settled = state.settled();
    if settled.pending_chunk() is Some && outcome == TrySendOutcome::Sent {
        let chunk = settled.pending_chunk()->0;
        let advanced = settled.advanced(chunk);
        let current = settled.current_song->0;
        assert(current.play_position + CHUNK_SIZE <= usize::MAX);
        assert(advanced.wf());
        lemma_settled(advanced);
    }
}

impl AudioBackend {
    /// An engine without songs, and the source that plays what the engine hands out.
    /// Up to `CHUNK_BUFFER_SIZE` chunks can wait between the two. The actions start
    /// the output at the given volume.
    pub fn new(
        info_sender: Sender<AudioInfo>,
        audio_backend_sender: Sender<AudioBackendCommand>,
        volume: u8,
    ) -> (made: (AudioBackend, ReceiverSource, Vec<BackendAction>))
        ensures
            made.0@ == (BackendState { current_song: None, next_song: None, volume }),
            made.0@.wf(),
            made.1@ == SourceState::idle(),
            made.1@.wf(),
            made.1.update_sender() == audio_backend_sender,
            made.0.info_sender() == info_sender,
            made.0.chunk_capacity() == CHUNK_BUFFER_SIZE,
            made.2@ == seq![BackendAction::Play, BackendAction::SetVolume(volume)],
    {
        let (source_chunk_sender, chunk_receiver) = bounded_chunk_channel(CHUNK_BUFFER_SIZE);
        let receiver_source = ReceiverSource::new(chunk_receiver, audio_backend_sender);
        let mut actions: Vec<BackendAction> = Vec::new();
        actions.push(BackendAction::Play);
        actions.push(BackendAction::SetVolume(volume));
        (
            AudioBackend {
                info_sender,
                source_chunk_sender,
                current_song: None,
                next_song: None,
                volume,
            },
            receiver_source,
            actions,
        )
    }

    /// The channel by which the controller hears of the engine.
    pub closed spec fn info_sender(&self) -> Sender<AudioInfo> {
        self.info_sender
    }

    /// The channel by which the chunks go to the source.
    pub closed spec fn source_chunk_sender(&self) -> Sender<SamplesChunk> {
        self.source_chunk_sender
    }

    /// Number of chunks that may wait between the engine and the source.
    pub open spec fn chunk_capacity(&self) -> nat {
        chunk_channel_capacity(self.source_chunk_sender())
    }

    /// The engine's songs are in order, whatever is done to the engine.
    #[verifier::type_invariant]
    pub open spec fn wf(&self) -> bool {
        self@.wf()
    }

    /// The song that plays.
    pub fn current_song_id(&self) -> (song_id: Option<SongID>)
        ensures
            song_id == match self@.current_song {
                Some(current) => Some(current.audio_song.song_id),
                None => None,
            },
    {
        match &self.current_song {
            Some(current) => Some(current.audio_song.song_id),
            None => None,
        }
    }

    /// The song that plays next.
    pub fn next_song_id(&self) -> (song_id: Option<SongID>)
        ensures
            song_id == match self@.next_song {
                Some(next) => Some(next.1.song_id),
                None => None,
            },
    {
        match &self.next_song {
            Some(next) => Some(next.1.song_id),
            None => None,
        }
    }

    /// Number of samples of the current song that went to the source.
    pub fn play_position(&self) -> (position: Option<usize>)
        ensures
            position == match self@.current_song {
                Some(current) => Some(current.play_position),
                None => None,
            },
    {
        match &self.current_song {
            Some(current) => Some(current.play_position),
            None => None,
        }
    }

    /// The volume that was set last.
    pub fn volume(&self) -> (volume: u8)
        ensures
            volume == self@.volume,
    {
        self.volume
    }

    /// Tells whether a loader works on the song already.
    pub fn is_song_loading(&self, song_id: SongID) -> (loading: bool)
        ensures
            loading == self@.is_song_loading(song_id),
    {
        if let Some(current_song) = &self.current_song {
            if current_song.audio_song.song_id == song_id {
                return true;
            }
        }
        if let Some(next_audio_song) = &self.next_song {
            if next_audio_song.1.song_id == song_id {
                return true;
            }
        }
        false
    }

    /// Asks for a loader for the song, unless one works on it already.
    fn load(&self, song: Song, actions: &mut Vec<BackendAction>)
        ensures
            final(actions)@ == old(actions)@ + self@.load_actions(song),
    {
        if !self.is_song_loading(song.get_id()) {
            actions.push(BackendAction::SpawnLoader(song));
        }
        assert(actions@ =~= old(actions)@ + self@.load_actions(song));
    }

    /// Lets the next song take the place of the current one.
    pub fn play_next_song(&mut self)
        ensures
            final(self).info_sender() == old(self).info_sender(),
            final(self).source_chunk_sender() == old(self).source_chunk_sender(),
            final(self)@ == old(self)@.rotated(),
    {
        proof {
            use_type_invariant(&*self);
        }
        let mut next: Option<(Song, AudioSong)> = None;
        core::mem::swap(&mut self.next_song, &mut next);
        self.current_song =
        match next {
            Some((_, audio_song)) => Some(CurrentSongState { play_position: 0, audio_song }),
            None => None,
        };
    }

    /// Tells whether the position is past the last chunk of the current song.
    fn is_past_end(&self) -> (past_end: bool)
        ensures
            past_end == self@.past_end(),
    {
        match &self.current_song {
            Some(current) => {
                let next_chunk_index = current.play_position / CHUNK_SIZE + 1;
                let count = current.audio_song.chunks.len();
                next_chunk_index >= count && count > 0 && current.audio_song.chunks[count
                    - 1].last_chunk
            },
            None => false,
        }
    }

    /// Lets every song whose end the position has passed give way to the one after it.
    fn settle(&mut self)
        ensures
            final(self).info_sender() == old(self).info_sender(),
            final(self).source_chunk_sender() == old(self).source_chunk_sender(),
            final(self)@ == old(self)@.settled(),
            final(self)@.wf(),
    {
        proof {
            use_type_invariant(&*self);
            lemma_settled(self@);
        }
        while self.is_past_end()
            invariant
                self@.wf(),
                self.info_sender() == old(self).info_sender(),
                self.source_chunk_sender() == old(self).source_chunk_sender(),
                self@.settled() == old(self)@.settled(),
            decreases self@.songs_left(),
        {
            self.play_next_song();
        }
    }

    /// The chunk that goes to the source next, if it has come in.
    fn pending_chunk(&self) -> (chunk: Option<SamplesChunk>)
        ensures
            chunk == self@.pending_chunk(),
    {
        match &self.current_song {
            Some(current) => {
                let next_chunk_index = current.play_position / CHUNK_SIZE + 1;
                if next_chunk_index < current.audio_song.chunks.len() {
                    Some(current.audio_song.chunks[next_chunk_index].clone())
                } else {
                    None
                }
            },
            None => None,
        }
    }

    /// Takes up how the offer of the pending chunk to the source ended. A chunk that
    /// the source took moves the position on by a whole chunk; after the last chunk
    /// of a song the next song takes over. A chunk that the source did not take
    /// changes nothing.
    pub fn chunk_offered(&mut self, outcome: TrySendOutcome)
        ensures
            final(self).info_sender() == old(self).info_sender(),
            final(self).source_chunk_sender() == old(self).source_chunk_sender(),
            final(self)@ == old(self)@.after_offer(outcome),
            final(self)@.wf(),
    {
        proof {
            use_type_invariant(&*self);
        }
        self.settle();
        let pending = self.pending_chunk();
        match (pending, outcome) {
            (Some(chunk), TrySendOutcome::Sent) => {
                proof {
                    lemma_after_offer(old(self)@, outcome);
                }
                let mut current: Option<CurrentSongState> = None;
                core::mem::swap(&mut self.current_song, &mut current);
                if let Some(mut current) = current {
                    current.play_position = current.play_position + CHUNK_SIZE;
                    self.current_song = Some(current);
                }
                if chunk.last_chunk {
                    self.play_next_song();
                }
                assert(self@ == old(self)@.settled().advanced(chunk));
                self.settle();
            },
            _ => {},
        }
    }

    /// Hands chunks of the current song to the source until the source has no room,
    /// no chunk is left that has come in, or the source is gone. With its last chunk
    /// out, a song gives way to the next.
    pub fn send_next_chunks(&mut self) -> (end: PacingEnd)
        ensures
            final(self).info_sender() == old(self).info_sender(),
            final(self).source_chunk_sender() == old(self).source_chunk_sender(),
            old(self)@.paces_to(final(self)@, end),
            final(self)@.wf(),
            final(self)@.volume == old(self)@.volume,
    {
        proof {
            use_type_invariant(&*self);
        }
        let ghost mut outcomes: Seq<TrySendOutcome> = Seq::empty();
        self.settle();
        proof {
            lemma_settled(old(self)@);
        }
        loop
            invariant
                self@.wf(),
                self.info_sender() == old(self).info_sender(),
                self.source_chunk_sender() == old(self).source_chunk_sender(),
                self@ == old(self)@.paced(outcomes),
                self@.settled() == self@,
                self@.volume == old(self)@.volume,
                old(self)@.pacing_run(outcomes),
                forall|i: int| 0 <= i < outcomes.len() ==> #[trigger] outcomes[i] == TrySendOutcome::Sent,
            decreases self@.songs_left(), self@.chunks_ahead(),
        {
            let chunk = match self.pending_chunk() {
                Some(chunk) => chunk,
                None => {
                    proof {
                        assert(old(self)@.pacing_run(outcomes) && old(self)@.pacing_done(outcomes)
                            && old(self)@.pacing_end(outcomes) == PacingEnd::Idle);
                    }
                    return PacingEnd::Idle;
                },
            };
            let outcome = try_send(&self.source_chunk_sender, chunk);
            let ghost before = self@;
            proof {
                lemma_after_offer(before, outcome);
                assert(outcomes.push(outcome).drop_last() =~= outcomes);
                outcomes = outcomes.push(outcome);
                assert(old(self)@.pacing_run(outcomes));
            }
            self.chunk_offered(outcome);
            match outcome {
                TrySendOutcome::Sent => {},
                TrySendOutcome::Full => {
                    proof {
                        assert(old(self)@.pacing_run(outcomes) && old(self)@.pacing_done(outcomes)
                            && old(self)@.pacing_end(outcomes) == PacingEnd::Blocked);
                    }
                    return PacingEnd::Blocked;
                },
                TrySendOutcome::Disconnected => {
                    proof {
                        assert(old(self)@.pacing_run(outcomes) && old(self)@.pacing_done(outcomes)
                            && old(self)@.pacing_end(outcomes) == PacingEnd::Disconnected);
                    }
                    return PacingEnd::Disconnected;
                },
            }
        }
    }
}

/// While a song plays on, its chunks go out one after the other: a chunk that the
/// source took, and that is not the last of its song, leaves the same song current,
/// a whole chunk further on, and the chunk behind it is the next to go out.
pub proof fn lemma_chunks_go_out_in_order(state: BackendState)
    requires
        state.wf(),
        state.settled().pending_chunk() matches Some(chunk) && !chunk.last_chunk,
    ensures
        ({
            let before = state.settled().current_song->0;
            let after = state.after_offer(TrySendOutcome::Sent);
            ||| after.current_song matches Some(current) && current.audio_song == before.audio_song
                && current.play_position == before.play_position + CHUNK_SIZE
                && current.next_chunk_index() == before.next_chunk_index() + 1
            ||| before.audio_song.complete() && before.next_chunk_index() + 1
                >= before.audio_song.chunks.len()
        }),
{
    lemma_after_offer(state, TrySendOutcome::Sent);
    let settled = state.settled();
    let chunk = settled.pending_chunk()->0;
    let advanced = settled.advanced(chunk);
    if advanced.past_end() {
    } else {
        assert(advanced.settled() == advanced);
    }
}

/// Where no chunk is pending, a run of the pacing routine offers none.
pub proof fn lemma_nothing_pending(state: BackendState, outcomes: Seq<TrySendOutcome>)
    requires
        state.settled().pending_chunk() is None,
        state.pacing_run(outcomes),
    ensures
        outcomes.len() == 0,
    decreases outcomes.len(),
{
    if outcomes.len() > 0 {
        lemma_nothing_pending(state, outcomes.drop_last());
    }
}

/// Number of chunks that the source took.
pub open spec fn sent_count(outcomes: Seq<TrySendOutcome>) -> nat
    decreases outcomes.len(),
{
    if outcomes.len() == 0 {
        0
    } else {
        sent_count(outcomes.drop_last()) + if outcomes.last() == TrySendOutcome::Sent {
            1nat
        } else {
            0nat
        }
    }
}

/// The outcomes are those that a channel of the given capacity gives while nobody
/// takes anything out of it: a chunk goes in only while there is room.
pub open spec fn channel_allows(
    outcomes: Seq<TrySendOutcome>,
    in_flight: nat,
    capacity: nat,
) -> bool {
    forall|i: int|
        0 <= i < outcomes.len() && #[trigger] outcomes[i] == TrySendOutcome::Sent ==> in_flight
            + sent_count(outcomes.take(i)) < capacity
}

/// One run of the pacing routine offers each chunk once and ends with the first chunk
/// that the source refuses. So while the source takes nothing out, the chunks in
/// flight never pass the capacity of the channel between the two.
pub proof fn lemma_back_pressure(
    state: BackendState,
    outcomes: Seq<TrySendOutcome>,
    in_flight: nat,
    capacity: nat,
)
    requires
        state.pacing_run(outcomes),
        in_flight <= capacity,
        channel_allows(outcomes, in_flight, capacity),
    ensures
        in_flight + sent_count(outcomes) <= capacity,
        outcomes.len() <= sent_count(outcomes) + 1,
        forall|i: int|
            0 <= i < outcomes.len() && #[trigger] outcomes[i] != TrySendOutcome::Sent ==> i
                == outcomes.len() - 1,
    decreases outcomes.len(),
{
    if outcomes.len() > 0 {
        let before = outcomes.drop_last();
        assert forall|i: int|
            0 <= i < before.len() && #[trigger] before[i] == TrySendOutcome::Sent implies in_flight
            + sent_count(before.take(i)) < capacity by {
            assert(outcomes[i] == TrySendOutcome::Sent);
            assert(before.take(i) =~= outcomes.take(i));
        }
        lemma_back_pressure(state, before, in_flight, capacity);
        assert(outcomes.take(outcomes.len() - 1) =~= before);
        lemma_sent_count_all(before);
    }
}

/// Where the source took every chunk, it took as many as were offered.
proof fn lemma_sent_count_all(outcomes: Seq<TrySendOutcome>)
    requires
        forall|i: int| 0 <= i < outcomes.len() ==> #[trigger] outcomes[i] == TrySendOutcome::Sent,
    ensures
        sent_count(outcomes) == outcomes.len(),
    decreases outcomes.len(),
{
    if outcomes.len() > 0 {
        lemma_sent_count_all(outcomes.drop_last());
    }
}

impl AudioBackend {
    /// Where the chunks of the song go, if the engine holds the song.
    pub fn get_audio_song(&self, song_id: SongID) -> (slot: Option<SongSlot>)
        ensures
            slot == self@.slot_of(song_id),
    {
        if let Some(current_song) = &self.current_song {
            if current_song.audio_song.song_id == song_id {
                return Some(SongSlot::Current);
            }
        }
        if let Some(next_audio_song) = &self.next_song {
            if next_audio_song.1.song_id == song_id {
                return Some(SongSlot::Next);
            }
        }
        None
    }

    /// Sample rate and channels of the song in a slot, once its first chunk is in.
    fn format_of(&self, slot: SongSlot) -> (format: Option<(u32, u16)>)
        ensures
            format == match self@.audio_song(slot) {
                Some(audio_song) => audio_song.sample_rate_and_channels,
                None => None,
            },
    {
        match slot {
            SongSlot::Current => match &self.current_song {
                Some(current) => current.audio_song.sample_rate_and_channels,
                None => None,
            },
            SongSlot::Next => match &self.next_song {
                Some(next) => next.1.sample_rate_and_channels,
                None => None,
            },
        }
    }

    /// Number of chunks of the song in a slot that are in.
    fn chunk_count_of(&self, slot: SongSlot) -> (count: Option<usize>)
        ensures
            count == match self@.audio_song(slot) {
                Some(audio_song) => Some(audio_song.chunks.len() as usize),
                None => None,
            },
    {
        match slot {
            SongSlot::Current => match &self.current_song {
                Some(current) => Some(current.audio_song.chunks.len()),
                None => None,
            },
            SongSlot::Next => match &self.next_song {
                Some(next) => Some(next.1.chunks.len()),
                None => None,
            },
        }
    }

    /// What to tell the controller of a report of progress.
    pub fn playing_info(&self, playing: PlayingUpdate) -> (info: Option<AudioInfo>)
        ensures
            info == self@.playing_info(playing),
    {
        proof {
            use_type_invariant(&*self);
        }
        match self.get_audio_song(playing.song_id) {
            Some(slot) => match self.format_of(slot) {
                Some((sample_rate, channels)) => Some(
                    AudioInfo::Playing(
                        playing.song_id,
                        position_to_duration(playing.samples_played, sample_rate, channels),
                    ),
                ),
                None => None,
            },
            None => None,
        }
    }

    /// Starts the song from its beginning, in place of whatever plays.
    pub fn play(&mut self, song: Song) -> (actions: Vec<BackendAction>)
        ensures
            final(self).info_sender() == old(self).info_sender(),
            final(self).source_chunk_sender() == old(self).source_chunk_sender(),
            old(self)@.command_result(AudioCommand::Play(song), final(self)@, actions@),
            final(self)@.wf(),
    {
        proof {
            use_type_invariant(&*self);
        }
        let mut actions: Vec<BackendAction> = Vec::new();
        let song_id = song.get_id();
        self.load(song, &mut actions);
        self.current_song =
        Some(CurrentSongState { audio_song: AudioSong::new(song_id), play_position: 0 });
        let ghost started = self@;
        let _ = self.send_next_chunks();
        proof {
            let outcomes = choose|outcomes: Seq<TrySendOutcome>|
                {
                    &&& #[trigger] started.pacing_run(outcomes)
                    &&& self@ == started.paced(outcomes)
                };
            assert(started == old(self)@.playing(song@.id));
            assert(started.settled() == started);
            lemma_nothing_pending(started, outcomes);
            assert(self@ == started);
        }
        let ghost asked = actions@;
        actions.push(BackendAction::Play);
        assert(actions@ =~= asked + seq![BackendAction::Play]);
        actions
    }

    /// Lets the song follow the one that plays.
    pub fn queue(&mut self, song: Song) -> (actions: Vec<BackendAction>)
        ensures
            final(self).info_sender() == old(self).info_sender(),
            final(self).source_chunk_sender() == old(self).source_chunk_sender(),
            old(self)@.command_result(AudioCommand::Queue(song), final(self)@, actions@),
            final(self)@.wf(),
    {
        proof {
            use_type_invariant(&*self);
        }
        let mut actions: Vec<BackendAction> = Vec::new();
        let song_id = song.get_id();
        self.load(song.clone(), &mut actions);
        self.next_song = Some((song, AudioSong::new(song_id)));
        actions
    }

    /// Silences the output.
    pub fn pause(&self) -> (actions: Vec<BackendAction>)
        ensures
            actions@ == seq![BackendAction::Pause],
    {
        let mut actions: Vec<BackendAction> = Vec::new();
        actions.push(BackendAction::Pause);
        actions
    }

    /// Lets the output pull samples again.
    pub fn unpause(&self) -> (actions: Vec<BackendAction>)
        ensures
            actions@ == seq![BackendAction::Play],
    {
        let mut actions: Vec<BackendAction> = Vec::new();
        actions.push(BackendAction::Play);
        actions
    }

    /// Sets the volume of the output and keeps it in mind.
    pub fn set_volume(&mut self, volume: u8) -> (actions: Vec<BackendAction>)
        ensures
            final(self).info_sender() == old(self).info_sender(),
            final(self).source_chunk_sender() == old(self).source_chunk_sender(),
            final(self)@ == (BackendState { volume, ..old(self)@ }),
            actions@ == seq![BackendAction::SetVolume(volume)],
    {
        proof {
            use_type_invariant(&*self);
        }
        self.volume = volume;
        let mut actions: Vec<BackendAction> = Vec::new();
        actions.push(BackendAction::SetVolume(volume));
        actions
    }

    /// Moves the position of the current song by the length of the jump. The position
    /// never leaves the range of `usize`; what plays next is decided when the next
    /// chunk goes out.
    pub fn seek(&mut self, seek_command: SeekCommand)
        ensures
            final(self).info_sender() == old(self).info_sender(),
            final(self).source_chunk_sender() == old(self).source_chunk_sender(),
            final(self)@ == old(self)@.seeked(seek_command),
            old(self)@.wf() ==> final(self)@.wf(),
    {
        proof {
            use_type_invariant(&*self);
        }
        let mut current: Option<CurrentSongState> = None;
        core::mem::swap(&mut self.current_song, &mut current);
        if let Some(mut current_song) = current {
            if let Some((sample_rate, channels)) = current_song.audio_song.sample_rate_and_channels {
                let offset = duration_to_position(&seek_command.duration, sample_rate, channels);
                match seek_command.direction {
                    SeekDirection::Forward => {
                        current_song.play_position = current_song.play_position.saturating_add(
                            offset,
                        );
                    },
                    SeekDirection::Backward => {
                        current_song.play_position = current_song.play_position.saturating_sub(
                            offset,
                        );
                    },
                }
            }
            self.current_song = Some(current_song);
        }
    }

    /// Does what the controller asks.
    pub fn handle_command(&mut self, command: AudioCommand) -> (actions: Vec<BackendAction>)
        ensures
            final(self).info_sender() == old(self).info_sender(),
            final(self).source_chunk_sender() == old(self).source_chunk_sender(),
            old(self)@.command_result(command, final(self)@, actions@),
            final(self)@.wf(),
    {
        proof {
            use_type_invariant(&*self);
        }
        match command {
            AudioCommand::Play(song) => self.play(song),
            AudioCommand::Queue(song) => self.queue(song),
            AudioCommand::Pause => self.pause(),
            AudioCommand::Unpause => self.unpause(),
            AudioCommand::Seek(seek_command) => {
                self.seek(seek_command);
                Vec::new()
            },
            AudioCommand::SetVolume(volume) => self.set_volume(volume),
        }
    }

    /// Hands an info to the controller's channel, without waiting. Returns whether the
    /// controller is gone. An info for which the channel has no room is dropped.
    pub fn send_info(&self, info: AudioInfo) -> (gone: bool) {
        try_send(&self.info_sender, info).is_disconnected()
    }

    /// Tells whether the engine goes on after an info met its fate.
    pub fn goes_on(info: AudioInfo, gone: bool) -> (go_on: bool)
        ensures
            go_on == BackendState::goes_on(info, gone),
    {
        match info {
            AudioInfo::Playing(_, _) => !gone,
            AudioInfo::SongStarts(_) => !gone,
            _ => true,
        }
    }

    /// Tells the controller what the engine asked to tell it. Returns whether the
    /// engine goes on: it stops when the controller is gone and hears neither of
    /// progress nor of the start of a song any more.
    pub fn tell(&self, info: AudioInfo) -> (go_on: bool)
        ensures
            exists|gone: bool| go_on == #[trigger] BackendState::goes_on(info, gone),
            info is SongDuration || info is FailedOpen ==> go_on,
    {
        let gone = self.send_info(info);
        let go_on = Self::goes_on(info, gone);
        assert(go_on == BackendState::goes_on(info, gone));
        go_on
    }

    /// Goes on pacing, and asks to be stopped where the source is gone.
    fn pace(&mut self) -> (actions: Vec<BackendAction>)
        ensures
            final(self).info_sender() == old(self).info_sender(),
            final(self).source_chunk_sender() == old(self).source_chunk_sender(),
            old(self)@.paced_with(final(self)@, actions@),
            final(self)@.wf(),
    {
        proof {
            use_type_invariant(&*self);
        }
        let mut actions: Vec<BackendAction> = Vec::new();
        let end = self.send_next_chunks();
        match end {
            PacingEnd::Disconnected => {
                actions.push(BackendAction::Shutdown);
            },
            _ => {},
        }
        assert(old(self)@.paces_to(self@, end) && actions@ =~= BackendState::pacing_actions(end));
        actions
    }

    /// Takes up a report of the source. Progress is for the controller as the time
    /// played, and makes room for more chunks; the start of a song is for the
    /// controller as it is.
    pub fn handle_update(&mut self, update: AudioUpdate) -> (actions: Vec<BackendAction>)
        ensures
            final(self).info_sender() == old(self).info_sender(),
            final(self).source_chunk_sender() == old(self).source_chunk_sender(),
            old(self)@.update_result(update, final(self)@, actions@),
            final(self)@.wf(),
    {
        proof {
            use_type_invariant(&*self);
        }
        let mut actions: Vec<BackendAction> = Vec::new();
        match update {
            AudioUpdate::Playing(playing_update) => {
                if let Some(info) = self.playing_info(playing_update) {
                    actions.push(BackendAction::Tell(info));
                }
                let ghost first = actions@;
                let mut paced = self.pace();
                let ghost tail = paced@;
                actions.append(&mut paced);
                assert(actions@.take(first.len() as int) =~= first);
                assert(actions@.skip(first.len() as int) =~= tail);
                assert(first =~= BackendState::told(old(self)@.playing_info(playing_update)));
            },
            AudioUpdate::SongStarts(song_id) => {
                actions.push(BackendAction::Tell(AudioInfo::SongStarts(song_id)));
            },
        }
        actions
    }

    /// Adds a chunk to its song, if the engine keeps it: the chunk belongs to the
    /// current or the next song, can be played, and its position fits. The first
    /// chunk of a song tells the song's format.
    pub fn accept_chunk(&mut self, chunk: SamplesChunk) -> (accepted: bool)
        ensures
            final(self).info_sender() == old(self).info_sender(),
            final(self).source_chunk_sender() == old(self).source_chunk_sender(),
            accepted == old(self)@.accepts(chunk),
            final(self)@ == if accepted {
                old(self)@.with_chunk(chunk)
            } else {
                old(self)@
            },
            final(self)@.wf(),
    {
        proof {
            use_type_invariant(&*self);
        }
        if !chunk.is_well_formed() {
            return false;
        }
        let slot = match self.get_audio_song(chunk.song_id) {
            Some(slot) => slot,
            None => {
                return false;
            },
        };
        match self.chunk_count_of(slot) {
            Some(count) => {
                if count >= MAX_CHUNKS {
                    return false;
                }
            },
            None => {
                return false;
            },
        }
        match slot {
            SongSlot::Current => {
                let mut current: Option<CurrentSongState> = None;
                core::mem::swap(&mut self.current_song, &mut current);
                if let Some(mut current_song) = current {
                    Self::push_chunk(&mut current_song.audio_song, chunk);
                    self.current_song = Some(current_song);
                }
            },
            SongSlot::Next => {
                let mut next: Option<(Song, AudioSong)> = None;
                core::mem::swap(&mut self.next_song, &mut next);
                if let Some((song, mut audio_song)) = next {
                    Self::push_chunk(&mut audio_song, chunk);
                    self.next_song = Some((song, audio_song));
                }
            },
        }
        true
    }

    /// Adds a chunk to a song.
    fn push_chunk(audio_song: &mut AudioSong, chunk: SamplesChunk)
        requires
            old(audio_song)@.wf(),
            old(audio_song)@.chunks.len() < MAX_CHUNKS,
            chunk.wf(),
        ensures
            final(audio_song)@ == old(audio_song)@.with_chunk(chunk),
            final(audio_song)@.wf(),
    {
        if audio_song.sample_rate_and_channels.is_none() {
            audio_song.sample_rate_and_channels = Some((chunk.sample_rate, chunk.channels));
        }
        audio_song.chunks.push(chunk);
    }

    /// What to tell the controller of a loader's report.
    pub fn load_info_info(load_info: &LoadInfo) -> (info: Option<AudioInfo>)
        ensures
            info == BackendState::load_info_info(*load_info),
    {
        match load_info {
            LoadInfo::Chunk(_) => None,
            LoadInfo::Duration(song_id, duration) => Some(
                AudioInfo::SongDuration(*song_id, *duration),
            ),
            LoadInfo::Failed(song_id, error) => Some(AudioInfo::FailedOpen(*song_id, *error)),
        }
    }

    /// Takes up a report of a loader. A chunk of the current or the next song joins
    /// its song and may go out to the source at once; a chunk of any other song is
    /// dropped. A length or a failure goes on to the controller.
    pub fn handle_load_info(&mut self, load_info: LoadInfo) -> (actions: Vec<BackendAction>)
        ensures
            final(self).info_sender() == old(self).info_sender(),
            final(self).source_chunk_sender() == old(self).source_chunk_sender(),
            old(self)@.load_info_result(load_info, final(self)@, actions@),
            final(self)@.wf(),
    {
        proof {
            use_type_invariant(&*self);
        }
        let mut actions: Vec<BackendAction> = Vec::new();
        if let Some(info) = Self::load_info_info(&load_info) {
            actions.push(BackendAction::Tell(info));
        }
        match load_info {
            LoadInfo::Chunk(chunk) => {
                if self.accept_chunk(chunk) {
                    self.pace()
                } else {
                    actions
                }
            },
            _ => actions,
        }
    }

    /// Takes up one message, whoever sent it.
    pub fn dispatch(&mut self, message: AudioBackendCommand) -> (actions: Vec<BackendAction>)
        ensures
            final(self).info_sender() == old(self).info_sender(),
            final(self).source_chunk_sender() == old(self).source_chunk_sender(),
            match message {
                AudioBackendCommand::Command(command) => old(self)@.command_result(
                    command,
                    final(self)@,
                    actions@,
                ),
                AudioBackendCommand::Update(update) => old(self)@.update_result(
                    update,
                    final(self)@,
                    actions@,
                ),
                AudioBackendCommand::LoadInfo(load_info) => old(self)@.load_info_result(
                    load_info,
                    final(self)@,
                    actions@,
                ),
            },
            final(self)@.wf(),
    {
        proof {
            use_type_invariant(&*self);
        }
        match message {
            AudioBackendCommand::Command(command) => self.handle_command(command),
            AudioBackendCommand::Update(update) => self.handle_update(update),
            AudioBackendCommand::LoadInfo(load_info) => self.handle_load_info(load_info),
        }
    }
}

} // verus!
