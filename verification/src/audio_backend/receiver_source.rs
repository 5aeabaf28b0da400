use crate::audio_backend::channel::{try_recv, try_send};
use crate::audio_backend::chunk::{Sample, SamplesChunk};
use crate::audio_backend::{AudioBackendCommand, AudioUpdate, PlayingUpdate};
use crate::time::Duration;
use crossbeam::channel::{Receiver, Sender};
use vstd::prelude::*;

verus! {

/// Channels that the source reports while no chunk plays.
pub const DEFAULT_CHANNELS: u16 = 2;

/// Sample rate that the source reports while no chunk plays.
pub const DEFAULT_SAMPLE_RATE: u32 = 44100;

/// The source that the output pulls its samples from. It takes chunks from the engine
/// without ever waiting, and tells the engine how far it has come.
pub struct ReceiverSource {
    chunk_receiver: Receiver<SamplesChunk>,
    update_sender: Sender<AudioBackendCommand>,
    current_chunk: Option<SamplesChunk>,
    /// Number of samples of the current chunk that went out.
    samples_counter: usize,
}

/// What a pull gives: the sample for the output, if there is one, and what there is to
/// tell the engine.
pub struct Pull {
    pub sample: Option<Sample>,
    pub update: Option<AudioUpdate>,
}

/// The chunk that plays and how far it has played.
pub struct SourceState {
    pub current_chunk: Option<SamplesChunk>,
    pub samples_counter: usize,
}

impl SourceState {
    /// The source without a chunk.
    pub open spec fn idle() -> SourceState {
        SourceState { current_chunk: None, samples_counter: 0 }
    }

    pub open spec fn wf(self) -> bool {
        self.current_chunk matches Some(chunk) ==> chunk.wf() && self.samples_counter
            <= chunk.length
    }

    /// No sample is left to play: there is no chunk, or all of it went out.
    pub open spec fn needs_chunk(self) -> bool {
        match self.current_chunk {
            Some(chunk) => self.samples_counter >= chunk.length,
            None => true,
        }
    }

    /// The state after the source asked for a chunk and got `received`: a chunk that
    /// can be played starts from its first sample; without one nothing plays.
    pub open spec fn after_receive(self, received: Option<SamplesChunk>) -> SourceState {
        match received {
            Some(chunk) => if chunk.wf() {
                SourceState { current_chunk: Some(chunk), samples_counter: 0 }
            } else {
                SourceState::idle()
            },
            None => SourceState::idle(),
        }
    }

    /// What the engine learns when the source got `received`: that a song starts,
    /// where the chunk is the first that plays or belongs to another song than the
    /// one before; else how far into the song the chunk begins.
    pub open spec fn update_for(self, received: Option<SamplesChunk>) -> Option<AudioUpdate> {
        match received {
            Some(chunk) => if !chunk.wf() {
                None
            } else if self.current_chunk matches Some(previous) && previous.song_id
                == chunk.song_id {
                Some(
                    AudioUpdate::Playing(
                        PlayingUpdate {
                            song_id: chunk.song_id,
                            samples_played: chunk.start_position,
                        },
                    ),
                )
            } else {
                Some(AudioUpdate::SongStarts(chunk.song_id))
            },
            None => None,
        }
    }

    /// The sample that goes out next, if a chunk plays.
    pub open spec fn sample(self) -> Option<Sample> {
        match self.current_chunk {
            Some(chunk) => if self.samples_counter < chunk.length {
                Some(chunk.data@[self.samples_counter as int])
            } else {
                None
            },
            None => None,
        }
    }

    /// The state after the next sample went out.
    pub open spec fn after_sample(self) -> SourceState {
        if self.sample() is Some {
            SourceState {
                current_chunk: self.current_chunk,
                samples_counter: (self.samples_counter + 1) as usize,
            }
        } else {
            self
        }
    }

    /// What there is to tell the engine on a pull, where asking for a chunk would give
    /// `received`: nothing while samples are left.
    pub open spec fn update_on_pull(self, received: Option<SamplesChunk>) -> Option<AudioUpdate> {
        if self.needs_chunk() {
            self.update_for(received)
        } else {
            None
        }
    }

    /// The state in which the source looks for its next sample, where asking for a
    /// chunk would give `received`: it asks only when no sample is left.
    pub open spec fn refilled(self, received: Option<SamplesChunk>) -> SourceState {
        if self.needs_chunk() {
            self.after_receive(received)
        } else {
            self
        }
    }
}

/// The engine hears of the start of a song before it hears how far the song has come:
/// progress is reported only of a chunk that follows a chunk of the same song, and
/// the first chunk after any other is reported as the start of its song.
pub proof fn lemma_song_starts_first(state: SourceState, chunk: SamplesChunk)
    requires
        chunk.wf(),
    ensures
        state.update_for(Some(chunk)) matches Some(AudioUpdate::Playing(playing)) ==> (
        state.current_chunk matches Some(previous) && previous.song_id == playing.song_id
            && playing.song_id == chunk.song_id && playing.samples_played
            == chunk.start_position),
        !(state.current_chunk matches Some(previous) && previous.song_id == chunk.song_id)
            ==> state.update_for(Some(chunk)) == Some(AudioUpdate::SongStarts(chunk.song_id)),
        state.after_receive(Some(chunk)).current_chunk == Some(chunk),
{
}

impl View for ReceiverSource {
    type V = SourceState;

    closed spec fn view(&self) -> SourceState {
        SourceState { current_chunk: self.current_chunk, samples_counter: self.samples_counter }
    }
}

impl ReceiverSource {
    /// The chunk that plays can be played, and no more of it went out than it holds. This holds of every value of the type.
    #[verifier::type_invariant]
    pub open spec fn wf(&self) -> bool {
        self@.wf()
    }

    /// The channel that the chunks come in by.
    pub closed spec fn chunk_receiver(&self) -> Receiver<SamplesChunk> {
        self.chunk_receiver
    }

    /// The channel by which the engine hears of the source.
    pub closed spec fn update_sender(&self) -> Sender<AudioBackendCommand> {
        self.update_sender
    }

    /// A source that plays nothing yet. It takes its chunks from `chunk_receiver` and
    /// tells `update_sender` how far it has come.
    pub fn new(
        chunk_receiver: Receiver<SamplesChunk>,
        update_sender: Sender<AudioBackendCommand>,
    ) -> (source: ReceiverSource)
        ensures
            source@ == SourceState::idle(),
            source@.wf(),
            source.chunk_receiver() == chunk_receiver,
            source.update_sender() == update_sender,
    {
        ReceiverSource { chunk_receiver, update_sender, current_chunk: None, samples_counter: 0 }
    }

    /// Tells whether no sample is left to play.
    pub fn needs_chunk(&self) -> (needed: bool)
        ensures
            needed == self@.needs_chunk(),
    {
        match &self.current_chunk {
            Some(chunk) => self.samples_counter >= chunk.length,
            None => true,
        }
    }

    /// Takes up what the chunk channel gave, and returns what to tell the engine.
    pub fn chunk_received(&mut self, received: Option<SamplesChunk>) -> (update: Option<
        AudioUpdate,
    >)
        ensures
            final(self).chunk_receiver() == old(self).chunk_receiver(),
            final(self).update_sender() == old(self).update_sender(),
            final(self)@ == old(self)@.after_receive(received),
            final(self)@.wf(),
            update == old(self)@.update_for(received),
    {
        proof {
            use_type_invariant(&*self);
        }
        match received {
            Some(chunk) => {
                if !chunk.is_well_formed() {
                    self.current_chunk = None;
                    self.samples_counter = 0;
                    return None;
                }
                let same_song = match &self.current_chunk {
                    Some(previous) => previous.song_id == chunk.song_id,
                    None => false,
                };
                let update = if same_song {
                    AudioUpdate::Playing(
                        PlayingUpdate {
                            song_id: chunk.song_id,
                            samples_played: chunk.start_position,
                        },
                    )
                } else {
                    AudioUpdate::SongStarts(chunk.song_id)
                };
                self.samples_counter = 0;
                self.current_chunk = Some(chunk);
                Some(update)
            },
            None => {
                self.current_chunk = None;
                self.samples_counter = 0;
                None
            },
        }
    }

    /// Asks the chunk channel for the next chunk, without waiting. Returns what there
    /// is to tell the engine of what came.
    pub fn load_next_chunk(&mut self) -> (update: Option<AudioUpdate>)
        ensures
            final(self).chunk_receiver() == old(self).chunk_receiver(),
            final(self).update_sender() == old(self).update_sender(),
            exists|received: Option<SamplesChunk>|
                {
                    &&& #[trigger] final(self)@ == old(self)@.after_receive(received)
                    &&& update == old(self)@.update_for(received)
                },
            final(self)@.wf(),
    {
        let received = try_recv(&self.chunk_receiver);
        let update = self.chunk_received(received);
        assert(self@ == old(self)@.after_receive(received) && update == old(self)@.update_for(
            received,
        ));
        update
    }

    /// Hands an update to the engine's channel, without waiting. Whether the engine
    /// still listens, and whether its channel has room, makes no difference to the
    /// source.
    pub fn tell(&self, update: AudioUpdate) {
        let _ = try_send(&self.update_sender, AudioBackendCommand::Update(update));
    }

    /// Hands out the next sample of the chunk that plays, if one is left.
    pub fn take_sample(&mut self) -> (sample: Option<Sample>)
        ensures
            final(self).chunk_receiver() == old(self).chunk_receiver(),
            final(self).update_sender() == old(self).update_sender(),
            sample == old(self)@.sample(),
            final(self)@ == old(self)@.after_sample(),
            final(self)@.wf(),
    {
        proof {
            use_type_invariant(&*self);
        }
        match &self.current_chunk {
            Some(chunk) => {
                if self.samples_counter < chunk.length {
                    let value = chunk.sample(self.samples_counter);
                    self.samples_counter = self.samples_counter + 1;
                    Some(value)
                } else {
                    None
                }
            },
            None => None,
        }
    }

    /// The next sample for the output, and what there is to tell the engine. When the
    /// chunk that plays is used up, the source asks the chunk channel for the next
    /// one, without waiting. No sample says that the source is starved: the output
    /// then fades out from its last value.
    pub fn next(&mut self) -> (pull: Pull)
        ensures
            final(self).chunk_receiver() == old(self).chunk_receiver(),
            final(self).update_sender() == old(self).update_sender(),
            exists|received: Option<SamplesChunk>|
                {
                    &&& #[trigger] final(self)@ == old(self)@.refilled(received).after_sample()
                    &&& pull.sample == old(self)@.refilled(received).sample()
                    &&& pull.update == old(self)@.update_on_pull(received)
                },
            !old(self)@.needs_chunk() ==> final(self)@ == old(self)@.after_sample() && pull.sample
                == old(self)@.sample() && pull.update is None,
            final(self)@.wf(),
    {
        if self.needs_chunk() {
            let update = self.load_next_chunk();
            let ghost received = choose|received: Option<SamplesChunk>|
                {
                    &&& #[trigger] self@ == old(self)@.after_receive(received)
                    &&& update == old(self)@.update_for(received)
                };
            let sample = self.take_sample();
            assert(self@ == old(self)@.refilled(received).after_sample() && sample == old(self)@.refilled(received).sample() && update == old(self)@.update_on_pull(received));
            Pull { sample, update }
        } else {
            let sample = self.take_sample();
            assert(self@ == old(self)@.refilled(None).after_sample() && sample == old(self)@.refilled(None).sample() && old(self)@.update_on_pull(None) is None);
            Pull { sample, update: None }
        }
    }

    /// Number of samples in the buffer of the chunk that plays.
    pub fn current_frame_len(&self) -> (len: Option<usize>)
        ensures
            len == match self@.current_chunk {
                Some(chunk) => Some(chunk.data@.len() as usize),
                None => None,
            },
    {
        match &self.current_chunk {
            Some(chunk) => Some(chunk.data.len()),
            None => None,
        }
    }

    /// Channels of the chunk that plays; two while none plays.
    pub fn channels(&self) -> (channels: u16)
        ensures
            channels == match self@.current_chunk {
                Some(chunk) => chunk.channels,
                None => DEFAULT_CHANNELS,
            },
    {
        match &self.current_chunk {
            Some(chunk) => chunk.channels,
            None => DEFAULT_CHANNELS,
        }
    }

    /// Sample rate of the chunk that plays; 44100 while none plays.
    pub fn sample_rate(&self) -> (sample_rate: u32)
        ensures
            sample_rate == match self@.current_chunk {
                Some(chunk) => chunk.sample_rate,
                None => DEFAULT_SAMPLE_RATE,
            },
    {
        match &self.current_chunk {
            Some(chunk) => chunk.sample_rate,
            None => DEFAULT_SAMPLE_RATE,
        }
    }

    /// The source never ends, so it has no length.
    pub fn total_duration(&self) -> (duration: Option<Duration>)
        ensures
            duration is None,
    {
        None
    }
}

} // verus!
