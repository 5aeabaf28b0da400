use crossbeam::channel::{unbounded, Receiver};
use musicus::audio_backend::channel::TrySendOutcome;
use musicus::audio_backend::chunk::{position_to_duration, SamplesChunk, CHUNK_SIZE};
use musicus::audio_backend::engine::{AudioBackend, BackendAction, PacingEnd, SongSlot};
use musicus::audio_backend::loader::{load_chunks, DecodedSong};
use musicus::audio_backend::receiver_source::ReceiverSource;
use musicus::audio_backend::{
    AudioBackendCommand, AudioCommand, AudioInfo, AudioUpdate, LoadInfo, OpenError, PlayingUpdate,
    SeekCommand, SeekDirection, CHUNK_BUFFER_SIZE,
};
use musicus::song::Song;
use musicus::time::Duration;
use std::sync::Arc;

const SAMPLE_RATE: u32 = 44_100;
const CHANNELS: u16 = 2;

struct Rig {
    backend: AudioBackend,
    source: ReceiverSource,
    info_receiver: Receiver<AudioInfo>,
    backend_receiver: Receiver<AudioBackendCommand>,
    infos: Vec<AudioInfo>,
    actions: Vec<String>,
}

fn describe(action: &BackendAction) -> String {
    match action {
        BackendAction::SpawnLoader(song) => format!("spawn {}", song.get_id()),
        BackendAction::Play => "play".to_string(),
        BackendAction::Pause => "pause".to_string(),
        BackendAction::SetVolume(volume) => format!("volume {}", volume),
        BackendAction::Tell(info) => format!("tell {:?}", info),
        BackendAction::Shutdown => "shutdown".to_string(),
    }
}

fn rig(volume: u8) -> Rig {
    let (info_sender, info_receiver) = unbounded();
    let (backend_sender, backend_receiver) = unbounded();
    let (backend, source, actions) = AudioBackend::new(info_sender, backend_sender, volume);
    Rig {
        backend,
        source,
        info_receiver,
        backend_receiver,
        infos: Vec::new(),
        actions: actions.iter().map(describe).collect(),
    }
}

impl Rig {
    /// Hands a message to the engine and does what the engine asks for, as far as
    /// the controller is concerned; the rest is kept.
    fn dispatch(&mut self, message: AudioBackendCommand) {
        for action in self.backend.dispatch(message) {
            match action {
                BackendAction::Tell(info) => assert!(self.backend.tell(info)),
                other => self.actions.push(describe(&other)),
            }
        }
        while let Ok(info) = self.info_receiver.try_recv() {
            self.infos.push(info);
        }
    }

    /// Pulls one sample as an output would, and tells the engine what the source
    /// has to tell.
    fn pull(&mut self) -> Option<u32> {
        let pull = self.source.next();
        if let Some(update) = pull.update {
            self.source.tell(update);
        }
        pull.sample
    }

    /// Hands the engine what the source has told it.
    fn deliver_updates(&mut self) -> usize {
        let mut delivered = 0;
        while let Ok(message) = self.backend_receiver.try_recv() {
            self.dispatch(message);
            delivered += 1;
        }
        delivered
    }

    fn load(&mut self, song_id: u32, seconds: u64, stated: bool) {
        let total = (seconds as usize) * (SAMPLE_RATE as usize) * (CHANNELS as usize);
        let decoded = DecodedSong {
            channels: CHANNELS,
            sample_rate: SAMPLE_RATE,
            total_duration: if stated { Some(Duration::from_secs(seconds)) } else { None },
            samples: (0..total).map(|i| song_id * 1_000_000 + i as u32).collect(),
        };
        for event in load_chunks(song_id, Ok(decoded)) {
            self.dispatch(AudioBackendCommand::LoadInfo(event));
        }
    }

    /// Pulls samples as an output would, with the engine at work between any two of
    /// them, until the source is starved. Returns the samples.
    fn play_out(&mut self) -> Vec<u32> {
        let mut samples = Vec::new();
        loop {
            match self.pull() {
                Some(sample) => samples.push(sample),
                None => {
                    if self.deliver_updates() == 0 {
                        return samples;
                    }
                }
            }
            self.deliver_updates();
        }
    }
}

fn song(id: u32) -> Song {
    Song::new(id, format!("song {}", id), format!("/music/{}.ogg", id))
}

fn chunk(song_id: u32, index: usize, last_chunk: bool) -> SamplesChunk {
    SamplesChunk {
        channels: CHANNELS,
        sample_rate: SAMPLE_RATE,
        start_position: index * CHUNK_SIZE,
        length: CHUNK_SIZE,
        data: Arc::new(vec![index as u32; CHUNK_SIZE]),
        song_id,
        last_chunk,
    }
}

fn play(id: u32) -> AudioBackendCommand {
    AudioBackendCommand::Command(AudioCommand::Play(song(id)))
}

fn queue(id: u32) -> AudioBackendCommand {
    AudioBackendCommand::Command(AudioCommand::Queue(song(id)))
}

fn playing_times(infos: &[AudioInfo], song_id: u32) -> Vec<Duration> {
    infos
        .iter()
        .filter_map(|info| match info {
            AudioInfo::Playing(id, played) if *id == song_id => Some(*played),
            _ => None,
        })
        .collect()
}

#[test]
fn a_new_engine_starts_the_output() {
    let r = rig(40);
    assert_eq!(r.actions, vec!["play", "volume 40"]);
    assert_eq!(r.backend.volume(), 40);
    assert_eq!(r.backend.current_song_id(), None);
    assert_eq!(r.backend.next_song_id(), None);
    assert_eq!(r.backend.play_position(), None);
}

#[test]
fn play_asks_for_a_loader_once() {
    let mut r = rig(100);
    r.actions.clear();
    r.dispatch(play(1));
    assert_eq!(r.actions, vec!["spawn 1", "play"]);
    assert_eq!(r.backend.current_song_id(), Some(1));
    assert_eq!(r.backend.play_position(), Some(0));
    assert!(r.backend.is_song_loading(1));
    assert!(!r.backend.is_song_loading(2));
    // the song is loading already: it starts anew without another loader
    r.actions.clear();
    r.dispatch(AudioBackendCommand::LoadInfo(LoadInfo::Chunk(chunk(1, 0, false))));
    r.dispatch(play(1));
    assert_eq!(r.actions, vec!["play"]);
    assert_eq!(r.backend.play_position(), Some(0));
    assert_eq!(r.backend.get_audio_song(1), Some(SongSlot::Current));
}

#[test]
fn queue_asks_for_a_loader_and_keeps_the_song_as_next() {
    let mut r = rig(100);
    r.dispatch(play(1));
    r.actions.clear();
    r.dispatch(queue(2));
    assert_eq!(r.actions, vec!["spawn 2"]);
    assert_eq!(r.backend.current_song_id(), Some(1));
    assert_eq!(r.backend.next_song_id(), Some(2));
    assert_eq!(r.backend.get_audio_song(2), Some(SongSlot::Next));
    assert_eq!(r.backend.get_audio_song(3), None);
    r.actions.clear();
    r.dispatch(queue(1));
    assert_eq!(r.actions, Vec::<String>::new());
    assert_eq!(r.backend.next_song_id(), Some(1));
}

#[test]
fn pause_unpause_and_volume_go_to_the_output() {
    let mut r = rig(100);
    r.actions.clear();
    r.dispatch(AudioBackendCommand::Command(AudioCommand::Pause));
    r.dispatch(AudioBackendCommand::Command(AudioCommand::Unpause));
    r.dispatch(AudioBackendCommand::Command(AudioCommand::SetVolume(35)));
    assert_eq!(r.actions, vec!["pause", "play", "volume 35"]);
    assert_eq!(r.backend.volume(), 35);
}

#[test]
fn chunks_of_other_songs_are_dropped() {
    let mut r = rig(100);
    r.dispatch(play(1));
    assert!(!r.backend.accept_chunk(chunk(2, 0, false)));
    assert!(r.backend.accept_chunk(chunk(1, 0, false)));
    let mut malformed = chunk(1, 1, false);
    malformed.length = 0;
    assert!(!r.backend.accept_chunk(malformed));
}

#[test]
fn back_pressure_holds_the_engine_at_the_capacity_of_the_channel() {
    let mut r = rig(100);
    r.dispatch(play(1));
    for index in 0..10 {
        r.dispatch(AudioBackendCommand::LoadInfo(LoadInfo::Chunk(chunk(1, index, false))));
    }
    // the chunk at index 0 is never sent; four of the others are in flight
    assert_eq!(r.backend.play_position(), Some(CHUNK_BUFFER_SIZE * CHUNK_SIZE));
    assert_eq!(r.backend.send_next_chunks(), PacingEnd::Blocked);
    assert_eq!(r.backend.play_position(), Some(CHUNK_BUFFER_SIZE * CHUNK_SIZE));
    // without word from the source the engine sends nothing more
    let mut pulled = Vec::new();
    while let Some(sample) = r.pull() {
        pulled.push(sample);
    }
    assert_eq!(pulled.len(), CHUNK_BUFFER_SIZE * CHUNK_SIZE);
    assert_eq!(pulled[0], 1);
    assert_eq!(pulled[pulled.len() - 1], CHUNK_BUFFER_SIZE as u32);
    // progress of the source makes room
    assert!(r.deliver_updates() > 0);
    assert_eq!(r.backend.play_position(), Some(2 * CHUNK_BUFFER_SIZE * CHUNK_SIZE));
}

#[test]
fn an_offer_that_the_source_did_not_take_changes_nothing() {
    let mut r = rig(100);
    r.dispatch(play(1));
    for index in 0..3 {
        r.backend.accept_chunk(chunk(1, index, false));
    }
    r.backend.chunk_offered(TrySendOutcome::Full);
    assert_eq!(r.backend.play_position(), Some(0));
    r.backend.chunk_offered(TrySendOutcome::Disconnected);
    assert_eq!(r.backend.play_position(), Some(0));
    r.backend.chunk_offered(TrySendOutcome::Sent);
    assert_eq!(r.backend.play_position(), Some(CHUNK_SIZE));
    r.backend.chunk_offered(TrySendOutcome::Sent);
    assert_eq!(r.backend.play_position(), Some(2 * CHUNK_SIZE));
    // no chunk is pending any more
    r.backend.chunk_offered(TrySendOutcome::Sent);
    assert_eq!(r.backend.play_position(), Some(2 * CHUNK_SIZE));
}

#[test]
fn the_last_chunk_lets_the_next_song_take_over() {
    let mut r = rig(100);
    r.dispatch(play(1));
    r.dispatch(queue(2));
    r.backend.accept_chunk(chunk(1, 0, false));
    r.backend.accept_chunk(chunk(1, 1, true));
    assert_eq!(r.backend.send_next_chunks(), PacingEnd::Idle);
    assert_eq!(r.backend.current_song_id(), Some(2));
    assert_eq!(r.backend.next_song_id(), None);
    assert_eq!(r.backend.play_position(), Some(0));
}

#[test]
fn a_seek_past_the_end_moves_on_to_the_next_song() {
    let mut r = rig(100);
    r.dispatch(play(1));
    r.backend.accept_chunk(chunk(1, 0, true));
    // the song is complete, and the chunk after its only one will never come
    assert_eq!(r.backend.send_next_chunks(), PacingEnd::Idle);
    assert_eq!(r.backend.current_song_id(), None);

    let mut r = rig(100);
    r.dispatch(play(1));
    r.dispatch(queue(2));
    for index in 0..3 {
        r.backend.accept_chunk(chunk(1, index, index == 2));
    }
    r.dispatch(AudioBackendCommand::Command(AudioCommand::Seek(SeekCommand {
        duration: Duration::from_secs(60),
        direction: SeekDirection::Forward,
    })));
    assert_eq!(r.backend.play_position(), Some(60 * 88_200));
    assert_eq!(r.backend.send_next_chunks(), PacingEnd::Idle);
    assert_eq!(r.backend.current_song_id(), Some(2));
}

#[test]
fn seek_moves_the_position_within_the_range_of_positions() {
    let mut r = rig(100);
    let jump = |millis: u64, direction| SeekCommand {
        duration: Duration::from_millis(millis),
        direction,
    };
    // without a song, and without the format of the song, nothing moves
    r.backend.seek(jump(1_000, SeekDirection::Forward));
    assert_eq!(r.backend.play_position(), None);
    r.dispatch(play(1));
    r.backend.seek(jump(1_000, SeekDirection::Forward));
    assert_eq!(r.backend.play_position(), Some(0));
    r.backend.accept_chunk(chunk(1, 0, false));
    r.backend.seek(jump(1_000, SeekDirection::Forward));
    assert_eq!(r.backend.play_position(), Some(88_200));
    r.backend.seek(jump(500, SeekDirection::Backward));
    assert_eq!(r.backend.play_position(), Some(44_100));
    r.backend.seek(jump(2_000, SeekDirection::Backward));
    assert_eq!(r.backend.play_position(), Some(0));
    r.backend.seek(SeekCommand {
        duration: Duration::from_nanos(u128::MAX),
        direction: SeekDirection::Forward,
    });
    assert_eq!(r.backend.play_position(), Some(usize::MAX));
    r.backend.seek(jump(1_000, SeekDirection::Forward));
    assert_eq!(r.backend.play_position(), Some(usize::MAX));
}

#[test]
fn progress_is_reported_as_time_once_the_format_is_known() {
    let mut r = rig(100);
    r.dispatch(play(1));
    let update = PlayingUpdate { song_id: 1, samples_played: 88_200 };
    assert_eq!(r.backend.playing_info(update), None);
    r.backend.accept_chunk(chunk(1, 0, false));
    assert_eq!(
        r.backend.playing_info(update),
        Some(AudioInfo::Playing(1, Duration::from_secs(1)))
    );
    let stale = PlayingUpdate { song_id: 9, samples_played: 88_200 };
    assert_eq!(r.backend.playing_info(stale), None);
    r.dispatch(AudioBackendCommand::Update(AudioUpdate::Playing(update)));
    r.dispatch(AudioBackendCommand::Update(AudioUpdate::Playing(stale)));
    r.dispatch(AudioBackendCommand::Update(AudioUpdate::SongStarts(1)));
    assert_eq!(
        r.infos,
        vec![AudioInfo::Playing(1, Duration::from_secs(1)), AudioInfo::SongStarts(1)]
    );
}

#[test]
fn lengths_and_failures_go_on_to_the_controller() {
    let mut r = rig(100);
    r.dispatch(AudioBackendCommand::LoadInfo(LoadInfo::Duration(3, Duration::from_secs(7))));
    r.dispatch(AudioBackendCommand::LoadInfo(LoadInfo::Failed(4, OpenError::NotDecodable)));
    assert_eq!(
        r.infos,
        vec![
            AudioInfo::SongDuration(3, Duration::from_secs(7)),
            AudioInfo::FailedOpen(4, OpenError::NotDecodable)
        ]
    );
    assert_eq!(
        AudioBackend::load_info_info(&LoadInfo::Chunk(chunk(1, 0, false))),
        None
    );
    // the controller hears only what the engine is asked to tell it
    let actions = r.backend.handle_load_info(LoadInfo::Failed(5, OpenError::FileNotFound));
    assert_eq!(
        actions.iter().map(describe).collect::<Vec<_>>(),
        vec!["tell FailedOpen(5, FileNotFound)"]
    );
    assert!(r.info_receiver.try_recv().is_err());
}

#[test]
fn the_engine_asks_to_be_stopped_when_the_controller_is_gone() {
    let (info_sender, info_receiver) = unbounded();
    let (backend_sender, _backend_receiver) = unbounded();
    let (mut backend, _source, _) = AudioBackend::new(info_sender, backend_sender, 100);
    drop(info_receiver);
    let actions = backend.handle_update(AudioUpdate::SongStarts(1));
    assert!(matches!(
        actions.as_slice(),
        [BackendAction::Tell(AudioInfo::SongStarts(1))]
    ));
    assert!(!backend.tell(AudioInfo::SongStarts(1)));
    assert!(!backend.tell(AudioInfo::Playing(1, Duration::from_secs(1))));
    assert!(backend.send_info(AudioInfo::SongStarts(1)));
    // lengths and failures are dropped without more ado
    let length = AudioInfo::SongDuration(1, Duration::from_secs(1));
    let actions = backend.handle_load_info(LoadInfo::Duration(1, Duration::from_secs(1)));
    assert!(matches!(actions.as_slice(), [BackendAction::Tell(info)] if *info == length));
    assert!(backend.tell(length));
    assert!(backend.tell(AudioInfo::FailedOpen(1, OpenError::FileNotFound)));
}

#[test]
fn the_engine_asks_to_be_stopped_when_the_source_is_gone() {
    let (info_sender, _info_receiver) = unbounded();
    let (backend_sender, _backend_receiver) = unbounded();
    let (mut backend, source, _) = AudioBackend::new(info_sender, backend_sender, 100);
    drop(source);
    backend.play(song(1));
    backend.accept_chunk(chunk(1, 0, false));
    backend.accept_chunk(chunk(1, 1, false));
    assert_eq!(backend.send_next_chunks(), PacingEnd::Disconnected);
    assert_eq!(backend.play_position(), Some(0));
    let actions = backend.handle_load_info(LoadInfo::Chunk(chunk(1, 2, false)));
    assert!(matches!(actions.as_slice(), [BackendAction::Shutdown]));
}

#[test]
fn a_song_plays_to_its_end() {
    let mut r = rig(100);
    r.dispatch(play(1));
    r.load(1, 10, true);
    let samples = r.play_out();
    let total = 10 * 88_200;
    // everything but the chunk at index 0 reaches the output, in order
    assert_eq!(samples.len(), total - CHUNK_SIZE);
    assert_eq!(samples[0], 1_000_000 + CHUNK_SIZE as u32);
    assert!(samples.windows(2).all(|pair| pair[1] == pair[0] + 1));

    assert_eq!(r.infos[0], AudioInfo::SongDuration(1, Duration::from_secs(10)));
    let first_start = r.infos.iter().position(|i| *i == AudioInfo::SongStarts(1)).unwrap();
    let first_playing = r
        .infos
        .iter()
        .position(|i| matches!(i, AudioInfo::Playing(1, _)))
        .unwrap();
    assert!(first_start < first_playing);
    assert_eq!(r.infos.iter().filter(|i| matches!(i, AudioInfo::SongStarts(_))).count(), 1);
    // progress never falls
    let times = playing_times(&r.infos, 1);
    assert!(!times.is_empty());
    assert!(times.windows(2).all(|pair| pair[0].as_nanos() <= pair[1].as_nanos()));
    assert_eq!(times[0], position_to_duration(2 * CHUNK_SIZE, SAMPLE_RATE, CHANNELS));
    // with nothing queued the source is starved, and the engine has no song
    assert_eq!(r.pull(), None);
    assert_eq!(r.backend.current_song_id(), None);
}

#[test]
fn a_queued_song_follows_without_a_gap() {
    let mut r = rig(100);
    r.dispatch(play(1));
    r.dispatch(queue(2));
    r.load(1, 2, true);
    r.load(2, 3, true);
    let samples = r.play_out();
    let of_first = 2 * 88_200 - CHUNK_SIZE;
    let of_second = 3 * 88_200 - CHUNK_SIZE;
    // the samples of the second song follow those of the first without a gap
    assert_eq!(samples.len(), of_first + of_second);
    assert_eq!(samples[of_first - 1], 1_000_000 + 2 * 88_200 - 1);
    assert_eq!(samples[of_first], 2_000_000 + CHUNK_SIZE as u32);

    let starts: Vec<&AudioInfo> = r
        .infos
        .iter()
        .filter(|i| matches!(i, AudioInfo::SongStarts(_)))
        .collect();
    assert_eq!(starts, vec![&AudioInfo::SongStarts(1), &AudioInfo::SongStarts(2)]);
    let second_start = r.infos.iter().position(|i| *i == AudioInfo::SongStarts(2)).unwrap();
    assert!(r.infos[..second_start]
        .iter()
        .all(|i| !matches!(i, AudioInfo::Playing(2, _))));
    assert!(r.infos[second_start..]
        .iter()
        .all(|i| !matches!(i, AudioInfo::Playing(1, _))));
    // the first progress of the second song is that of the chunk after the one it
    // started with
    assert_eq!(
        playing_times(&r.infos, 2)[0],
        position_to_duration(2 * CHUNK_SIZE, SAMPLE_RATE, CHANNELS)
    );
}

#[test]
fn a_seek_moves_the_progress_on() {
    let mut r = rig(100);
    r.dispatch(play(1));
    r.load(1, 10, true);
    // one second of the song plays
    let mut pulled = 0;
    while pulled < 88_200 {
        assert!(r.pull().is_some());
        r.deliver_updates();
        pulled += 1;
    }
    let before_seek = playing_times(&r.infos, 1).len();
    r.dispatch(AudioBackendCommand::Command(AudioCommand::Seek(SeekCommand {
        duration: Duration::from_secs(3),
        direction: SeekDirection::Forward,
    })));
    r.play_out();
    let times = playing_times(&r.infos, 1);
    let after_seek = &times[before_seek..];
    // what was in flight plays first; everything behind it lies past the jump
    let one_chunk = position_to_duration(CHUNK_SIZE, SAMPLE_RATE, CHANNELS);
    let bound = Duration::from_secs(4).as_nanos() - one_chunk.as_nanos();
    let in_flight = after_seek
        .iter()
        .take_while(|t| t.as_nanos() < Duration::from_secs(2).as_nanos())
        .count();
    assert!(in_flight <= CHUNK_BUFFER_SIZE);
    assert!(after_seek.len() > in_flight);
    assert!(after_seek[in_flight..].iter().all(|t| t.as_nanos() >= bound));
}

#[test]
fn a_song_that_cannot_be_opened_is_reported() {
    let mut r = rig(100);
    r.actions.clear();
    r.dispatch(play(1));
    assert_eq!(r.actions, vec!["spawn 1", "play"]);
    for event in load_chunks(1, Err(OpenError::FileNotFound)) {
        r.dispatch(AudioBackendCommand::LoadInfo(event));
    }
    assert_eq!(r.play_out(), Vec::<u32>::new());
    assert_eq!(r.infos, vec![AudioInfo::FailedOpen(1, OpenError::FileNotFound)]);
    // the engine goes on with what comes next
    r.dispatch(play(2));
    r.load(2, 1, false);
    let samples = r.play_out();
    assert_eq!(samples.len(), 88_200 - CHUNK_SIZE);
    assert!(r.infos.contains(&AudioInfo::SongStarts(2)));
    assert!(!r.infos.contains(&AudioInfo::SongStarts(1)));
    assert!(r.infos.contains(&AudioInfo::SongDuration(2, Duration::from_secs(1))));
}

#[test]
fn the_engine_goes_on_unless_the_controller_misses_what_it_needs() {
    let starts = AudioInfo::SongStarts(1);
    let playing = AudioInfo::Playing(1, Duration::from_secs(1));
    let length = AudioInfo::SongDuration(1, Duration::from_secs(1));
    let failure = AudioInfo::FailedOpen(1, OpenError::NotDecodable);
    for info in [starts, playing, length, failure] {
        assert!(AudioBackend::goes_on(info, false));
    }
    assert!(!AudioBackend::goes_on(starts, true));
    assert!(!AudioBackend::goes_on(playing, true));
    assert!(AudioBackend::goes_on(length, true));
    assert!(AudioBackend::goes_on(failure, true));
}

#[test]
fn progress_is_told_before_the_engine_asks_to_be_stopped() {
    let (info_sender, info_receiver) = unbounded();
    let (backend_sender, _backend_receiver) = unbounded();
    let (mut backend, source, _) = AudioBackend::new(info_sender, backend_sender, 100);
    backend.play(song(1));
    backend.accept_chunk(chunk(1, 0, false));
    backend.accept_chunk(chunk(1, 1, false));
    drop(source);
    let update = AudioUpdate::Playing(PlayingUpdate { song_id: 1, samples_played: 88_200 });
    let actions = backend.handle_update(update);
    assert_eq!(
        actions.iter().map(describe).collect::<Vec<_>>(),
        vec!["tell Playing(1, Duration { nanos: 1000000000 })", "shutdown"]
    );
    // nothing was sent behind the back of whoever does what the engine asks
    assert!(info_receiver.try_recv().is_err());
    assert!(!backend.send_info(AudioInfo::SongStarts(1)));
    assert_eq!(info_receiver.try_recv(), Ok(AudioInfo::SongStarts(1)));
}
